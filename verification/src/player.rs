//! The player: where they stand and what they carry.

use vstd::prelude::*;
use vstd::string::*;
use crate::text::{append_each, find_name, has_name, listing, names};

verus! {

/// The player of one game.
#[derive(Debug, Clone)]
pub struct Player {
    /// The name of the room in which the player stands.
    pub location: String,
    /// What the player carries, in the order in which it was taken. The
    /// same name may occur more than once.
    pub inventory: Vec<String>,
}

/// A player as plain values.
pub struct PlayerView {
    pub location: Seq<char>,
    pub inventory: Seq<Seq<char>>,
}

impl View for Player {
    type V = PlayerView;

    open spec fn view(&self) -> PlayerView {
        PlayerView { location: self.location@, inventory: names(self.inventory@) }
    }
}

/// What the player is told of an empty inventory.
pub const EMPTY_INVENTORY: &'static str = "Your inventory is empty.";

/// The line above the items of an inventory.
pub const CARRYING: &'static str = "You are carrying:\n";

/// The text that shows an inventory: one line for an empty one, else a
/// heading and a line for each item, in order.
pub open spec fn inventory_text(inventory: Seq<Seq<char>>) -> Seq<char> {
    if inventory.len() == 0 {
        EMPTY_INVENTORY@
    } else {
        CARRYING@ + listing(inventory, "- "@, "\n"@)
    }
}

impl Player {
    /// A player who stands in the room named `starting_location` and
    /// carries nothing.
    pub fn new(starting_location: &str) -> (r: Player)
        ensures
            r@ == (PlayerView { location: starting_location@, inventory: Seq::empty() }),
    {
        let r = Player { location: String::from_str(starting_location), inventory: Vec::new() };
        assert(r@.inventory =~= Seq::empty());
        r
    }

    /// Adds an item to the end of the inventory, whatever it already
    /// holds.
    pub fn take_item(&mut self, item: &str)
        ensures
            final(self)@ == (PlayerView {
                inventory: old(self)@.inventory.push(item@),
                ..old(self)@
            }),
    {
        self.inventory.push(String::from_str(item));
        assert(self@.inventory =~= old(self)@.inventory.push(item@));
    }

    /// Whether the player carries an item that `item` names, without
    /// regard to case.
    pub fn has_item(&self, item: &str) -> (r: bool)
        ensures
            r == has_name(self@.inventory, item@),
    {
        find_name(&self.inventory, item) < self.inventory.len()
    }

    /// The text that shows the inventory.
    pub fn display_inventory(&self) -> (r: String)
        ensures
            r@ == inventory_text(self@.inventory),
    {
        if self.inventory.is_empty() {
            String::from_str(EMPTY_INVENTORY)
        } else {
            let mut inventory_list = String::from_str(CARRYING);
            append_each(&mut inventory_list, &self.inventory, "- ", "\n");
            inventory_list
        }
    }
}

} // verus!
