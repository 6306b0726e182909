//! The game engine: it owns the world and the player, applies one command
//! at a time, and answers each with a text for the player.

use vstd::prelude::*;
use vstd::string::*;
use crate::input::{Command, CommandView};
use crate::player::{inventory_text, Player, PlayerView};
use crate::proofs::{lemma_after_wf, lemma_initial};
use crate::room::{
    create_rooms, exits_of, find_exit, find_room, temple, has_room, room_index, rooms_of,
    well_formed, Direction, Room, RoomView, ANCIENT_CRYPT, ANCIENT_MAP, ANTECHAMBER,
    CEREMONIAL_DAGGER, ENTRANCE_HALL, GOLDEN_IDOL, TEMPLE_EXIT, TORCH,
};
use crate::text::{append_each, eq_ignore_case, has_name, is_text, listing, same_name};

verus! {

/// The answer to "help".
pub const HELP: &'static str =
    "Available commands:\n\
     - go [direction]: Move in the specified direction (north, east, south, west)\n\
     - take [item]: Pick up an item\n\
     - use [item]: Use an item from your inventory\n\
     - look: Look around the current room\n\
     - inventory: Check your inventory\n\
     - help: Display this help text\n\
     - quit: Exit the game";

/// The answer to "quit".
pub const GOODBYE: &'static str = "Thanks for playing! Goodbye.";

/// The answer to the idol used at the temple exit, which ends the game.
pub const ESCAPE: &'static str =
    "You place the golden idol in the keyhole. With a rumble, the stone doors slowly open, \
     revealing the path to freedom. Sunlight streams in, blinding you momentarily. \
     \n\nCongratulations! You have escaped the forgotten temple!";

/// The answer to the torch used in the crypt.
pub const TORCH_LIT: &'static str =
    "You light the torch. The crypt is now illuminated, revealing ancient inscriptions \
     on the walls that were previously hidden in darkness.";

/// The answer to the map used in the entrance hall.
pub const MAP_READ: &'static str =
    "You examine the ancient map. It shows the layout of the temple, confirming \
     your suspicions about the locations of the rooms. The exit appears to be \
     north of the Treasure Room.";

/// The answer to the dagger used in the antechamber.
pub const DAGGER_PLACED: &'static str =
    "You place the ceremonial dagger on the altar. Nothing happens, but you feel \
     a sense of respect for the ancient rituals once performed here.";

/// The answer of a game whose player stands in no room of its world.
pub const ROOM_NOT_FOUND: &'static str = "Error: Current room not found.";

/// The texts of the directions of a list of exits, in its order.
pub open spec fn direction_texts(exits: Seq<(Direction, Seq<char>)>) -> Seq<Seq<char>> {
    Seq::new(exits.len(), |i: int| exits[i].0.text())
}

/// The line of the exits in what the player sees of a room: nothing for a
/// room without exits, else the heading and each direction after a space.
pub open spec fn exits_part(room: RoomView) -> Seq<char> {
    if room.exits.len() > 0 {
        "\nExits:"@ + listing(direction_texts(room.exits), " "@, ""@)
    } else {
        Seq::empty()
    }
}

/// The list of the items in what the player sees of a room: nothing for a
/// room without items, else the heading and a line for each item.
pub open spec fn items_part(room: RoomView) -> Seq<char> {
    if room.items.len() > 0 {
        "\n\nYou see:"@ + listing(room.items, "\n- "@, ""@)
    } else {
        Seq::empty()
    }
}

/// The end of what the player sees of a room: nothing without a message,
/// else the message after an empty line.
pub open spec fn message_part(message: Seq<char>) -> Seq<char> {
    if message.len() > 0 {
        "\n\n"@ + message
    } else {
        Seq::empty()
    }
}

/// What the player sees in a room: its name, its text, its exits in their
/// order, its items in their order, and the message.
pub open spec fn look_text(room: RoomView, message: Seq<char>) -> Seq<char> {
    "[ "@ + room.name + " ]\n\n"@ + room.description + "\n"@ + exits_part(room) + items_part(room)
        + message_part(message)
}

/// The answer to a direction in which the room has no exit.
pub open spec fn no_way_text(d: Direction) -> Seq<char> {
    "You can't go "@ + d.text() + " from here."@
}

/// The answer to an item that was taken.
pub open spec fn taken_text(item: Seq<char>) -> Seq<char> {
    "You take the "@ + item + "."@
}

/// The answer to an item that does not lie in the room.
pub open spec fn not_here_text(item: Seq<char>) -> Seq<char> {
    "There is no "@ + item + " here."@
}

/// The answer to an item that the player does not carry.
pub open spec fn not_carried_text(item: Seq<char>) -> Seq<char> {
    "You don't have a "@ + item + "."@
}

/// The answer to an item that has no use in the room.
pub open spec fn no_use_text(item: Seq<char>) -> Seq<char> {
    "You can't use the "@ + item + " here."@
}

/// The answer to a command that is none.
pub open spec fn unknown_text(raw: Seq<char>) -> Seq<char> {
    "I don't understand '"@ + raw + "'.\nType 'help' for a list of commands."@
}

/// The message at an exit to the player who carries what it asks for.
pub open spec fn open_hint(item: Seq<char>) -> Seq<char> {
    "You've reached the exit with the "@ + item + "! Use the item to escape."@
}

/// The message at an exit to the player who does not carry what it asks
/// for.
pub open spec fn blocked_hint(item: Seq<char>) -> Seq<char> {
    "This appears to be an exit, but it's blocked. You need a "@ + item + " to proceed."@
}

/// Whether an item used in a room ends the game. The room is compared as
/// it is written, the item without regard to case.
pub open spec fn wins(room: Seq<char>, item: Seq<char>) -> bool {
    room == TEMPLE_EXIT@ && same_name(item, GOLDEN_IDOL@)
}

/// The answer to an item that the player carries and uses in a room. The
/// room is compared as it is written, the item without regard to case; an
/// item without use in the room is named in the answer as the player wrote
/// it.
pub open spec fn use_text(room: Seq<char>, item: Seq<char>) -> Seq<char> {
    if room == TEMPLE_EXIT@ && same_name(item, GOLDEN_IDOL@) {
        ESCAPE@
    } else if room == ANCIENT_CRYPT@ && same_name(item, TORCH@) {
        TORCH_LIT@
    } else if room == ENTRANCE_HALL@ && same_name(item, ANCIENT_MAP@) {
        MAP_READ@
    } else if room == ANTECHAMBER@ && same_name(item, CEREMONIAL_DAGGER@) {
        DAGGER_PLACED@
    } else {
        no_use_text(item)
    }
}

/// A game as plain values.
pub struct GameView {
    pub rooms: Seq<RoomView>,
    pub player: PlayerView,
    pub game_over: bool,
    pub message: Seq<char>,
}

impl GameView {
    /// Whether the player stands in a room of the world.
    pub open spec fn placed(self) -> bool {
        has_room(self.rooms, self.player.location)
    }

    /// The rooms are a well-formed world and the player stands in one of
    /// them.
    pub open spec fn wf(self) -> bool {
        &&& well_formed(self.rooms)
        &&& self.placed()
    }

    /// The index of the room in which the player stands.
    pub open spec fn current(self) -> int {
        room_index(self.rooms, self.player.location)
    }

    /// The room in which the player stands.
    pub open spec fn here(self) -> RoomView {
        self.rooms[self.current()]
    }

    /// What the player sees of the room in which they stand.
    pub open spec fn look(self) -> Seq<char> {
        if self.placed() {
            look_text(self.here(), self.message)
        } else {
            ROOM_NOT_FOUND@
        }
    }

    /// The game after the player has arrived in a room: at an exit that
    /// asks for an item, the message says whether the player carries it;
    /// anywhere else the message stays as it was.
    pub open spec fn hinted(self) -> GameView {
        if self.placed() && self.here().is_exit && self.here().required_item is Some {
            let item = self.here().required_item->0;
            GameView {
                message: if has_name(self.player.inventory, item) {
                    open_hint(item)
                } else {
                    blocked_hint(item)
                },
                ..self
            }
        } else {
            self
        }
    }

    /// The game with the player in the room named `target`, after arrival.
    pub open spec fn moved_to(self, target: Seq<char>) -> GameView {
        (GameView { player: PlayerView { location: target, ..self.player }, ..self }).hinted()
    }

    /// The game after the player has taken what `item` names out of the
    /// room: the first such item has left the room, and `item`, as it is
    /// written, is the last of the inventory.
    pub open spec fn taken(self, item: Seq<char>) -> GameView {
        GameView {
            rooms: self.rooms.update(self.current(), self.here().without_item(item)),
            player: PlayerView { inventory: self.player.inventory.push(item), ..self.player },
            ..self
        }
    }

    /// The game after a command.
    pub open spec fn after(self, command: CommandView) -> GameView {
        match command {
            CommandView::Go(d) => if self.placed() && self.here().target(d) is Some {
                self.moved_to(self.here().target(d)->0)
            } else {
                self
            },
            CommandView::Take(item) => if self.placed() && has_name(self.here().items, item) {
                self.taken(item)
            } else {
                self
            },
            CommandView::Use(item) => if has_name(self.player.inventory, item) && self.placed()
                && wins(self.here().name, item) {
                GameView { game_over: true, ..self }
            } else {
                self
            },
            CommandView::Quit => GameView { game_over: true, ..self },
            _ => self,
        }
    }

    /// The answer to a command.
    pub open spec fn answer(self, command: CommandView) -> Seq<char> {
        match command {
            CommandView::Go(d) => if !self.placed() {
                ROOM_NOT_FOUND@
            } else if self.here().target(d) is Some {
                self.moved_to(self.here().target(d)->0).look()
            } else {
                no_way_text(d)
            },
            CommandView::Take(item) => if !self.placed() {
                ROOM_NOT_FOUND@
            } else if has_name(self.here().items, item) {
                taken_text(item)
            } else {
                not_here_text(item)
            },
            CommandView::Use(item) => if !has_name(self.player.inventory, item) {
                not_carried_text(item)
            } else if !self.placed() {
                ROOM_NOT_FOUND@
            } else {
                use_text(self.here().name, item)
            },
            CommandView::Inventory => inventory_text(self.player.inventory),
            CommandView::Look => self.look(),
            CommandView::Help => HELP@,
            CommandView::Quit => GOODBYE@,
            CommandView::Unknown(raw) => unknown_text(raw),
        }
    }
}

/// The game at its start: the world as it is built, the player in the
/// entrance hall with nothing in hand, no message, not over.
pub open spec fn initial() -> GameView {
    GameView {
        rooms: temple(),
        player: PlayerView { location: ENTRANCE_HALL@, inventory: Seq::empty() },
        game_over: false,
        message: Seq::empty(),
    }
}

/// One game: the world, the player, whether the game is over, and the
/// message that the last arrival at an exit left.
#[derive(Debug, Clone)]
pub struct Game {
    /// The rooms of the world, found by their names.
    pub rooms: Vec<Room>,
    /// The player.
    pub player: Player,
    /// Whether the game is over.
    pub game_over: bool,
    /// The message of the last arrival at an exit; empty before the first.
    pub message: String,
}

impl View for Game {
    type V = GameView;

    open spec fn view(&self) -> GameView {
        GameView {
            rooms: rooms_of(self.rooms@),
            player: self.player@,
            game_over: self.game_over,
            message: self.message@,
        }
    }
}

/// Writes the texts of the directions of `exits` to the end of `out`, each
/// after a space.
fn append_directions(out: &mut String, exits: &Vec<(Direction, String)>)
    ensures
        final(out)@ == old(out)@ + listing(direction_texts(exits_of(exits@)), " "@, ""@),
{
    let ghost texts = direction_texts(exits_of(exits@));
    let mut i: usize = 0;
    assert(texts.take(0) =~= Seq::empty());
    assert(out@ =~= old(out)@ + Seq::empty());
    while i < exits.len()
        invariant
            i <= exits.len(),
            texts == direction_texts(exits_of(exits@)),
            out@ == old(out)@ + listing(texts.take(i as int), " "@, ""@),
        decreases exits.len() - i,
    {
        proof {
            let next = texts.take(i + 1);
            assert(next.drop_last() =~= texts.take(i as int));
            assert(next.last() == exits@[i as int].0.text());
            reveal_strlit("");
        }
        out.append(" ");
        out.append(exits[i].0.to_string());
        assert(out@ =~= old(out)@ + listing(texts.take(i + 1), " "@, ""@));
        i += 1;
    }
    assert(texts.take(i as int) =~= texts);
}

/// What the player sees in `room`, with `message` at the end if there is
/// one.
pub fn describe(room: &Room, message: &str) -> (r: String)
    ensures
        r@ == look_text(room@, message@),
{
    let mut description = String::from_str("[ ");
    description.append(room.name.as_str());
    description.append(" ]\n\n");
    description.append(room.description.as_str());
    description.append("\n");
    let ghost head = description@;
    if !room.exits.is_empty() {
        description.append("\nExits:");
        append_directions(&mut description, &room.exits);
    }
    let ghost with_exits = description@;
    if !room.items.is_empty() {
        description.append("\n\nYou see:");
        append_each(&mut description, &room.items, "\n- ", "");
    }
    let ghost with_items = description@;
    if !message.is_empty() {
        description.append("\n\n");
        description.append(message);
    }
    proof {
        assert(with_exits =~= head + exits_part(room@));
        assert(with_items =~= with_exits + items_part(room@));
        assert(description@ =~= with_items + message_part(message@));
    }
    description
}

impl Game {
    /// A game at its start.
    pub fn new() -> (r: Game)
        ensures
            r@ == initial(),
            r@.wf(),
    {
        proof {
            lemma_initial();
        }
        let rooms = create_rooms();
        let player = Player::new(ENTRANCE_HALL);
        Game { rooms, player, game_over: false, message: String::new() }
    }

    /// Applies a command and answers it. Every wish that cannot be
    /// granted is answered with the text that says so, and changes
    /// nothing. A well-formed game stays well formed.
    pub fn process_command(&mut self, command: Command) -> (r: String)
        ensures
            final(self)@ == old(self)@.after(command@),
            r@ == old(self)@.answer(command@),
            old(self)@.wf() ==> final(self)@.wf(),
    {
        proof {
            if self@.wf() {
                lemma_after_wf(self@, command@);
            }
        }
        match command {
            Command::Go(direction) => self.handle_go(direction),
            Command::Take(item) => self.handle_take(item.as_str()),
            Command::Use(item) => self.handle_use(item.as_str()),
            Command::Inventory => self.player.display_inventory(),
            Command::Look => self.look_around(),
            Command::Help => self.display_help(),
            Command::Quit => {
                self.game_over = true;
                String::from_str(GOODBYE)
            },
            Command::Unknown(input) => {
                let mut answer = String::from_str("I don't understand '");
                answer.append(input.as_str());
                answer.append("'.\nType 'help' for a list of commands.");
                answer
            },
        }
    }

    /// Moves the player through the exit in `direction`, if the room has
    /// one, and shows the new room. Whether the exit leads to a room of
    /// the world is not asked: in a well-formed world it does.
    pub fn handle_go(&mut self, direction: Direction) -> (r: String)
        ensures
            final(self)@ == old(self)@.after(CommandView::Go(direction)),
            r@ == old(self)@.answer(CommandView::Go(direction)),
    {
        let here = find_room(&self.rooms, self.player.location.as_str());
        if here < self.rooms.len() {
            let p = find_exit(&self.rooms[here].exits, direction);
            if p < self.rooms[here].exits.len() {
                let target = self.rooms[here].exits[p].1.clone();
                assert(self@.rooms[here as int].exits[p as int].1 == target@);
                self.player.location = target;
                self.check_win_condition();
                self.look_around()
            } else {
                let mut answer = String::from_str("You can't go ");
                answer.append(direction.to_string());
                answer.append(" from here.");
                answer
            }
        } else {
            String::from_str(ROOM_NOT_FOUND)
        }
    }

    /// Takes the item that `item` names out of the room and into the
    /// inventory, under the name as the player wrote it.
    pub fn handle_take(&mut self, item: &str) -> (r: String)
        ensures
            final(self)@ == old(self)@.after(CommandView::Take(item@)),
            r@ == old(self)@.answer(CommandView::Take(item@)),
    {
        let here = find_room(&self.rooms, self.player.location.as_str());
        if here < self.rooms.len() {
            let found = self.rooms[here].remove_item(item);
            assert(rooms_of(self.rooms@) =~= old(self)@.rooms.update(
                here as int,
                old(self)@.here().without_item(item@),
            ));
            if found {
                self.player.take_item(item);
                let mut answer = String::from_str("You take the ");
                answer.append(item);
                answer.append(".");
                answer
            } else {
                assert(rooms_of(self.rooms@) =~= old(self)@.rooms);
                let mut answer = String::from_str("There is no ");
                answer.append(item);
                answer.append(" here.");
                answer
            }
        } else {
            String::from_str(ROOM_NOT_FOUND)
        }
    }

    /// Uses an item that the player carries in the room in which they
    /// stand. The item is known under its name in whatever case, and stays
    /// in the inventory. What an item does in a room is a table of its
    /// own: it does not ask which rooms are exits.
    pub fn handle_use(&mut self, item: &str) -> (r: String)
        ensures
            final(self)@ == old(self)@.after(CommandView::Use(item@)),
            r@ == old(self)@.answer(CommandView::Use(item@)),
    {
        if self.player.has_item(item) {
            let here = find_room(&self.rooms, self.player.location.as_str());
            if here < self.rooms.len() {
                let name = &self.rooms[here].name;
                if is_text(name, TEMPLE_EXIT) && eq_ignore_case(item, GOLDEN_IDOL) {
                    self.game_over = true;
                    String::from_str(ESCAPE)
                } else if is_text(name, ANCIENT_CRYPT) && eq_ignore_case(item, TORCH) {
                    String::from_str(TORCH_LIT)
                } else if is_text(name, ENTRANCE_HALL) && eq_ignore_case(item, ANCIENT_MAP) {
                    String::from_str(MAP_READ)
                } else if is_text(name, ANTECHAMBER) && eq_ignore_case(item, CEREMONIAL_DAGGER) {
                    String::from_str(DAGGER_PLACED)
                } else {
                    let mut answer = String::from_str("You can't use the ");
                    answer.append(item);
                    answer.append(" here.");
                    answer
                }
            } else {
                String::from_str(ROOM_NOT_FOUND)
            }
        } else {
            let mut answer = String::from_str("You don't have a ");
            answer.append(item);
            answer.append(".");
            answer
        }
    }

    /// Leaves the message of an arrival: at an exit that asks for an item,
    /// whether the player carries it. The game is not over by that.
    pub fn check_win_condition(&mut self)
        ensures
            final(self)@ == old(self)@.hinted(),
    {
        let here = find_room(&self.rooms, self.player.location.as_str());
        if here < self.rooms.len() {
            if self.rooms[here].is_exit {
                if let Some(required_item) = &self.rooms[here].required_item {
                    if self.player.has_item(required_item.as_str()) {
                        let mut message = String::from_str("You've reached the exit with the ");
                        message.append(required_item.as_str());
                        message.append("! Use the item to escape.");
                        self.message = message;
                    } else {
                        let mut message = String::from_str(
                            "This appears to be an exit, but it's blocked. You need a ",
                        );
                        message.append(required_item.as_str());
                        message.append(" to proceed.");
                        self.message = message;
                    }
                }
            }
        }
    }

    /// What the player sees of the room in which they stand. The message
    /// of the last arrival at an exit stays at its end until another
    /// arrival replaces it.
    pub fn look_around(&self) -> (r: String)
        ensures
            r@ == self@.look(),
    {
        let here = find_room(&self.rooms, self.player.location.as_str());
        if here < self.rooms.len() {
            describe(&self.rooms[here], self.message.as_str())
        } else {
            String::from_str(ROOM_NOT_FOUND)
        }
    }

    /// The list of commands.
    pub fn display_help(&self) -> (r: String)
        ensures
            r@ == HELP@,
    {
        String::from_str(HELP)
    }

    /// Whether the game is over.
    pub fn is_game_over(&self) -> (r: bool)
        ensures
            r == self@.game_over,
    {
        self.game_over
    }
}

} // verus!
