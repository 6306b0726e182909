//! What holds of every game: the laws of the engine, proved once over the
//! plain values of a game.

use vstd::prelude::*;
use crate::game::{
    exits_part, initial, items_part, look_text, message_part, no_way_text, not_carried_text,
    not_here_text, taken_text, wins, GameView, ESCAPE, HELP,
};
use crate::input::CommandView;
use crate::room::{
    direction_hits, has_room, lemma_room_found, lemma_temple_well_formed, lemma_update_items,
    position, room_hits, room_index, temple, Direction, RoomView, ENTRANCE_HALL, GOLDEN_IDOL,
    TEMPLE_EXIT,
};
use crate::search::lemma_first_true;
use crate::text::{
    contains, first_match, has_name, lemma_contains_longer, lemma_contains_middle, name_hits,
    same_name,
};

verus! {

/// A game at its start is well formed: the player stands in the entrance
/// hall, carries nothing, and the game is not over.
pub proof fn lemma_initial()
    ensures
        initial().wf(),
        initial().player.location == ENTRANCE_HALL@,
        initial().player.inventory.len() == 0,
        !initial().game_over,
        initial().here() == temple()[0],
{
    lemma_temple_well_formed();
    lemma_room_found(temple(), 0);
}

/// The name of a room stands in what the player sees of it.
pub proof fn lemma_look_names_room(room: RoomView, message: Seq<char>)
    ensures
        contains(look_text(room, message), room.name),
{
    let named = "[ "@ + room.name + " ]\n\n"@;
    lemma_contains_middle("[ "@, room.name, " ]\n\n"@);
    lemma_contains_longer(named, room.name, room.description);
    lemma_contains_longer(named + room.description, room.name, "\n"@);
    lemma_contains_longer(named + room.description + "\n"@, room.name, exits_part(room));
    lemma_contains_longer(
        named + room.description + "\n"@ + exits_part(room),
        room.name,
        items_part(room),
    );
    lemma_contains_longer(
        named + room.description + "\n"@ + exits_part(room) + items_part(room),
        room.name,
        message_part(message),
    );
}

/// In a well-formed world, the room found under the name of an exit's
/// target has that name.
pub proof fn lemma_target_found(g: GameView, d: Direction)
    requires
        g.wf(),
        g.here().target(d) is Some,
    ensures
        has_room(g.rooms, g.here().target(d)->0),
        g.rooms[room_index(g.rooms, g.here().target(d)->0)].name == g.here().target(d)->0,
{
    let target = g.here().target(d)->0;
    lemma_first_true(room_hits(g.rooms, g.player.location));
    let i = g.current();
    lemma_first_true(direction_hits(g.here().exits, d));
    let p = position(g.here().exits, d);
    assert(g.rooms[i].exits[p].1 == target);
    lemma_first_true(room_hits(g.rooms, target));
    assert(room_hits(g.rooms, target)[room_index(g.rooms, target)]);
}

/// A well-formed game stays well formed after every command.
pub proof fn lemma_after_wf(g: GameView, command: CommandView)
    requires
        g.wf(),
    ensures
        g.after(command).wf(),
{
    match command {
        CommandView::Go(d) => {
            if g.here().target(d) is Some {
                lemma_target_found(g, d);
            }
        },
        CommandView::Take(item) => {
            if has_name(g.here().items, item) {
                lemma_first_true(room_hits(g.rooms, g.player.location));
                lemma_update_items(g.rooms, g.current(), g.here().without_item(item));
            }
        },
        _ => {},
    }
}

/// Where the room has no exit in a direction, going there changes nothing
/// and is answered with the text that says so.
pub proof fn lemma_go_without_exit(g: GameView, d: Direction)
    requires
        g.placed(),
        g.here().target(d) is None,
    ensures
        g.after(CommandView::Go(d)) == g,
        g.answer(CommandView::Go(d)) == no_way_text(d),
{
}

/// Where the room has an exit in a direction and the exit names a room
/// of the world, going there puts the player in that room and nowhere
/// else, changes neither the rooms nor the inventory nor whether the game
/// is over, and is answered with what the player sees there after the
/// move: a text in which the name of that room stands.
pub proof fn lemma_go_to_room(g: GameView, d: Direction)
    requires
        g.placed(),
        g.here().target(d) is Some,
        has_room(g.rooms, g.here().target(d)->0),
    ensures
        g.after(CommandView::Go(d)).player.location == g.here().target(d)->0,
        g.after(CommandView::Go(d)).player.inventory == g.player.inventory,
        g.after(CommandView::Go(d)).rooms == g.rooms,
        g.after(CommandView::Go(d)).game_over == g.game_over,
        g.after(CommandView::Go(d)).placed(),
        g.after(CommandView::Go(d)).here().name == g.here().target(d)->0,
        g.answer(CommandView::Go(d)) == g.after(CommandView::Go(d)).look(),
        g.answer(CommandView::Go(d)) == look_text(
            g.after(CommandView::Go(d)).here(),
            g.after(CommandView::Go(d)).message,
        ),
        contains(g.answer(CommandView::Go(d)), g.here().target(d)->0),
{
    let target = g.here().target(d)->0;
    let moved = g.after(CommandView::Go(d));
    lemma_first_true(room_hits(g.rooms, target));
    assert(room_hits(g.rooms, target)[room_index(g.rooms, target)]);
    lemma_look_names_room(moved.here(), moved.message);
}

/// In a well-formed game every exit names a room of the world: going
/// through an exit puts the player in the room that it names, and the
/// answer is what the player sees there.
pub proof fn lemma_go_through_exit(g: GameView, d: Direction)
    requires
        g.wf(),
        g.here().target(d) is Some,
    ensures
        g.after(CommandView::Go(d)).player.location == g.here().target(d)->0,
        g.after(CommandView::Go(d)).player.inventory == g.player.inventory,
        g.after(CommandView::Go(d)).rooms == g.rooms,
        g.after(CommandView::Go(d)).game_over == g.game_over,
        g.after(CommandView::Go(d)).here().name == g.here().target(d)->0,
        g.answer(CommandView::Go(d)) == g.after(CommandView::Go(d)).look(),
        contains(g.answer(CommandView::Go(d)), g.here().target(d)->0),
{
    lemma_target_found(g, d);
    lemma_go_to_room(g, d);
}

/// Taking what lies in the room takes exactly one item out of it, the
/// first that the name names without regard to case; every other item
/// stays in its order, every other room stays as it is, and the name as
/// the player wrote it is the new last item of the inventory.
pub proof fn lemma_take_present(g: GameView, item: Seq<char>)
    requires
        g.placed(),
        has_name(g.here().items, item),
    ensures
        ({
            let p = first_match(g.here().items, item);
            let then = g.after(CommandView::Take(item));
            &&& 0 <= p < g.here().items.len()
            &&& same_name(g.here().items[p], item)
            &&& forall|j: int| 0 <= j < p ==> !same_name(#[trigger] g.here().items[j], item)
            &&& then.current() == g.current()
            &&& then.here().items == g.here().items.remove(p)
            &&& then.here().items.len() == g.here().items.len() - 1
            &&& then.rooms.len() == g.rooms.len()
            &&& forall|i: int|
                0 <= i < g.rooms.len() && i != g.current() ==> #[trigger] then.rooms[i]
                    == g.rooms[i]
            &&& then.player.inventory == g.player.inventory.push(item)
            &&& then.player.location == g.player.location
            &&& then.game_over == g.game_over
            &&& then.message == g.message
            &&& g.answer(CommandView::Take(item)) == taken_text(item)
        }),
{
    let hits = name_hits(g.here().items, item);
    lemma_first_true(hits);
    let p = first_match(g.here().items, item);
    assert(hits[p]);
    assert forall|j: int| 0 <= j < p implies !same_name(#[trigger] g.here().items[j], item) by {
        assert(!hits[j]);
    }
    lemma_first_true(room_hits(g.rooms, g.player.location));
    lemma_update_items(g.rooms, g.current(), g.here().without_item(item));
}

/// Taking what does not lie in the room changes nothing, wherever else it
/// may lie, and is answered with the text that says so.
pub proof fn lemma_take_absent(g: GameView, item: Seq<char>)
    requires
        !has_name(g.here().items, item),
    ensures
        g.after(CommandView::Take(item)) == g,
        g.placed() ==> g.answer(CommandView::Take(item)) == not_here_text(item),
{
}

/// Using what the player does not carry changes nothing and is answered
/// with the text that says so, in whatever room.
pub proof fn lemma_use_not_carried(g: GameView, item: Seq<char>)
    requires
        !has_name(g.player.inventory, item),
    ensures
        g.after(CommandView::Use(item)) == g,
        g.answer(CommandView::Use(item)) == not_carried_text(item),
{
}

/// The idol opens the temple exit under whatever letters the player writes
/// its name: whoever carries it there and uses it has left the temple.
pub proof fn lemma_use_idol_at_exit(g: GameView, item: Seq<char>)
    requires
        g.placed(),
        g.here().name == TEMPLE_EXIT@,
        has_name(g.player.inventory, item),
        same_name(item, GOLDEN_IDOL@),
    ensures
        g.after(CommandView::Use(item)).game_over,
        g.answer(CommandView::Use(item)) == ESCAPE@,
{
}

/// Using an item never takes it out of the inventory, and moves neither
/// the player nor anything in the rooms.
pub proof fn lemma_use_keeps(g: GameView, item: Seq<char>)
    ensures
        g.after(CommandView::Use(item)).player == g.player,
        g.after(CommandView::Use(item)).rooms == g.rooms,
        g.after(CommandView::Use(item)).message == g.message,
{
}

/// Asking for help changes nothing. Leaving the game ends it, whatever
/// its state, and changes nothing else.
pub proof fn lemma_help_and_quit(g: GameView)
    ensures
        g.after(CommandView::Help) == g,
        g.answer(CommandView::Help) == HELP@,
        g.after(CommandView::Quit) == (GameView { game_over: true, ..g }),
        g.after(CommandView::Quit).player == g.player,
        g.after(CommandView::Quit).game_over,
{
}

/// Looking around changes nothing: whoever looks twice sees the same
/// text twice. The same holds of the inventory.
pub proof fn lemma_look_twice(g: GameView)
    ensures
        g.after(CommandView::Look) == g,
        g.after(CommandView::Look).look() == g.look(),
        g.after(CommandView::Look).answer(CommandView::Look) == g.answer(CommandView::Look),
        g.after(CommandView::Inventory) == g,
{
}

/// The game is over after a command only if it was over before, if the
/// command was to leave, or if the player used the item that opens the
/// temple exit there while carrying it.
pub proof fn lemma_game_over(g: GameView, command: CommandView)
    ensures
        g.after(command).game_over <==> g.game_over || command is Quit || (command is Use
            && has_name(g.player.inventory, command->Use_0) && g.placed() && wins(
            g.here().name,
            command->Use_0,
        )),
{
}

} // verus!
