//! The world model: directions, rooms, and the fixed world of six rooms.

use vstd::prelude::*;
use vstd::string::*;
use crate::search::{first_true, lemma_first_true, lemma_first_true_is};
use crate::text::{find_name, first_match, has_name, is_text, lowercase, names, to_lower};

verus! {

/// One of the four ways out of a room.
#[derive(Debug, PartialEq, Eq, Hash, Clone, Copy, Structural)]
pub enum Direction {
    North,
    East,
    South,
    West,
}

impl Direction {
    /// The canonical lowercase word for the direction.
    pub open spec fn text(self) -> Seq<char> {
        match self {
            Direction::North => "north"@,
            Direction::East => "east"@,
            Direction::South => "south"@,
            Direction::West => "west"@,
        }
    }

    /// The direction that a lowercase word stands for, if it is one of the
    /// four canonical words.
    pub open spec fn named(word: Seq<char>) -> Option<Direction> {
        if word == "north"@ {
            Some(Direction::North)
        } else if word == "east"@ {
            Some(Direction::East)
        } else if word == "south"@ {
            Some(Direction::South)
        } else if word == "west"@ {
            Some(Direction::West)
        } else {
            None
        }
    }

    /// Reads a direction from a word, without regard to case.
    pub fn from_string(s: &str) -> (r: Option<Direction>)
        ensures
            r == Direction::named(lowercase(s@)),
    {
        let low = to_lower(s);
        if is_text(&low, "north") {
            Some(Direction::North)
        } else if is_text(&low, "east") {
            Some(Direction::East)
        } else if is_text(&low, "south") {
            Some(Direction::South)
        } else if is_text(&low, "west") {
            Some(Direction::West)
        } else {
            None
        }
    }

    /// The canonical lowercase word for the direction.
    pub fn to_string(&self) -> (r: &'static str)
        ensures
            r@ == self.text(),
    {
        match self {
            Direction::North => "north",
            Direction::East => "east",
            Direction::South => "south",
            Direction::West => "west",
        }
    }

    /// Every direction is read back from its own canonical word.
    pub proof fn lemma_named_text(d: Direction)
        ensures
            Direction::named(d.text()) == Some(d),
    {
        reveal_strlit("north");
        reveal_strlit("east");
        reveal_strlit("south");
        reveal_strlit("west");
        assert("north"@.len() == 5);
        assert("east"@.len() == 4);
        assert("south"@[0] == 's');
        assert("north"@[0] == 'n');
        assert("west"@[0] == 'w');
        assert("east"@[0] == 'e');
    }
}

/// A named place: its text, its ways out, what lies in it, and whether it
/// is a way out of the temple that asks for an item.
#[derive(Debug, Clone)]
pub struct Room {
    /// The name by which the room is found.
    pub name: String,
    /// The text shown to the player.
    pub description: String,
    /// The ways out, in the order in which they were added; no direction
    /// is added twice.
    pub exits: Vec<(Direction, String)>,
    /// What lies in the room, in the order in which it was put there.
    pub items: Vec<String>,
    /// Whether this room is a way out of the temple.
    pub is_exit: bool,
    /// The item that the way out asks for.
    pub required_item: Option<String>,
}

/// A room as plain values.
pub struct RoomView {
    pub name: Seq<char>,
    pub description: Seq<char>,
    pub exits: Seq<(Direction, Seq<char>)>,
    pub items: Seq<Seq<char>>,
    pub is_exit: bool,
    pub required_item: Option<Seq<char>>,
}

/// What a list of exits holds: each direction with its target's name.
pub open spec fn exits_of(v: Seq<(Direction, String)>) -> Seq<(Direction, Seq<char>)> {
    Seq::new(v.len(), |i: int| (v[i].0, v[i].1@))
}

/// What an optional owned text holds.
pub open spec fn optional_text(o: Option<String>) -> Option<Seq<char>> {
    match o {
        Some(s) => Some(s@),
        None => None,
    }
}

/// For each exit, whether it leads in direction `d`.
pub open spec fn direction_hits(exits: Seq<(Direction, Seq<char>)>, d: Direction) -> Seq<bool> {
    Seq::new(exits.len(), |i: int| exits[i].0 == d)
}

/// The index of the first exit in direction `d`, or the number of exits
/// where there is none.
pub open spec fn position(exits: Seq<(Direction, Seq<char>)>, d: Direction) -> int {
    first_true(direction_hits(exits, d))
}

impl View for Room {
    type V = RoomView;

    open spec fn view(&self) -> RoomView {
        RoomView {
            name: self.name@,
            description: self.description@,
            exits: exits_of(self.exits@),
            items: names(self.items@),
            is_exit: self.is_exit,
            required_item: optional_text(self.required_item),
        }
    }
}

impl RoomView {
    /// The name of the room that lies in direction `d`, if there is a way
    /// out in that direction.
    pub open spec fn target(self, d: Direction) -> Option<Seq<char>> {
        let p = position(self.exits, d);
        if p < self.exits.len() {
            Some(self.exits[p].1)
        } else {
            None
        }
    }

    /// The room with a way out in direction `d` to `target`: in place of
    /// the one it had in that direction, or after all others.
    pub open spec fn with_exit(self, d: Direction, target: Seq<char>) -> RoomView {
        let p = position(self.exits, d);
        RoomView {
            exits: if p < self.exits.len() {
                self.exits.update(p, (d, target))
            } else {
                self.exits.push((d, target))
            },
            ..self
        }
    }

    /// The room with one more item, after all others.
    pub open spec fn with_item(self, item: Seq<char>) -> RoomView {
        RoomView { items: self.items.push(item), ..self }
    }

    /// The room without the first item that `name` names; the room itself
    /// where `name` names none.
    pub open spec fn without_item(self, name: Seq<char>) -> RoomView {
        let p = first_match(self.items, name);
        if p < self.items.len() {
            RoomView { items: self.items.remove(p), ..self }
        } else {
            self
        }
    }

    /// The directions of the ways out, in the order of the exits.
    pub open spec fn directions(self) -> Seq<Direction> {
        Seq::new(self.exits.len(), |i: int| self.exits[i].0)
    }

    /// No two exits lead in the same direction.
    pub open spec fn distinct_exits(self) -> bool {
        forall|i: int, j: int|
            0 <= i < j < self.exits.len() ==> (#[trigger] self.exits[i]).0 != (
            #[trigger] self.exits[j]).0
    }
}

/// Finds the first exit in direction `d`.
pub fn find_exit(exits: &Vec<(Direction, String)>, d: Direction) -> (r: usize)
    ensures
        r == position(exits_of(exits@), d),
        r <= exits.len(),
{
    let mut i: usize = 0;
    while i < exits.len()
        invariant
            i <= exits.len(),
            forall|j: int| 0 <= j < i ==> !#[trigger] direction_hits(exits_of(exits@), d)[j],
        decreases exits.len() - i,
    {
        if exits[i].0 == d {
            proof {
                lemma_first_true_is(direction_hits(exits_of(exits@), d), i as int);
            }
            return i;
        }
        i += 1;
    }
    proof {
        lemma_first_true_is(direction_hits(exits_of(exits@), d), i as int);
    }
    i
}

impl Room {
    /// A room without exits and without items.
    pub fn new(name: &str, description: &str, is_exit: bool, required_item: Option<String>) -> (r:
        Room)
        ensures
            r@ == (RoomView {
                name: name@,
                description: description@,
                exits: Seq::empty(),
                items: Seq::empty(),
                is_exit,
                required_item: optional_text(required_item),
            }),
    {
        let r = Room {
            name: String::from_str(name),
            description: String::from_str(description),
            exits: Vec::new(),
            items: Vec::new(),
            is_exit,
            required_item,
        };
        assert(r@.exits =~= Seq::empty());
        assert(r@.items =~= Seq::empty());
        r
    }

    /// Records a way out in `direction` to the room named `target_room`. A
    /// way out that the room already had in that direction is replaced.
    /// Whether a room of that name exists is not asked here.
    pub fn add_exit(&mut self, direction: Direction, target_room: &str)
        ensures
            final(self)@ == old(self)@.with_exit(direction, target_room@),
            old(self)@.distinct_exits() ==> final(self)@.distinct_exits(),
    {
        proof {
            if self@.distinct_exits() {
                lemma_with_exit_distinct(self@, direction, target_room@);
            }
        }
        let p = find_exit(&self.exits, direction);
        let target = String::from_str(target_room);
        if p < self.exits.len() {
            self.exits[p] = (direction, target);
            assert(self@.exits =~= old(self)@.exits.update(p as int, (direction, target_room@)));
        } else {
            self.exits.push((direction, target));
            assert(self@.exits =~= old(self)@.exits.push((direction, target_room@)));
        }
    }

    /// Puts an item into the room, after those that lie there. The same
    /// name may lie there more than once.
    pub fn add_item(&mut self, item: &str)
        ensures
            final(self)@ == old(self)@.with_item(item@),
    {
        self.items.push(String::from_str(item));
        assert(self@.items =~= old(self)@.items.push(item@));
    }

    /// Takes out of the room the first item that `item` names, without
    /// regard to case, and says whether there was one.
    pub fn remove_item(&mut self, item: &str) -> (found: bool)
        ensures
            found == has_name(old(self)@.items, item@),
            final(self)@ == old(self)@.without_item(item@),
    {
        let p = find_name(&self.items, item);
        if p < self.items.len() {
            self.items.remove(p);
            assert(self@.items =~= old(self)@.items.remove(p as int));
            true
        } else {
            false
        }
    }

    /// The directions of the ways out, in the order of the exits.
    pub fn available_exits(&self) -> (r: Vec<&Direction>)
        ensures
            r@.len() == self@.exits.len(),
            forall|i: int| 0 <= i < r@.len() ==> *#[trigger] r@[i] == self@.directions()[i],
    {
        let mut out: Vec<&Direction> = Vec::new();
        let mut i: usize = 0;
        while i < self.exits.len()
            invariant
                i <= self.exits.len(),
                out@.len() == i,
                forall|j: int| 0 <= j < i ==> *#[trigger] out@[j] == self@.directions()[j],
            decreases self.exits.len() - i,
        {
            out.push(&self.exits[i].0);
            i += 1;
        }
        out
    }

    /// The items that lie in the room, in their order.
    pub fn available_items(&self) -> (r: &Vec<String>)
        ensures
            *r == self.items,
    {
        &self.items
    }
}

/// In a room with no way out in direction `d`, a new exit in that
/// direction comes after all others.
pub proof fn lemma_with_exit_fresh(room: RoomView, d: Direction, target: Seq<char>)
    requires
        forall|i: int| 0 <= i < room.exits.len() ==> (#[trigger] room.exits[i]).0 != d,
    ensures
        room.with_exit(d, target).exits == room.exits.push((d, target)),
{
    let hits = direction_hits(room.exits, d);
    assert forall|j: int| 0 <= j < hits.len() implies !#[trigger] hits[j] by {
        assert(room.exits[j].0 != d);
    }
    lemma_first_true_is(hits, hits.len() as int);
}

/// A room's exits are a map from directions to names: after a way out was
/// recorded, that direction leads to the new target and every other
/// direction leads where it led.
pub proof fn lemma_with_exit_target(
    room: RoomView,
    d: Direction,
    target: Seq<char>,
    other: Direction,
)
    ensures
        room.with_exit(d, target).target(other) == if other == d {
            Some(target)
        } else {
            room.target(other)
        },
{
    let old_hits = direction_hits(room.exits, other);
    let new_exits = room.with_exit(d, target).exits;
    let new_hits = direction_hits(new_exits, other);
    let p = position(room.exits, d);
    let q = position(room.exits, other);
    lemma_first_true(direction_hits(room.exits, d));
    lemma_first_true(old_hits);
    if p < room.exits.len() {
        assert(direction_hits(room.exits, d)[p]);
        assert(new_hits =~= old_hits);
    } else {
        assert forall|j: int| 0 <= j < q implies !#[trigger] new_hits[j] by {
            assert(!old_hits[j]);
        }
        if other == d {
            lemma_first_true_is(new_hits, q);
        } else if q < room.exits.len() {
            assert(old_hits[q]);
            lemma_first_true_is(new_hits, q);
        } else {
            lemma_first_true_is(new_hits, q + 1);
        }
    }
}

/// A room in which no two exits lead in the same direction stays so when
/// a way out is recorded.
pub proof fn lemma_with_exit_distinct(room: RoomView, d: Direction, target: Seq<char>)
    requires
        room.distinct_exits(),
    ensures
        room.with_exit(d, target).distinct_exits(),
{
    let hits = direction_hits(room.exits, d);
    let new_exits = room.with_exit(d, target).exits;
    let p = position(room.exits, d);
    lemma_first_true(hits);
    assert forall|i: int, j: int| 0 <= i < j < new_exits.len() implies (#[trigger] new_exits[i]).0
        != (#[trigger] new_exits[j]).0 by {
        if p < room.exits.len() {
            assert(hits[p]);
            assert(new_exits[i].0 == room.exits[i].0);
            assert(new_exits[j].0 == room.exits[j].0);
        } else if j < room.exits.len() {
            assert(new_exits[i] == room.exits[i]);
            assert(new_exits[j] == room.exits[j]);
        } else {
            assert(!hits[i]);
            assert(new_exits[i] == room.exits[i]);
        }
    }
}

/// The names of the six rooms.
pub const ENTRANCE_HALL: &'static str = "Entrance Hall";

pub const ANTECHAMBER: &'static str = "Ceremonial Antechamber";

pub const TREASURE_ROOM: &'static str = "Treasure Room";

pub const GUARDIAN_CHAMBER: &'static str = "Guardian Chamber";

pub const ANCIENT_CRYPT: &'static str = "Ancient Crypt";

pub const TEMPLE_EXIT: &'static str = "Temple Exit";

/// The names of the four items.
pub const GOLDEN_IDOL: &'static str = "golden idol";

pub const TORCH: &'static str = "torch";

pub const ANCIENT_MAP: &'static str = "ancient map";

pub const CEREMONIAL_DAGGER: &'static str = "ceremonial dagger";

/// The texts of the six rooms.
pub const ENTRANCE_HALL_TEXT: &'static str =
    "You stand in the grand entrance hall of the forgotten temple. \
     Ancient symbols cover the walls, and dust particles dance in the beams of light \
     from cracks in the ceiling. The air is thick with the scent of ages past.";

pub const ANTECHAMBER_TEXT: &'static str =
    "This room seems to have been used for pre-ritual preparations. \
     Stone benches line the walls, and faded murals depict priests donning ceremonial garb. \
     A stone altar stands in the center, its surface stained dark from ancient offerings.";

pub const TREASURE_ROOM_TEXT: &'static str =
    "Glinting gold and artifacts fill this small chamber. \
     Ceremonial masks, jeweled daggers, and strange artifacts cover every surface. \
     Despite the wealth displayed here, an ornate stone pedestal in the center stands empty, \
     with a small inscription that reads 'Place the sacred idol to reveal the path.'";

pub const GUARDIAN_CHAMBER_TEXT: &'static str =
    "This circular chamber is dominated by a massive stone statue of a seated deity with many arms. \
     Its hollow eyes seem to follow your movement. At its feet lies a small golden idol, \
     gleaming despite the layer of dust covering it.";

pub const ANCIENT_CRYPT_TEXT: &'static str =
    "The air is stale in this dark crypt. Stone sarcophagi line the walls, \
     their carved lids depicting the deceased in repose. \
     A faded tapestry on the far wall shows a map of the stars.";

pub const TEMPLE_EXIT_TEXT: &'static str =
    "Sunlight streams through a crack in the stone wall, illuminating a narrow passage. \
     This appears to be an exit from the temple, but heavy stone doors block the way. \
     There's a keyhole shaped like an idol in the center of the doors.";

/// The entrance hall: north to the antechamber, east to the crypt; the map
/// lies here.
pub open spec fn entrance_hall() -> RoomView {
    RoomView {
        name: ENTRANCE_HALL@,
        description: ENTRANCE_HALL_TEXT@,
        exits: seq![(Direction::North, ANTECHAMBER@), (Direction::East, ANCIENT_CRYPT@)],
        items: seq![ANCIENT_MAP@],
        is_exit: false,
        required_item: None,
    }
}

/// The antechamber: south to the entrance hall, east to the treasure room,
/// west to the guardian chamber; the dagger lies here.
pub open spec fn antechamber() -> RoomView {
    RoomView {
        name: ANTECHAMBER@,
        description: ANTECHAMBER_TEXT@,
        exits: seq![
            (Direction::South, ENTRANCE_HALL@),
            (Direction::East, TREASURE_ROOM@),
            (Direction::West, GUARDIAN_CHAMBER@),
        ],
        items: seq![CEREMONIAL_DAGGER@],
        is_exit: false,
        required_item: None,
    }
}

/// The treasure room: west to the antechamber, north to the temple exit.
pub open spec fn treasure_room() -> RoomView {
    RoomView {
        name: TREASURE_ROOM@,
        description: TREASURE_ROOM_TEXT@,
        exits: seq![(Direction::West, ANTECHAMBER@), (Direction::North, TEMPLE_EXIT@)],
        items: Seq::empty(),
        is_exit: false,
        required_item: None,
    }
}

/// The guardian chamber: east to the antechamber; the idol lies here.
pub open spec fn guardian_chamber() -> RoomView {
    RoomView {
        name: GUARDIAN_CHAMBER@,
        description: GUARDIAN_CHAMBER_TEXT@,
        exits: seq![(Direction::East, ANTECHAMBER@)],
        items: seq![GOLDEN_IDOL@],
        is_exit: false,
        required_item: None,
    }
}

/// The crypt: west to the entrance hall; the torch lies here.
pub open spec fn ancient_crypt() -> RoomView {
    RoomView {
        name: ANCIENT_CRYPT@,
        description: ANCIENT_CRYPT_TEXT@,
        exits: seq![(Direction::West, ENTRANCE_HALL@)],
        items: seq![TORCH@],
        is_exit: false,
        required_item: None,
    }
}

/// The temple exit: south to the treasure room; the way out, which asks
/// for the idol.
pub open spec fn temple_exit() -> RoomView {
    RoomView {
        name: TEMPLE_EXIT@,
        description: TEMPLE_EXIT_TEXT@,
        exits: seq![(Direction::South, TREASURE_ROOM@)],
        items: Seq::empty(),
        is_exit: true,
        required_item: Some(GOLDEN_IDOL@),
    }
}

/// The world of the game: its six rooms, in the order in which they are
/// built.
pub open spec fn temple() -> Seq<RoomView> {
    seq![
        entrance_hall(),
        antechamber(),
        treasure_room(),
        guardian_chamber(),
        ancient_crypt(),
        temple_exit(),
    ]
}

/// What a list of rooms holds, room by room.
pub open spec fn rooms_of(v: Seq<Room>) -> Seq<RoomView> {
    Seq::new(v.len(), |i: int| v[i]@)
}

/// Builds the world: the same six rooms on every call.
pub fn create_rooms() -> (rooms: Vec<Room>)
    ensures
        rooms_of(rooms@) == temple(),
        well_formed(rooms_of(rooms@)),
{
    proof {
        lemma_temple_well_formed();
    }
    let mut entrance = Room::new(ENTRANCE_HALL, ENTRANCE_HALL_TEXT, false, None);
    let mut antechamber = Room::new(ANTECHAMBER, ANTECHAMBER_TEXT, false, None);
    let mut treasure_room = Room::new(TREASURE_ROOM, TREASURE_ROOM_TEXT, false, None);
    let mut idol_chamber = Room::new(GUARDIAN_CHAMBER, GUARDIAN_CHAMBER_TEXT, false, None);
    let mut crypt = Room::new(ANCIENT_CRYPT, ANCIENT_CRYPT_TEXT, false, None);
    let mut temple_exit = Room::new(
        TEMPLE_EXIT,
        TEMPLE_EXIT_TEXT,
        true,
        Some(String::from_str(GOLDEN_IDOL)),
    );

    proof {
        lemma_with_exit_fresh(entrance@, Direction::North, ANTECHAMBER@);
    }
    entrance.add_exit(Direction::North, ANTECHAMBER);
    proof {
        lemma_with_exit_fresh(entrance@, Direction::East, ANCIENT_CRYPT@);
    }
    entrance.add_exit(Direction::East, ANCIENT_CRYPT);

    proof {
        lemma_with_exit_fresh(antechamber@, Direction::South, ENTRANCE_HALL@);
    }
    antechamber.add_exit(Direction::South, ENTRANCE_HALL);
    proof {
        lemma_with_exit_fresh(antechamber@, Direction::East, TREASURE_ROOM@);
    }
    antechamber.add_exit(Direction::East, TREASURE_ROOM);
    proof {
        lemma_with_exit_fresh(antechamber@, Direction::West, GUARDIAN_CHAMBER@);
    }
    antechamber.add_exit(Direction::West, GUARDIAN_CHAMBER);

    proof {
        lemma_with_exit_fresh(treasure_room@, Direction::West, ANTECHAMBER@);
    }
    treasure_room.add_exit(Direction::West, ANTECHAMBER);
    proof {
        lemma_with_exit_fresh(treasure_room@, Direction::North, TEMPLE_EXIT@);
    }
    treasure_room.add_exit(Direction::North, TEMPLE_EXIT);

    proof {
        lemma_with_exit_fresh(idol_chamber@, Direction::East, ANTECHAMBER@);
    }
    idol_chamber.add_exit(Direction::East, ANTECHAMBER);

    proof {
        lemma_with_exit_fresh(crypt@, Direction::West, ENTRANCE_HALL@);
    }
    crypt.add_exit(Direction::West, ENTRANCE_HALL);

    proof {
        lemma_with_exit_fresh(temple_exit@, Direction::South, TREASURE_ROOM@);
    }
    temple_exit.add_exit(Direction::South, TREASURE_ROOM);

    idol_chamber.add_item(GOLDEN_IDOL);
    crypt.add_item(TORCH);
    entrance.add_item(ANCIENT_MAP);
    antechamber.add_item(CEREMONIAL_DAGGER);

    proof {
        assert(entrance@.exits =~= entrance_hall().exits);
        assert(entrance@.items =~= entrance_hall().items);
        assert(antechamber@.exits =~= self::antechamber().exits);
        assert(antechamber@.items =~= self::antechamber().items);
        assert(treasure_room@.exits =~= self::treasure_room().exits);
        assert(idol_chamber@.exits =~= guardian_chamber().exits);
        assert(idol_chamber@.items =~= guardian_chamber().items);
        assert(crypt@.exits =~= ancient_crypt().exits);
        assert(crypt@.items =~= ancient_crypt().items);
        assert(temple_exit@.exits =~= self::temple_exit().exits);
    }

    let mut rooms: Vec<Room> = Vec::new();
    rooms.push(entrance);
    rooms.push(antechamber);
    rooms.push(treasure_room);
    rooms.push(idol_chamber);
    rooms.push(crypt);
    rooms.push(temple_exit);
    assert(rooms_of(rooms@) =~= temple());
    rooms
}

/// For each room, whether `name` is its name, character for character.
pub open spec fn room_hits(rooms: Seq<RoomView>, name: Seq<char>) -> Seq<bool> {
    Seq::new(rooms.len(), |i: int| rooms[i].name == name)
}

/// The index of the first room named `name`, or the number of rooms where
/// there is none.
pub open spec fn room_index(rooms: Seq<RoomView>, name: Seq<char>) -> int {
    first_true(room_hits(rooms, name))
}

/// Whether a room is named `name`.
pub open spec fn has_room(rooms: Seq<RoomView>, name: Seq<char>) -> bool {
    room_index(rooms, name) < rooms.len()
}

/// No two rooms have the same name.
pub open spec fn distinct_names(rooms: Seq<RoomView>) -> bool {
    forall|i: int, j: int|
        0 <= i < j < rooms.len() ==> (#[trigger] rooms[i]).name != (#[trigger] rooms[j]).name
}

/// Every exit of every room leads to a room of the world.
pub open spec fn closed(rooms: Seq<RoomView>) -> bool {
    forall|i: int, k: int|
        0 <= i < rooms.len() && 0 <= k < rooms[i].exits.len() ==> has_room(
            rooms,
            (#[trigger] rooms[i].exits[k]).1,
        )
}

/// A world in which a player can move: its rooms are found by their names,
/// no room has two exits in one direction, and no exit leads nowhere.
pub open spec fn well_formed(rooms: Seq<RoomView>) -> bool {
    &&& distinct_names(rooms)
    &&& closed(rooms)
    &&& forall|i: int| 0 <= i < rooms.len() ==> (#[trigger] rooms[i]).distinct_exits()
}

/// Finds the first room named `name`.
pub fn find_room(rooms: &Vec<Room>, name: &str) -> (r: usize)
    ensures
        r == room_index(rooms_of(rooms@), name@),
        r <= rooms.len(),
{
    let mut i: usize = 0;
    while i < rooms.len()
        invariant
            i <= rooms.len(),
            forall|j: int| 0 <= j < i ==> !#[trigger] room_hits(rooms_of(rooms@), name@)[j],
        decreases rooms.len() - i,
    {
        if is_text(&rooms[i].name, name) {
            proof {
                lemma_first_true_is(room_hits(rooms_of(rooms@), name@), i as int);
            }
            return i;
        }
        i += 1;
    }
    proof {
        lemma_first_true_is(room_hits(rooms_of(rooms@), name@), i as int);
    }
    i
}

/// A room is found under its own name, at its own index where the names
/// are distinct.
pub proof fn lemma_room_found(rooms: Seq<RoomView>, i: int)
    requires
        0 <= i < rooms.len(),
    ensures
        has_room(rooms, rooms[i].name),
        distinct_names(rooms) ==> room_index(rooms, rooms[i].name) == i,
{
    let hits = room_hits(rooms, rooms[i].name);
    lemma_first_true(hits);
    assert(hits[i]);
    if distinct_names(rooms) {
        let p = first_true(hits);
        if p < i {
            assert(hits[p]);
            assert(rooms[p].name != rooms[i].name);
        }
    }
}

/// The six names of the rooms differ from one another.
pub proof fn lemma_room_names_differ()
    ensures
        distinct_names(temple()),
{
    reveal_strlit("Entrance Hall");
    reveal_strlit("Ceremonial Antechamber");
    reveal_strlit("Treasure Room");
    reveal_strlit("Guardian Chamber");
    reveal_strlit("Ancient Crypt");
    reveal_strlit("Temple Exit");
    let rooms = temple();
    assert(rooms[0].name.len() == 13 && rooms[0].name[0] == 'E');
    assert(rooms[1].name.len() == 22);
    assert(rooms[2].name.len() == 13 && rooms[2].name[0] == 'T');
    assert(rooms[3].name.len() == 16);
    assert(rooms[4].name.len() == 13 && rooms[4].name[0] == 'A');
    assert(rooms[5].name.len() == 11);
}

/// The world of the game is well formed.
pub proof fn lemma_temple_well_formed()
    ensures
        well_formed(temple()),
{
    lemma_room_names_differ();
    let rooms = temple();
    lemma_room_found(rooms, 0);
    lemma_room_found(rooms, 1);
    lemma_room_found(rooms, 2);
    lemma_room_found(rooms, 3);
    lemma_room_found(rooms, 4);
    lemma_room_found(rooms, 5);
    assert forall|i: int, k: int|
        0 <= i < rooms.len() && 0 <= k < rooms[i].exits.len() implies has_room(
        rooms,
        (#[trigger] rooms[i].exits[k]).1,
    ) by {
        if i == 0 {
            assert(k == 0 || k == 1);
        } else if i == 1 {
            assert(k == 0 || k == 1 || k == 2);
        } else if i == 2 {
            assert(k == 0 || k == 1);
        } else {
            assert(k == 0);
        }
    }
    assert forall|i: int| 0 <= i < rooms.len() implies (#[trigger] rooms[i]).distinct_exits() by {
        assert(i == 0 || i == 1 || i == 2 || i == 3 || i == 4 || i == 5);
    }
}

/// A world stays well formed, and its rooms stay where they are found,
/// when one room is replaced by itself with other items.
pub proof fn lemma_update_items(rooms: Seq<RoomView>, i: int, room: RoomView)
    requires
        0 <= i < rooms.len(),
        room == (RoomView { items: room.items, ..rooms[i] }),
    ensures
        well_formed(rooms) ==> well_formed(rooms.update(i, room)),
        forall|name: Seq<char>| #[trigger]
            room_index(rooms.update(i, room), name) == room_index(rooms, name),
{
    let new_rooms = rooms.update(i, room);
    assert forall|name: Seq<char>| #[trigger]
        room_index(new_rooms, name) == room_index(rooms, name) by {
        assert(room_hits(new_rooms, name) =~= room_hits(rooms, name));
    }
    if well_formed(rooms) {
        assert forall|a: int, k: int|
            0 <= a < new_rooms.len() && 0 <= k < new_rooms[a].exits.len() implies has_room(
            new_rooms,
            (#[trigger] new_rooms[a].exits[k]).1,
        ) by {
            assert(new_rooms[a].exits == rooms[a].exits);
            assert(has_room(rooms, rooms[a].exits[k].1));
        }
        assert forall|a: int| 0 <= a < new_rooms.len() implies (
        #[trigger] new_rooms[a]).distinct_exits() by {
            assert(rooms[a].distinct_exits());
            assert(new_rooms[a].exits == rooms[a].exits);
        }
        assert forall|a: int, b: int| 0 <= a < b < new_rooms.len() implies (
        #[trigger] new_rooms[a]).name != (#[trigger] new_rooms[b]).name by {
            assert(rooms[a].name != rooms[b].name);
        }
    }
}

} // verus!
