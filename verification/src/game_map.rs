use vstd::prelude::*;
use crate::direction::{Direction, NUM_DIRECTIONS};
use crate::map::MapRoomId;
use crate::monsters::MonsterId;
use crate::platform::Randomness;
use crate::sized_enum::SizedEnum;

verus! {

/// How many rooms the castle has.
pub const NUM_ROOMS: usize = 19;

/// The smallest treasure hoard a room can hold.
pub const MIN_TREASURE_AMOUNT: i32 = 10;

/// The bound above every treasure hoard.
pub const MAX_TREASURE_AMOUNT: i32 = 110;

/// The rooms of the castle.
#[derive(Debug, Copy, Clone, PartialEq, Eq, Structural)]
pub enum RoomId {
    Hallway,
    AudienceChamber,
    GreatHall,
    PrivateMeeting,
    InnerHallway,
    Entrance,
    Kitchen,
    StoreRoom,
    Lift,
    RearVestibule,
    Exit,
    Dungeon,
    Guardroom,
    MasterBedroom,
    UpperHallway,
    Treasury,
    ChambermaidsBedroom,
    DressingChamber,
    SmallRoom,
}

impl RoomId {
    /// The position of this room in the map's room table.
    pub open spec fn index_spec(self) -> int {
        match self {
            RoomId::Hallway => 0,
            RoomId::AudienceChamber => 1,
            RoomId::GreatHall => 2,
            RoomId::PrivateMeeting => 3,
            RoomId::InnerHallway => 4,
            RoomId::Entrance => 5,
            RoomId::Kitchen => 6,
            RoomId::StoreRoom => 7,
            RoomId::Lift => 8,
            RoomId::RearVestibule => 9,
            RoomId::Exit => 10,
            RoomId::Dungeon => 11,
            RoomId::Guardroom => 12,
            RoomId::MasterBedroom => 13,
            RoomId::UpperHallway => 14,
            RoomId::Treasury => 15,
            RoomId::ChambermaidsBedroom => 16,
            RoomId::DressingChamber => 17,
            RoomId::SmallRoom => 18,
        }
    }

    pub fn index(self) -> (i: usize)
        ensures
            i == self.index_spec(),
            i < NUM_ROOMS,
    {
        match self {
            RoomId::Hallway => 0,
            RoomId::AudienceChamber => 1,
            RoomId::GreatHall => 2,
            RoomId::PrivateMeeting => 3,
            RoomId::InnerHallway => 4,
            RoomId::Entrance => 5,
            RoomId::Kitchen => 6,
            RoomId::StoreRoom => 7,
            RoomId::Lift => 8,
            RoomId::RearVestibule => 9,
            RoomId::Exit => 10,
            RoomId::Dungeon => 11,
            RoomId::Guardroom => 12,
            RoomId::MasterBedroom => 13,
            RoomId::UpperHallway => 14,
            RoomId::Treasury => 15,
            RoomId::ChambermaidsBedroom => 16,
            RoomId::DressingChamber => 17,
            RoomId::SmallRoom => 18,
        }
    }
}

/// The room whose table position is `i` (rooms are numbered 0 .. 19).
pub open spec fn room_id_of_index(i: int) -> RoomId {
    if i == 0 {
        RoomId::Hallway
    } else if i == 1 {
        RoomId::AudienceChamber
    } else if i == 2 {
        RoomId::GreatHall
    } else if i == 3 {
        RoomId::PrivateMeeting
    } else if i == 4 {
        RoomId::InnerHallway
    } else if i == 5 {
        RoomId::Entrance
    } else if i == 6 {
        RoomId::Kitchen
    } else if i == 7 {
        RoomId::StoreRoom
    } else if i == 8 {
        RoomId::Lift
    } else if i == 9 {
        RoomId::RearVestibule
    } else if i == 10 {
        RoomId::Exit
    } else if i == 11 {
        RoomId::Dungeon
    } else if i == 12 {
        RoomId::Guardroom
    } else if i == 13 {
        RoomId::MasterBedroom
    } else if i == 14 {
        RoomId::UpperHallway
    } else if i == 15 {
        RoomId::Treasury
    } else if i == 16 {
        RoomId::ChambermaidsBedroom
    } else if i == 17 {
        RoomId::DressingChamber
    } else {
        RoomId::SmallRoom
    }
}

/// The castle's fixed layout: the eighteen connections the builder
/// makes (each one's reverse exit follows from the map's symmetry).
pub open spec fn castle_layout(m: GameMap) -> bool {
    &&& m.spec_room(RoomId::Entrance).spec_exit(Direction::East) == Some(RoomId::Hallway)
    &&& m.spec_room(RoomId::Hallway).spec_exit(Direction::South) == Some(RoomId::AudienceChamber)
    &&& m.spec_room(RoomId::GreatHall).spec_exit(Direction::North) == Some(
        RoomId::AudienceChamber,
    )
    &&& m.spec_room(RoomId::GreatHall).spec_exit(Direction::West) == Some(
        RoomId::AudienceChamber,
    )
    &&& m.spec_room(RoomId::PrivateMeeting).spec_exit(Direction::South) == Some(
        RoomId::InnerHallway,
    )
    &&& m.spec_room(RoomId::InnerHallway).spec_exit(Direction::West) == Some(RoomId::GreatHall)
    &&& m.spec_room(RoomId::InnerHallway).spec_exit(Direction::Up) == Some(RoomId::UpperHallway)
    &&& m.spec_room(RoomId::Kitchen).spec_exit(Direction::South) == Some(RoomId::StoreRoom)
    &&& m.spec_room(RoomId::StoreRoom).spec_exit(Direction::South) == Some(RoomId::RearVestibule)
    &&& m.spec_room(RoomId::RearVestibule).spec_exit(Direction::East) == Some(RoomId::Exit)
    &&& m.spec_room(RoomId::Dungeon).spec_exit(Direction::West) == Some(RoomId::Guardroom)
    &&& m.spec_room(RoomId::Guardroom).spec_exit(Direction::Up) == Some(RoomId::InnerHallway)
    &&& m.spec_room(RoomId::MasterBedroom).spec_exit(Direction::South) == Some(
        RoomId::UpperHallway,
    )
    &&& m.spec_room(RoomId::MasterBedroom).spec_exit(Direction::East) == Some(
        RoomId::ChambermaidsBedroom,
    )
    &&& m.spec_room(RoomId::Treasury).spec_exit(Direction::North) == Some(
        RoomId::ChambermaidsBedroom,
    )
    &&& m.spec_room(RoomId::Treasury).spec_exit(Direction::East) == Some(RoomId::SmallRoom)
    &&& m.spec_room(RoomId::ChambermaidsBedroom).spec_exit(Direction::North) == Some(
        RoomId::DressingChamber,
    )
    &&& m.spec_room(RoomId::SmallRoom).spec_exit(Direction::North) == Some(RoomId::Lift)
}

/// In a symmetric map, every exit can be walked back: if `r` leads to
/// `r2` in direction `d`, then `r2` leads back to `r` the opposite way.
/// `connect` establishes this and every other operation preserves it,
/// so it holds of every populated map.
pub proof fn lemma_symmetric_reverse_exit(m: &GameMap, r: RoomId, d: Direction, r2: RoomId)
    requires
        m.symmetric(),
        m.spec_room(r).spec_exit(d) == Some(r2),
    ensures
        m.spec_room(r2).spec_exit(d.opposite_spec()) == Some(r),
{
}

/// Room numbering is a bijection between identifiers and table positions.
pub proof fn lemma_room_id_index()
    ensures
        forall|i: int| 0 <= i < NUM_ROOMS ==> (#[trigger] room_id_of_index(i)).index_spec() == i,
        forall|r: RoomId| room_id_of_index(#[trigger] r.index_spec()) == r,
{
}

impl MapRoomId for RoomId {
    open spec fn room_id_spec(self) -> int {
        self.index_spec()
    }

    fn room_id(self) -> (i: usize)
        ensures
            i == self.room_id_spec(),
    {
        self.index()
    }
}

impl SizedEnum for RoomId {
    open spec fn size_spec() -> usize {
        19
    }

    fn size() -> (n: usize)
        ensures
            n == RoomId::size_spec(),
    {
        NUM_ROOMS
    }

    fn from_index(i: usize) -> (r: Option<RoomId>)
        ensures
            r is Some <==> i < RoomId::size_spec(),
            i < RoomId::size_spec() ==> r == Some(room_id_of_index(i as int)),
    {
        match i {
            0 => Some(RoomId::Hallway),
            1 => Some(RoomId::AudienceChamber),
            2 => Some(RoomId::GreatHall),
            3 => Some(RoomId::PrivateMeeting),
            4 => Some(RoomId::InnerHallway),
            5 => Some(RoomId::Entrance),
            6 => Some(RoomId::Kitchen),
            7 => Some(RoomId::StoreRoom),
            8 => Some(RoomId::Lift),
            9 => Some(RoomId::RearVestibule),
            10 => Some(RoomId::Exit),
            11 => Some(RoomId::Dungeon),
            12 => Some(RoomId::Guardroom),
            13 => Some(RoomId::MasterBedroom),
            14 => Some(RoomId::UpperHallway),
            15 => Some(RoomId::Treasury),
            16 => Some(RoomId::ChambermaidsBedroom),
            17 => Some(RoomId::DressingChamber),
            18 => Some(RoomId::SmallRoom),
            _ => None,
        }
    }
}

/// What a room holds until the player clears it.
#[derive(Debug, Copy, Clone, PartialEq, Eq, Structural)]
pub enum RoomContents {
    /// A hoard worth the given amount.
    Treasure(u8),
    /// A monster that starts combat when the room is entered.
    Terror(MonsterId),
}

/// One room: a name and description, an exit table with one optional
/// destination per direction, and its (clearable) contents.
#[derive(Debug)]
pub struct Room {
    pub exits: Vec<Option<RoomId>>,
    pub name: &'static str,
    pub description: &'static str,
    pub contents: Option<RoomContents>,
}

impl Room {
    /// The exit table always has one slot per direction.
    pub open spec fn wf(&self) -> bool {
        self.exits@.len() == NUM_DIRECTIONS
    }

    pub open spec fn spec_exit(&self, d: Direction) -> Option<RoomId> {
        self.exits@[d.index_spec()]
    }

    /// A room with no exits, no name and nothing in it.
    pub fn new() -> (r: Room)
        ensures
            r.wf(),
            forall|d: Direction| r.spec_exit(d) is None,
            r.name@.len() == 0,
            r.description@.len() == 0,
            r.contents is None,
    {
        proof {
            reveal_strlit("");
        }
        let mut exits: Vec<Option<RoomId>> = Vec::new();
        let mut i: usize = 0;
        while i < NUM_DIRECTIONS
            invariant
                i <= NUM_DIRECTIONS,
                exits@.len() == i,
                forall|j: int| 0 <= j < i ==> exits@[j] is None,
            decreases NUM_DIRECTIONS - i,
        {
            exits.push(None);
            i = i + 1;
        }
        Room { exits, name: "", description: "", contents: None }
    }

    /// Where this room leads in direction `d`, if anywhere.
    pub fn get_exit(&self, d: Direction) -> (r: Option<RoomId>)
        requires
            self.wf(),
        ensures
            r == self.spec_exit(d),
    {
        self.exits[d.index()]
    }

    /// Record that direction `d` leads to room `r`.  Each exit is set at
    /// most once, while the castle is built.
    pub fn set_exit(&mut self, d: Direction, r: RoomId)
        requires
            old(self).wf(),
            old(self).spec_exit(d) is None,
        ensures
            final(self).wf(),
            final(self).spec_exit(d) == Some(r),
            forall|dd: Direction| dd != d ==> final(self).spec_exit(dd) == old(self).spec_exit(
                dd,
            ),
            final(self).name == old(self).name,
            final(self).description == old(self).description,
            final(self).contents == old(self).contents,
    {
        let i = d.index();
        self.exits.set(i, Some(r));
    }

    /// Give the room its name and description, exactly once.
    pub fn describe(&mut self, name: &'static str, desc: &'static str)
        requires
            old(self).name@.len() == 0,
        ensures
            final(self).name == name,
            final(self).description == desc,
            final(self).exits == old(self).exits,
            final(self).contents == old(self).contents,
    {
        self.name = name;
        self.description = desc;
    }
}

/// Which rooms the allotment of random contents may use: every room except
/// the entrance, the lift and the exit.
pub open spec fn eligible_index(i: int) -> bool {
    i != RoomId::Entrance.index_spec() && i != RoomId::Lift.index_spec() && i
        != RoomId::Exit.index_spec()
}

/// How many rooms with table position below `n` are eligible and still empty.
pub open spec fn empty_eligible_upto(rooms: Seq<Room>, n: int) -> int
    decreases n,
{
    if n <= 0 {
        0
    } else {
        empty_eligible_upto(rooms, n - 1) + if eligible_index(n - 1) && rooms[n - 1].contents
            is None {
            1int
        } else {
            0int
        }
    }
}

/// Changing one eligible room from empty to full lowers the count by one,
/// for every prefix that covers it; rooms outside the prefix do not matter.
proof fn lemma_empty_upto_update(rooms: Seq<Room>, rooms2: Seq<Room>, idx: int, n: int)
    requires
        rooms.len() == rooms2.len(),
        0 <= idx < rooms.len(),
        n <= rooms.len(),
        forall|j: int| 0 <= j < rooms.len() && j != idx ==> rooms2[j].contents == rooms[j].contents,
        eligible_index(idx),
        rooms[idx].contents is None,
        rooms2[idx].contents is Some,
    ensures
        empty_eligible_upto(rooms2, n) == empty_eligible_upto(rooms, n) - if idx < n {
            1int
        } else {
            0int
        },
    decreases n,
{
    if n > 0 {
        lemma_empty_upto_update(rooms, rooms2, idx, n - 1);
    }
}

/// The fixed graph of rooms the game is played in.
pub struct GameMap {
    pub rooms: Vec<Room>,
}

/// What the random allotment places in a room.
#[derive(Copy, Clone)]
enum AllotKind {
    Terror,
    Treasure,
}

/// Whether `c` is something the given kind of allotment can have placed.
spec fn allotted(c: RoomContents, kind: AllotKind) -> bool {
    match kind {
        AllotKind::Terror => c is Terror,
        AllotKind::Treasure => c matches RoomContents::Treasure(a) && MIN_TREASURE_AMOUNT <= a
            < MAX_TREASURE_AMOUNT,
    }
}

impl GameMap {
    /// One well-formed room per room identifier.
    pub open spec fn wf(&self) -> bool {
        &&& self.rooms@.len() == NUM_ROOMS
        &&& forall|i: int| 0 <= i < self.rooms@.len() ==> (#[trigger] self.rooms@[i]).wf()
    }

    pub open spec fn spec_room(&self, r: RoomId) -> Room {
        self.rooms@[r.index_spec()]
    }

    /// A map fresh out of `new`: nameless rooms, no exits, no contents.
    pub open spec fn blank(&self) -> bool {
        &&& self.wf()
        &&& forall|i: int|
            0 <= i < NUM_ROOMS ==> {
                &&& (#[trigger] self.rooms@[i]).name@.len() == 0
                &&& self.rooms@[i].contents is None
                &&& forall|d: Direction| self.rooms@[i].spec_exit(d) is None
            }
    }

    /// Every exit has a reverse exit: if `r` leads to `r2` in direction `d`,
    /// then `r2` leads back to `r` in the opposite direction.
    pub open spec fn symmetric(&self) -> bool {
        forall|r: RoomId, d: Direction|
            (#[trigger] self.spec_room(r).spec_exit(d)) is Some ==> self.spec_room(
                self.spec_room(r).spec_exit(d)->Some_0,
            ).spec_exit(d.opposite_spec()) == Some(r)
    }

    pub open spec fn empty_eligible_count(&self) -> int {
        empty_eligible_upto(self.rooms@, NUM_ROOMS as int)
    }

    /// An empty map with every room blank.
    pub fn new() -> (m: GameMap)
        ensures
            m.wf(),
            m.blank(),
            m.symmetric(),
    {
        let mut rooms: Vec<Room> = Vec::new();
        let mut i: usize = 0;
        while i < NUM_ROOMS
            invariant
                i <= NUM_ROOMS,
                rooms@.len() == i,
                forall|j: int|
                    0 <= j < i ==> {
                        &&& (#[trigger] rooms@[j]).wf()
                        &&& rooms@[j].name@.len() == 0
                        &&& rooms@[j].contents is None
                        &&& forall|d: Direction| rooms@[j].spec_exit(d) is None
                    },
            decreases NUM_ROOMS - i,
        {
            rooms.push(Room::new());
            i = i + 1;
        }
        GameMap { rooms }
    }

    /// Read access to the room named `r`.
    pub fn room(&self, r: RoomId) -> (room: &Room)
        requires
            self.wf(),
        ensures
            *room == self.spec_room(r),
    {
        let i = r.index();
        &self.rooms[i]
    }

    /// Write access to the room named `r`.
    pub fn mut_room(&mut self, r: RoomId) -> (room: &mut Room)
        requires
            old(self).wf(),
        ensures
            *room == old(self).spec_room(r),
            final(self).rooms@ == old(self).rooms@.update(r.index_spec(), *final(room)),
    {
        let i = r.index();
        &mut self.rooms[i]
    }

    /// Join two rooms: `from` leads to `to` in direction `d`, and `to`
    /// leads back to `from` in the opposite direction.
    pub fn connect(&mut self, from: RoomId, d: Direction, to: RoomId)
        requires
            old(self).wf(),
            old(self).spec_room(from).spec_exit(d) is None,
            old(self).spec_room(to).spec_exit(d.opposite_spec()) is None,
        ensures
            final(self).wf(),
            final(self).spec_room(from).spec_exit(d) == Some(to),
            final(self).spec_room(to).spec_exit(d.opposite_spec()) == Some(from),
            forall|r: RoomId, dd: Direction|
                !(r == from && dd == d) && !(r == to && dd == d.opposite_spec())
                    ==> #[trigger] final(self).spec_room(r).spec_exit(dd) == old(self).spec_room(
                    r,
                ).spec_exit(dd),
            forall|r: RoomId|
                {
                    &&& (#[trigger] final(self).spec_room(r)).name == old(self).spec_room(r).name
                    &&& final(self).spec_room(r).description == old(self).spec_room(r).description
                    &&& final(self).spec_room(r).contents == old(self).spec_room(r).contents
                },
            old(self).symmetric() ==> final(self).symmetric(),
    {
        self.mut_room(from).set_exit(d, to);
        self.mut_room(to).set_exit(d.opposite(), from);
        proof {
            lemma_room_id_index();
            if old(self).symmetric() {
                assert forall|r: RoomId, dd: Direction|
                    (#[trigger] self.spec_room(r).spec_exit(dd)) is Some implies self.spec_room(
                    self.spec_room(r).spec_exit(dd)->Some_0,
                ).spec_exit(dd.opposite_spec()) == Some(r) by {
                    let r2 = self.spec_room(r).spec_exit(dd)->Some_0;
                    if r == from && dd == d {
                    } else if r == to && dd == d.opposite_spec() {
                    } else {
                        assert(old(self).spec_room(r).spec_exit(dd) == Some(r2));
                        assert(old(self).spec_room(r2).spec_exit(dd.opposite_spec()) == Some(r));
                    }
                }
            }
        }
    }

    /// Fill the whole castle: describe and join the rooms, then place
    /// random treasure and monsters, and make sure the two vault rooms
    /// always hold treasure.
    pub fn populate(&mut self, rng: &mut Randomness)
        requires
            old(self).blank(),
        ensures
            final(self).wf(),
            final(self).symmetric(),
            castle_layout(*final(self)),
            final(self).spec_room(RoomId::Entrance).contents is None,
            final(self).spec_room(RoomId::Lift).contents is None,
            final(self).spec_room(RoomId::Exit).contents is None,
            final(self).spec_room(RoomId::Treasury).contents matches Some(
                RoomContents::Treasure(_),
            ),
            final(self).spec_room(RoomId::PrivateMeeting).contents matches Some(
                RoomContents::Treasure(_),
            ),
            forall|r: RoomId|
                ((#[trigger] final(self).spec_room(r).contents) matches Some(
                    RoomContents::Treasure(a),
                ) ==> MIN_TREASURE_AMOUNT <= a < MAX_TREASURE_AMOUNT),
    {
        self.describe_and_connect();
        proof {
            lemma_room_id_index();
            reveal_with_fuel(empty_eligible_upto, 20);
        }
        let ghost m1 = *self;
        self.allot_treasure(rng);
        let ghost m2 = *self;
        self.allot_terror(rng);
        let ghost m3 = *self;
        self.ensure_treasure(rng);
        proof {
            lemma_room_id_index();
            assert forall|r: RoomId, d: Direction|
                (#[trigger] self.spec_room(r).spec_exit(d)) is Some implies self.spec_room(
                self.spec_room(r).spec_exit(d)->Some_0,
            ).spec_exit(d.opposite_spec()) == Some(r) by {
                let r2 = self.spec_room(r).spec_exit(d)->Some_0;
                assert(self.spec_room(r).exits == m1.spec_room(r).exits);
                assert(self.spec_room(r2).exits == m1.spec_room(r2).exits);
                assert(m1.spec_room(r).spec_exit(d) == Some(r2));
            }
            assert forall|r: RoomId|
                ((#[trigger] self.spec_room(r).contents) matches Some(
                    RoomContents::Treasure(a),
                ) ==> MIN_TREASURE_AMOUNT <= a < MAX_TREASURE_AMOUNT) by {
                let i = r.index_spec();
                if self.spec_room(r).contents is Some {
                    if i == RoomId::Treasury.index_spec() || i
                        == RoomId::PrivateMeeting.index_spec() {
                    } else {
                        assert(self.rooms@[i].contents == m3.rooms@[i].contents);
                        if m2.rooms@[i].contents is Some {
                            if m1.rooms@[i].contents is Some {
                            }
                        }
                    }
                }
            }
        }
    }

    /// Scatter monsters over four random empty rooms.
    fn allot_terror(&mut self, rng: &mut Randomness)
        requires
            old(self).wf(),
            old(self).empty_eligible_count() >= 4,
        ensures
            final(self).wf(),
            final(self).empty_eligible_count() == old(self).empty_eligible_count() - 4,
            allot_frame(*old(self), *final(self)),
            forall|i: int|
                0 <= i < NUM_ROOMS && old(self).rooms@[i].contents is None && (#[trigger] final(self).rooms@[i].contents) is Some ==> final(self).rooms@[i].contents->Some_0 is Terror,
    {
        self.allot(4, AllotKind::Terror, rng);
    }

    /// Scatter treasure over four random empty rooms.
    fn allot_treasure(&mut self, rng: &mut Randomness)
        requires
            old(self).wf(),
            old(self).empty_eligible_count() >= 4,
        ensures
            final(self).wf(),
            final(self).empty_eligible_count() == old(self).empty_eligible_count() - 4,
            allot_frame(*old(self), *final(self)),
            forall|i: int|
                0 <= i < NUM_ROOMS && old(self).rooms@[i].contents is None && (#[trigger] final(self).rooms@[i].contents) is Some ==> (final(self).rooms@[i].contents->Some_0 matches
                    RoomContents::Treasure(a) && MIN_TREASURE_AMOUNT <= a < MAX_TREASURE_AMOUNT),
    {
        self.allot(4, AllotKind::Treasure, rng);
    }

    /// Place `num_rooms` new contents of the given kind, each in a room
    /// chosen uniformly among the rooms that are eligible and still empty.
    fn allot(&mut self, num_rooms: usize, kind: AllotKind, rng: &mut Randomness)
        requires
            old(self).wf(),
            num_rooms <= old(self).empty_eligible_count(),
        ensures
            final(self).wf(),
            final(self).empty_eligible_count() == old(self).empty_eligible_count() - num_rooms,
            allot_frame(*old(self), *final(self)),
            forall|i: int|
                0 <= i < NUM_ROOMS && old(self).rooms@[i].contents is None && (#[trigger] final(self).rooms@[i].contents) is Some ==> allotted(
                    final(self).rooms@[i].contents->Some_0,
                    kind,
                ),
    {
        let mut k: usize = 0;
        while k < num_rooms
            invariant
                k <= num_rooms,
                self.wf(),
                num_rooms <= old(self).empty_eligible_count(),
                self.empty_eligible_count() == old(self).empty_eligible_count() - k,
                allot_frame(*old(self), *self),
                forall|i: int|
                    0 <= i < NUM_ROOMS && old(self).rooms@[i].contents is None && (#[trigger] self
                        .rooms@[i].contents) is Some ==> allotted(
                        self.rooms@[i].contents->Some_0,
                        kind,
                    ),
            decreases num_rooms - k,
        {
            let mut empties: Vec<usize> = Vec::new();
            let mut i: usize = 0;
            while i < NUM_ROOMS
                invariant
                    i <= NUM_ROOMS,
                    self.wf(),
                    empties@.len() == empty_eligible_upto(self.rooms@, i as int),
                    empties@.len() <= i,
                    forall|j: int|
                        0 <= j < empties@.len() ==> {
                            &&& 0 <= #[trigger] empties@[j] < i
                            &&& eligible_index(empties@[j] as int)
                            &&& self.rooms@[empties@[j] as int].contents is None
                        },
                decreases NUM_ROOMS - i,
            {
                let eligible = i != 5 && i != 8 && i != 10;
                if eligible && self.rooms[i].contents.is_none() {
                    empties.push(i);
                }
                i = i + 1;
            }
            let j = rng.uniform_below(empties.len() as u32) as usize;
            let idx = empties[j];
            let contents = match kind {
                AllotKind::Terror => RoomContents::Terror(MonsterId::random(rng)),
                AllotKind::Treasure => RoomContents::Treasure(random_treasure_amount(rng)),
            };
            let ghost rooms_before = self.rooms@;
            let room = &mut self.rooms[idx];
            room.contents = Some(contents);
            proof {
                lemma_empty_upto_update(
                    rooms_before,
                    self.rooms@,
                    idx as int,
                    NUM_ROOMS as int,
                );
            }
            k = k + 1;
        }
    }

    /// The treasury and the private meeting room always hold treasure,
    /// whatever the random allotment did.
    fn ensure_treasure(&mut self, rng: &mut Randomness)
        requires
            old(self).wf(),
        ensures
            final(self).wf(),
            rooms_shape_unchanged(*old(self), *final(self)),
            (final(self).spec_room(RoomId::Treasury).contents matches Some(
                RoomContents::Treasure(a),
            ) && MIN_TREASURE_AMOUNT <= a < MAX_TREASURE_AMOUNT),
            (final(self).spec_room(RoomId::PrivateMeeting).contents matches Some(
                RoomContents::Treasure(a),
            ) && MIN_TREASURE_AMOUNT <= a < MAX_TREASURE_AMOUNT),
            forall|i: int|
                0 <= i < NUM_ROOMS && i != RoomId::Treasury.index_spec() && i
                    != RoomId::PrivateMeeting.index_spec() ==> (#[trigger] final(self).rooms@[i].contents) == old(self).rooms@[i].contents,
    {
        let amount = random_treasure_amount(rng);
        self.mut_room(RoomId::Treasury).contents = Some(RoomContents::Treasure(amount));
        let amount2 = random_treasure_amount(rng);
        self.mut_room(RoomId::PrivateMeeting).contents = Some(RoomContents::Treasure(amount2));
    }

    /// Give every room its name and description, and join the rooms into
    /// the castle's fixed layout.
    fn describe_and_connect(&mut self)
        requires
            old(self).blank(),
        ensures
            final(self).wf(),
            final(self).symmetric(),
            castle_layout(*final(self)),
            final(self).rooms@.len() == NUM_ROOMS,
            forall|i: int|
                0 <= i < NUM_ROOMS ==> (#[trigger] final(self).rooms@[i].contents) is None,
    {
        self.describe_rooms();
        self.connect_rooms();
    }

    /// The naming half of castle construction.
    #[verifier::rlimit(100)]
    #[verifier::spinoff_prover]
    fn describe_rooms(&mut self)
        requires
            old(self).blank(),
        ensures
            final(self).blank_exits_and_contents(),
    {
        self.mut_room(RoomId::Entrance).describe(
            "Entrance",
            "You are at the entrance to a forbidding-looking stone castle. You are facing east.",
        );
        self.mut_room(RoomId::Hallway).describe(
            "Hallway",
            "You are in the hallway. There is a door to the south. Through the windows to the north you can see a secret herb garden.",
        );
        self.mut_room(RoomId::AudienceChamber).describe(
            "Audience Chamber",
            "This is the audience chamber. There is a window to the west. By looking to the right through it you can see the entrance to the castle. Doors leave this room to the north, east, and south.",
        );
        self.mut_room(RoomId::GreatHall).describe(
            "Great Hall",
            "You are in the great hall, an L-shaped room. There are doors to the east and to the north. In the alcove is a door to the west.",
        );
        self.mut_room(RoomId::PrivateMeeting).describe(
            "Private Meeting Room",
            "This is the monarch's private meeting room. There is a single exit to the south.",
        );
        self.mut_room(RoomId::InnerHallway).describe(
            "Inner Hallway",
            "This inner hallway contains a door to the north, and one to the west, and a circular stairwell passes through the room. You can see an ornamental lake through the windows to the south.",
        );
        self.mut_room(RoomId::Kitchen).describe(
            "Kitchen",
            "This is the castle's kitchen. Through windows in the north wall you can see a secret herb garden. A door leaves the kitchen to the south.",
        );
        self.mut_room(RoomId::StoreRoom).describe(
            "Store Room",
            "You are in the store room, amidst spices, vegetables, and vast sacks of flour and other provisions. There is a door to the north and one to the south.",
        );
        self.mut_room(RoomId::RearVestibule).describe(
            "Rear Vestibule",
            "You are in the rear vestibule. There are windows to the south from which you can see the ornamental lake. There is an exit to the east, and one to the north.",
        );
        self.mut_room(RoomId::Dungeon).describe(
            "Dungeon",
            "You are in the dank, dark dungeon. There is a single exit, a small hole in the wall towards the west.",
        );
        self.mut_room(RoomId::Guardroom).describe(
            "Guardroom",
            "You are in the prison guardroom, in the basement of the castle. The stairwell ends in this room. There is one other exit, a small hole in the east wall.",
        );
        self.mut_room(RoomId::MasterBedroom).describe(
            "Master Bedroom",
            "You are in the master bedroom on the upper level of the castle.... Looking down from the window to the west you can see the entrance to the castle, while the secret herb garden is visible below the north window. There are doors to the east and to the south....",
        );
        self.mut_room(RoomId::UpperHallway).describe(
            "Upper Hallway",
            "This is the L-shaped upper hallway. To the north is a door, and there is a stairwell in the hall as well. You can see the lake through the south windows.",
        );
        self.mut_room(RoomId::Treasury).describe(
            "Treasury",
            "This room was used as the castle treasury in by-gone years.... There are no windows, just exits to the north and to the east.",
        );
        self.mut_room(RoomId::ChambermaidsBedroom).describe(
            "Chambermaids' Bedroom",
            "Ooooh.... You are in the chambermaids' bedroom. There is an exit to the west and a door to the south....",
        );
        self.mut_room(RoomId::DressingChamber).describe(
            "Dressing Chamber",
            "This tiny room on the upper level is the dressing chamber. There is a window to the north, with a view of the herb garden down below. A door leaves to the south.",
        );
        self.mut_room(RoomId::SmallRoom).describe(
            "Small Room",
            "This is the small room outside the castle lift which can be entered by a door to the north. Another door leads to the west. You can see the lake through the southern windows.",
        );
        proof {
            lemma_room_id_index();
            assert forall|i: int| 0 <= i < NUM_ROOMS implies {
                &&& (#[trigger] self.rooms@[i]).wf()
                &&& self.rooms@[i].contents is None
                &&& forall|d: Direction| self.rooms@[i].spec_exit(d) is None
            } by {
                let r = room_id_of_index(i);
                assert(self.rooms@[i] == self.spec_room(r));
                assert(old(self).rooms@[i] == old(self).spec_room(r));
                assert forall|d: Direction| self.rooms@[i].spec_exit(d) is None by {
                    assert(old(self).rooms@[i].spec_exit(d) is None);
                }
            }
        }
    }

    /// The joining half of castle construction.
    #[verifier::rlimit(100)]
    #[verifier::spinoff_prover]
    fn connect_rooms(&mut self)
        requires
            old(self).blank_exits_and_contents(),
        ensures
            final(self).wf(),
            final(self).symmetric(),
            castle_layout(*final(self)),
            final(self).rooms@.len() == NUM_ROOMS,
            forall|i: int|
                0 <= i < NUM_ROOMS ==> (#[trigger] final(self).rooms@[i].contents) is None,
    {
        self.connect(RoomId::Entrance, Direction::East, RoomId::Hallway);
        self.connect(RoomId::Hallway, Direction::South, RoomId::AudienceChamber);
        self.connect(RoomId::GreatHall, Direction::North, RoomId::AudienceChamber);
        self.connect(RoomId::GreatHall, Direction::West, RoomId::AudienceChamber);
        self.connect(RoomId::PrivateMeeting, Direction::South, RoomId::InnerHallway);
        self.connect(RoomId::InnerHallway, Direction::West, RoomId::GreatHall);
        self.connect(RoomId::InnerHallway, Direction::Up, RoomId::UpperHallway);
        self.connect(RoomId::Kitchen, Direction::South, RoomId::StoreRoom);
        self.connect(RoomId::StoreRoom, Direction::South, RoomId::RearVestibule);
        self.connect(RoomId::RearVestibule, Direction::East, RoomId::Exit);
        self.connect(RoomId::Dungeon, Direction::West, RoomId::Guardroom);
        self.connect(RoomId::Guardroom, Direction::Up, RoomId::InnerHallway);
        self.connect(RoomId::MasterBedroom, Direction::South, RoomId::UpperHallway);
        self.connect(RoomId::MasterBedroom, Direction::East, RoomId::ChambermaidsBedroom);
        self.connect(RoomId::Treasury, Direction::North, RoomId::ChambermaidsBedroom);
        self.connect(RoomId::Treasury, Direction::East, RoomId::SmallRoom);
        self.connect(RoomId::ChambermaidsBedroom, Direction::North, RoomId::DressingChamber);
        self.connect(RoomId::SmallRoom, Direction::North, RoomId::Lift);
        proof {
            lemma_room_id_index();
            assert forall|i: int|
                0 <= i < NUM_ROOMS implies (#[trigger] self.rooms@[i].contents) is None by {
                let r = room_id_of_index(i);
                assert(self.rooms@[i] == self.spec_room(r));
                assert(old(self).rooms@[i] == old(self).spec_room(r));
            }
        }
    }

    /// A map whose rooms may be named but still have no exits or contents.
    pub open spec fn blank_exits_and_contents(&self) -> bool {
        &&& self.wf()
        &&& forall|i: int|
            0 <= i < NUM_ROOMS ==> {
                &&& (#[trigger] self.rooms@[i]).contents is None
                &&& forall|d: Direction| self.rooms@[i].spec_exit(d) is None
            }
    }
}

/// What no phase of map population ever touches: the size of the map and
/// every room's name, description and exits.
pub open spec fn rooms_shape_unchanged(pre: GameMap, post: GameMap) -> bool {
    &&& post.rooms@.len() == pre.rooms@.len()
    &&& forall|i: int|
        0 <= i < pre.rooms@.len() ==> {
            &&& (#[trigger] post.rooms@[i]).name == pre.rooms@[i].name
            &&& post.rooms@[i].description == pre.rooms@[i].description
            &&& post.rooms@[i].exits == pre.rooms@[i].exits
        }
}

/// What an allotment never touches: the rooms' shape, every already-filled
/// room, and the entrance, lift and exit rooms.
pub open spec fn allot_frame(pre: GameMap, post: GameMap) -> bool {
    &&& rooms_shape_unchanged(pre, post)
    &&& forall|i: int|
        0 <= i < pre.rooms@.len() && (#[trigger] pre.rooms@[i].contents) is Some ==> post.rooms@[i].contents
            == pre.rooms@[i].contents
    &&& forall|i: int|
        0 <= i < pre.rooms@.len() && !eligible_index(i) ==> (#[trigger] post.rooms@[i].contents)
            == pre.rooms@[i].contents
}

/// A treasure hoard's worth: uniform in [10, 110).
fn random_treasure_amount(rng: &mut Randomness) -> (a: u8)
    ensures
        MIN_TREASURE_AMOUNT <= a < MAX_TREASURE_AMOUNT,
{
    rng.uniform_int(MIN_TREASURE_AMOUNT, MAX_TREASURE_AMOUNT) as u8
}

} // verus!
