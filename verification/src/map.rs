use vstd::prelude::*;
use crate::direction::Direction;
use crate::room::Room;
use crate::sized_enum::SizedEnum;

verus! {

/// A type that names rooms by table position.
pub trait MapRoomId: Sized {
    spec fn room_id_spec(self) -> int;

    /// This room's position in the map's room table.
    fn room_id(self) -> (i: usize)
        ensures
            i == self.room_id_spec(),
    ;
}

/// A map over an arbitrary room-naming enumeration `T` with room
/// contents of type `C`: one room per value of `T`.
#[derive(Debug)]
pub struct RoomMap<T: Copy + MapRoomId + SizedEnum, C: Copy> {
    pub rooms: Vec<Room<T, C>>,
}

impl<T: Copy + MapRoomId + SizedEnum, C: Copy> RoomMap<T, C> {
    /// One well-formed room per value of `T`.
    pub open spec fn wf(&self) -> bool {
        &&& self.rooms@.len() == T::size_spec()
        &&& forall|i: int| 0 <= i < self.rooms@.len() ==> (#[trigger] self.rooms@[i]).wf()
    }

    pub open spec fn spec_room(&self, r: T) -> Room<T, C> {
        self.rooms@[r.room_id_spec()]
    }

    /// Whether `r` names a slot of this map's room table.
    pub open spec fn valid_id(&self, r: T) -> bool {
        0 <= r.room_id_spec() < self.rooms@.len()
    }

    /// An empty map with one blank room per value of `T`.
    pub fn new() -> (m: RoomMap<T, C>)
        ensures
            m.wf(),
            forall|i: int|
                0 <= i < m.rooms@.len() ==> {
                    &&& (#[trigger] m.rooms@[i]).name@.len() == 0
                    &&& m.rooms@[i].contents is None
                    &&& forall|d: Direction| m.rooms@[i].spec_exit(d) is None
                },
    {
        let n = T::size();
        let mut rooms: Vec<Room<T, C>> = Vec::new();
        let mut i: usize = 0;
        while i < n
            invariant
                i <= n,
                rooms@.len() == i,
                forall|j: int|
                    0 <= j < i ==> {
                        &&& (#[trigger] rooms@[j]).wf()
                        &&& rooms@[j].name@.len() == 0
                        &&& rooms@[j].contents is None
                        &&& forall|d: Direction| rooms@[j].spec_exit(d) is None
                    },
            decreases n - i,
        {
            rooms.push(Room::new());
            i = i + 1;
        }
        RoomMap { rooms }
    }

    /// Read access to the room named `r`.
    pub fn room(&self, r: T) -> (room: &Room<T, C>)
        requires
            self.wf(),
            self.valid_id(r),
        ensures
            *room == self.spec_room(r),
    {
        let i = r.room_id();
        &self.rooms[i]
    }

    /// Write access to the room named `r`.
    pub fn mut_room(&mut self, r: T) -> (room: &mut Room<T, C>)
        requires
            old(self).wf(),
            old(self).valid_id(r),
        ensures
            *room == old(self).spec_room(r),
            final(self).rooms@ == old(self).rooms@.update(r.room_id_spec(), *final(room)),
    {
        let i = r.room_id();
        &mut self.rooms[i]
    }

    /// Join two rooms: `from` leads to `to` in direction `d`, and `to`
    /// leads back to `from` in the opposite direction.
    pub fn connect(&mut self, from: T, d: Direction, to: T)
        requires
            old(self).wf(),
            old(self).valid_id(from),
            old(self).valid_id(to),
            old(self).spec_room(from).spec_exit(d) is None,
            old(self).spec_room(to).spec_exit(d.opposite_spec()) is None,
        ensures
            final(self).wf(),
            final(self).rooms@.len() == old(self).rooms@.len(),
            final(self).spec_room(from).spec_exit(d) == Some(to),
            final(self).spec_room(to).spec_exit(d.opposite_spec()) == Some(from),
            forall|i: int, dd: Direction|
                0 <= i < old(self).rooms@.len() && !(i == from.room_id_spec() && dd == d) && !(i
                    == to.room_id_spec() && dd == d.opposite_spec()) ==> (#[trigger] final(self).rooms@[i].spec_exit(dd)) == old(self).rooms@[i].spec_exit(dd),
            forall|i: int|
                0 <= i < old(self).rooms@.len() ==> {
                    &&& (#[trigger] final(self).rooms@[i]).name == old(self).rooms@[i].name
                    &&& final(self).rooms@[i].description == old(self).rooms@[i].description
                    &&& final(self).rooms@[i].contents == old(self).rooms@[i].contents
                },
    {
        self.mut_room(from).set_exit(d, to);
        self.mut_room(to).set_exit(d.opposite(), from);
    }
}

} // verus!
