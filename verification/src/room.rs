use vstd::prelude::*;
use crate::direction::{Direction, NUM_DIRECTIONS};

verus! {

/// A room in an arbitrary map: an exit table with one optional
/// destination per direction, a name, a description and optional
/// contents.  `T` names rooms and `C` is whatever a room can hold.
#[derive(Debug)]
pub struct Room<T: Copy, C: Copy> {
    pub exits: Vec<Option<T>>,
    pub name: &'static str,
    pub description: &'static str,
    pub contents: Option<C>,
}

impl<T: Copy, C: Copy> Room<T, C> {
    /// The exit table always has one slot per direction.
    pub open spec fn wf(&self) -> bool {
        self.exits@.len() == NUM_DIRECTIONS
    }

    pub open spec fn spec_exit(&self, d: Direction) -> Option<T> {
        self.exits@[d.index_spec()]
    }

    /// A room with no exits, no name and nothing in it.
    pub fn new() -> (r: Room<T, C>)
        ensures
            r.wf(),
            forall|d: Direction| r.spec_exit(d) is None,
            r.name@.len() == 0,
            r.description@.len() == 0,
            r.contents is None,
    {
        proof {
            reveal_strlit("");
        }
        let mut exits: Vec<Option<T>> = Vec::new();
        let mut i: usize = 0;
        while i < NUM_DIRECTIONS
            invariant
                i <= NUM_DIRECTIONS,
                exits@.len() == i,
                forall|j: int| 0 <= j < i ==> exits@[j] is None,
            decreases NUM_DIRECTIONS - i,
        {
            exits.push(None);
            i = i + 1;
        }
        Room { exits, name: "", description: "", contents: None }
    }

    /// Where this room leads in direction `d`, if anywhere.
    pub fn get_exit(&self, d: Direction) -> (r: Option<T>)
        requires
            self.wf(),
        ensures
            r == self.spec_exit(d),
    {
        self.exits[d.index()]
    }

    /// Record that direction `d` leads to room `r`.  Each exit is set at
    /// most once, while the map is built.
    pub fn set_exit(&mut self, d: Direction, r: T)
        requires
            old(self).wf(),
            old(self).spec_exit(d) is None,
        ensures
            final(self).wf(),
            final(self).spec_exit(d) == Some(r),
            forall|dd: Direction| dd != d ==> final(self).spec_exit(dd) == old(self).spec_exit(
                dd,
            ),
            final(self).name == old(self).name,
            final(self).description == old(self).description,
            final(self).contents == old(self).contents,
    {
        let i = d.index();
        self.exits.set(i, Some(r));
    }

    /// Give the room its name and description, exactly once.
    pub fn describe(&mut self, name: &'static str, desc: &'static str)
        requires
            old(self).name@.len() == 0,
        ensures
            final(self).name == name,
            final(self).description == desc,
            final(self).exits == old(self).exits,
            final(self).contents == old(self).contents,
    {
        self.name = name;
        self.description = desc;
    }
}

} // verus!
