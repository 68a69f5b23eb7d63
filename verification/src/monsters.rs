use vstd::prelude::*;
use crate::sized_enum::SizedEnum;

verus! {

/// How many kinds of monster exist.
pub const NUM_MONSTERS: usize = 4;

/// The monsters that can lurk in a room.
#[derive(Debug, Copy, Clone, PartialEq, Eq, Structural)]
pub enum MonsterId {
    Werewolf,
    Fleshgorger,
    Maldemer,
    Dragon,
}

impl MonsterId {
    /// The monster's name as it appears in narration.
    pub fn as_str(&self) -> (s: &'static str)
        ensures
            *self == MonsterId::Werewolf ==> s@ == "ferocious werewolf"@,
            *self == MonsterId::Fleshgorger ==> s@ == "fanatical fleshgorger"@,
            *self == MonsterId::Maldemer ==> s@ == "maloventy maldemer"@,
            *self == MonsterId::Dragon ==> s@ == "devastating ice-dragon"@,
    {
        match *self {
            MonsterId::Werewolf => "ferocious werewolf",
            MonsterId::Fleshgorger => "fanatical fleshgorger",
            MonsterId::Maldemer => "maloventy maldemer",
            MonsterId::Dragon => "devastating ice-dragon",
        }
    }

    pub open spec fn ferocity_factor_spec(self) -> int {
        match self {
            MonsterId::Werewolf => 5,
            MonsterId::Fleshgorger => 10,
            MonsterId::Maldemer => 15,
            MonsterId::Dragon => 20,
        }
    }

    /// The monster's base difficulty, before equipment adjustments.
    pub fn ferocity_factor(&self) -> (ff: i32)
        ensures
            ff == self.ferocity_factor_spec(),
            5 <= ff <= 20,
    {
        match *self {
            MonsterId::Werewolf => 5,
            MonsterId::Fleshgorger => 10,
            MonsterId::Maldemer => 15,
            MonsterId::Dragon => 20,
        }
    }
}

impl SizedEnum for MonsterId {
    open spec fn size_spec() -> usize {
        4
    }

    fn size() -> (n: usize)
        ensures
            n == MonsterId::size_spec(),
    {
        NUM_MONSTERS
    }

    fn from_index(i: usize) -> (r: Option<MonsterId>)
        ensures
            r is Some <==> i < MonsterId::size_spec(),
    {
        match i {
            0 => Some(MonsterId::Werewolf),
            1 => Some(MonsterId::Fleshgorger),
            2 => Some(MonsterId::Maldemer),
            3 => Some(MonsterId::Dragon),
            _ => None,
        }
    }
}

} // verus!
