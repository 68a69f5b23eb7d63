use vstd::prelude::*;
use crate::sized_enum::SizedEnum;

verus! {

/// How many kinds of item exist.
pub const NUM_ITEMS: usize = 6;

/// The closed catalog of things a player can own.
#[derive(Debug, Copy, Clone, PartialEq, Eq, Structural)]
pub enum Item {
    Torch,
    Axe,
    Sword,
    Food,
    Amulet,
    Armor,
}

impl Item {
    /// The position of this item in an inventory's quantity table.
    pub open spec fn index_spec(self) -> int {
        match self {
            Item::Torch => 0,
            Item::Axe => 1,
            Item::Sword => 2,
            Item::Food => 3,
            Item::Amulet => 4,
            Item::Armor => 5,
        }
    }

    pub fn index(self) -> (i: usize)
        ensures
            i == self.index_spec(),
            i < NUM_ITEMS,
    {
        match self {
            Item::Torch => 0,
            Item::Axe => 1,
            Item::Sword => 2,
            Item::Food => 3,
            Item::Amulet => 4,
            Item::Armor => 5,
        }
    }

    pub open spec fn price_spec(self) -> int {
        match self {
            Item::Torch => 15,
            Item::Axe => 10,
            Item::Sword => 20,
            Item::Food => 4,
            Item::Amulet => 30,
            Item::Armor => 50,
        }
    }

    /// What the shop charges for one of this item.
    pub fn price(&self) -> (p: i32)
        ensures
            p == self.price_spec(),
            1 <= p <= 50,
    {
        match *self {
            Item::Torch => 15,
            Item::Axe => 10,
            Item::Sword => 20,
            Item::Food => 4,
            Item::Amulet => 30,
            Item::Armor => 50,
        }
    }

    /// Whether more than one of this item can be owned; only food stacks.
    pub fn can_own_many(&self) -> (b: bool)
        ensures
            b == (*self == Item::Food),
    {
        *self == Item::Food
    }

    /// The item's name as it appears in narration.
    pub fn as_str(&self) -> (s: &'static str)
        ensures
            *self == Item::Torch ==> s@ == "a flaming torch"@,
            *self == Item::Axe ==> s@ == "an axe"@,
            *self == Item::Sword ==> s@ == "a sword"@,
            *self == Item::Food ==> s@ == "food"@,
            *self == Item::Amulet ==> s@ == "the magic amulet"@,
            *self == Item::Armor ==> s@ == "a suit of armor"@,
    {
        match *self {
            Item::Torch => "a flaming torch",
            Item::Axe => "an axe",
            Item::Sword => "a sword",
            Item::Food => "food",
            Item::Amulet => "the magic amulet",
            Item::Armor => "a suit of armor",
        }
    }
}

impl SizedEnum for Item {
    open spec fn size_spec() -> usize {
        6
    }

    fn size() -> (n: usize)
        ensures
            n == Item::size_spec(),
    {
        NUM_ITEMS
    }

    fn from_index(i: usize) -> (r: Option<Item>)
        ensures
            r is Some <==> i < Item::size_spec(),
    {
        match i {
            0 => Some(Item::Torch),
            1 => Some(Item::Axe),
            2 => Some(Item::Sword),
            3 => Some(Item::Food),
            4 => Some(Item::Amulet),
            5 => Some(Item::Armor),
            _ => None,
        }
    }
}

} // verus!
