use vstd::prelude::*;
use crate::items::Item;
use crate::monsters::MonsterId;

verus! {

/// One request to the host environment.
///
/// The game core performs no input or output itself: every tick appends the
/// effects it wants performed to a queue, and the host drains the queue,
/// rendering text, pausing, clearing the screen and showing prompts however
/// its platform does it.  Variants that carry values stand for lines whose
/// text mentions those values; the host owns the wording of anything that
/// depends on the player's name.
#[derive(Debug, Copy, Clone, PartialEq)]
pub enum Effect {
    /// Print a fixed line of narration (word-wrapped by the host).
    Text(&'static str),
    /// Sleep briefly so the player can read what was printed.
    Pause,
    /// Clear the screen.
    ClearScreen,
    /// Show an input prompt; the empty prompt hides it.
    Prompt(&'static str),
    /// The player's answer did not parse as a number.
    NotANumber,
    /// "You have $n." (only pushed when n > 0).
    WealthAmount(i32),
    /// "Your provisions sack holds n units of food."
    FoodCount(i32),
    /// "It is a <monster>!"
    MonsterHere(MonsterId),
    /// "The danger level is n!!"
    DangerLevel(i32),
    /// "The <monster> attacks!"
    MonsterAttacks(MonsterId),
    /// "Wounded and ashamed, the <monster> scurries off."
    MonsterFlees(MonsterId),
    /// "The <monster> knocks you down!"
    MonsterKnocksYouDown(MonsterId),
    /// "There is treasure here worth $n."
    TreasureHere(u8),
    /// "You are now $n richer."
    TreasureCollected(u8),
    /// "You bought n units of <item>."
    BoughtUnits(i32, Item),
    /// "You bought <item>."
    Bought(Item),
    /// "You already own <item>."
    AlreadyOwn(Item),
    /// One line of a command help listing: "  key - description".
    HelpLine(char, &'static str),
    /// "Warning! Your strength is running low."
    StrengthWarning,
    /// "Your strength is n."
    StrengthReport(i32),
    /// "You are carrying <list>": the axe, the sword and the amulet,
    /// whichever of them are owned (at least one is).
    Carrying { axe: bool, sword: bool, amulet: bool },
    /// "Your score is n."
    Score(i32),
    /// "You have succeeded!"
    Succeeded,
    /// "You don't have the amulet."
    NoAmulet,
    /// Debug mode: teleport confirmation naming a room index.
    TeleportedTo(usize),
    /// Debug mode: one line of the room listing.
    RoomInfo(usize, &'static str),
    /// Debug mode: the contents of the room listed just above.
    RoomTreasureInfo(u8),
    /// Debug mode: the monster in the room listed just above.
    RoomTerrorInfo(MonsterId),
    /// Debug mode: report the program's version.
    VersionInfo,
}

/// The source of the game's random draws.
///
/// A system source draws fresh values from the process-wide generator; a
/// scripted source replays a fixed sequence (and yields 0 once it is
/// exhausted), which lets a driver reproduce a game exactly.
pub struct Randomness {
    pub scripted: bool,
    pub script: Vec<u32>,
    pub pos: usize,
}

/// The raw value the `k`-th draw from now will use, when `r` is a
/// scripted source (each draw past the script's end uses 0).
pub open spec fn script_peek(r: Randomness, k: int) -> u32 {
    if 0 <= r.pos + k < r.script.len() {
        r.script[r.pos + k]
    } else {
        0
    }
}

/// Marks the coin a contract quantifies over; a trigger for those
/// quantifiers, true of every draw.
pub open spec fn drawn_coin(b: bool) -> bool {
    true
}

/// Marks the four coins of one battle tick; a trigger, true of every draw.
pub open spec fn drawn_coins(a: bool, b: bool, c: bool, d: bool) -> bool {
    true
}

/// Marks the roll a contract quantifies over; a trigger, true of every draw.
pub open spec fn drawn_roll(r: int) -> bool {
    true
}

/// Relies on rand::random: draws one fresh value from the thread-local
/// generator.  Nothing is promised of which value comes back.
#[verifier::external_body]
fn system_random_u32() -> u32 {
    rand::random::<u32>()
}

impl Randomness {
    /// A source backed by the process-wide random generator.
    pub fn system() -> (r: Randomness)
        ensures
            !r.scripted,
    {
        Randomness { scripted: false, script: Vec::new(), pos: 0 }
    }

    /// A source that replays `values` in order, then yields 0 forever.
    pub fn from_script(values: Vec<u32>) -> (r: Randomness)
        ensures
            r.scripted,
            r.script == values,
            r.pos == 0,
    {
        Randomness { scripted: true, script: values, pos: 0 }
    }

    /// The raw value the next draw will use, when this source is scripted.
    pub open spec fn script_next(&self) -> u32 {
        script_peek(*self, 0)
    }

    /// How a draw advances a scripted source.
    pub open spec fn script_advanced(&self, prior: Randomness) -> bool {
        &&& self.scripted == prior.scripted
        &&& self.script == prior.script
        &&& self.pos == if prior.scripted && prior.pos < prior.script.len() {
            prior.pos + 1
        } else {
            prior.pos as int
        }
    }

    /// A uniformly distributed value in [0, n).
    pub fn uniform_below(&mut self, n: u32) -> (r: u32)
        requires
            n > 0,
        ensures
            r < n,
            final(self).script_advanced(*old(self)),
            old(self).scripted ==> r == old(self).script_next() % n,
    {
        let raw: u32 = if self.scripted {
            if self.pos < self.script.len() {
                let v = self.script[self.pos];
                self.pos = self.pos + 1;
                v
            } else {
                0
            }
        } else {
            system_random_u32()
        };
        raw % n
    }

    /// A uniformly distributed value in [min, max).
    pub fn uniform_int(&mut self, min: i32, max: i32) -> (r: i32)
        requires
            min < max,
            max - min <= i32::MAX,
        ensures
            min <= r < max,
            final(self).script_advanced(*old(self)),
            old(self).scripted ==> r == min + old(self).script_next() % ((max - min) as u32),
    {
        let range: u32 = (max as i64 - min as i64) as u32;
        let offset = self.uniform_below(range);
        min + offset as i32
    }

    /// An event with probability percent/100: true exactly when the draw,
    /// uniform in [0, 100), lands below `percent`.
    pub fn percent_chance(&mut self, percent: u32) -> (r: bool)
        requires
            0 < percent < 100,
        ensures
            final(self).script_advanced(*old(self)),
            old(self).scripted ==> r == (old(self).script_next() % 100 < percent),
    {
        let draw = self.uniform_below(100);
        draw < percent
    }
}

} // verus!
