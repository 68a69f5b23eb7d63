use vstd::prelude::*;
use vstd::string::*;
use crate::combat::CombatState;
use crate::direction::Direction;
use crate::game_map::{GameMap, RoomId};
use crate::inventory::Inventory;
use crate::items::Item;
use crate::platform::{Effect, Randomness};
use crate::util::parse_i32;
use crate::util::parse_i32_spec;

verus! {

/// How much food a cheater keeps: a quarter.
pub const CHEATING_FOOD_DIVISOR: i32 = 4;

/// The strength a fresh explorer starts with.
pub const INITIAL_STRENGTH: i32 = 100;

/// The money a fresh explorer starts with.
pub const INITIAL_WEALTH: i32 = 75;

/// Strength gained per unit of food eaten.
pub const STRENGTH_PER_FOOD: i32 = 10;

/// Tally gained per successful move.
pub const TALLY_PER_MOVE: i32 = 1;

/// Strength lost per successful move.
pub const STRENGTH_LOSS_PER_MOVE: i32 = 5;

/// The top-level mode the game is in.
#[derive(Debug, Copy, Clone, PartialEq, Eq, Structural)]
pub enum GameMode {
    /// Waiting for the player to give their name.
    AskName,
    /// Exploring the castle.
    Primary,
    /// Browsing and buying provisions.
    Inventory,
    /// Deciding how much food to eat.
    EatFood,
    /// Fighting a monster, in the given sub-state.
    Combat(CombatState),
    /// The game is over.
    Finished,
    /// The maintenance console, when it is enabled.
    Debug,
}

/// The one pending "awaiting input" continuation: which question was
/// asked, with whatever the answer's handler needs to go on.
#[derive(Debug, Copy, Clone, PartialEq, Eq, Structural)]
pub enum PendingInput {
    /// "What is your name, explorer?"
    AskName,
    /// "What do you want to do?"
    Primary,
    /// "What do you want to buy?"
    Inventory,
    /// "How many do you want to eat?"
    EatAmount,
    /// "How many units?" of the given item.
    BuyAmount(Item),
    /// "Will you run away like a coward?" in the given combat.
    FleeQuery(CombatState),
    /// "Press enter to fight!" in the given combat.
    FightConfirm(CombatState),
    /// "What direction will you run?"
    FleeDirection,
    /// The maintenance console's prompt.
    Debug,
}

impl PendingInput {
    pub open spec fn prompt_spec(self) -> &'static str {
        match self {
            PendingInput::AskName => "What is your name, explorer? ",
            PendingInput::Primary => "What do you want to do? ",
            PendingInput::Inventory => "What do you want to buy? ",
            PendingInput::EatAmount => "How many do you want to eat? ",
            PendingInput::BuyAmount(_) => "How many units? ",
            PendingInput::FleeQuery(_) => "Will you run away like a coward? ",
            PendingInput::FightConfirm(_) => "Press enter to fight! ",
            PendingInput::FleeDirection => "What direction will you run? ",
            PendingInput::Debug => "debug> ",
        }
    }

    /// The question this continuation repeats when it asks again.
    pub fn prompt(self) -> (p: &'static str)
        ensures
            p == self.prompt_spec(),
    {
        match self {
            PendingInput::AskName => "What is your name, explorer? ",
            PendingInput::Primary => "What do you want to do? ",
            PendingInput::Inventory => "What do you want to buy? ",
            PendingInput::EatAmount => "How many do you want to eat? ",
            PendingInput::BuyAmount(_) => "How many units? ",
            PendingInput::FleeQuery(_) => "Will you run away like a coward? ",
            PendingInput::FightConfirm(_) => "Press enter to fight! ",
            PendingInput::FleeDirection => "What direction will you run? ",
            PendingInput::Debug => "debug> ",
        }
    }

    /// Whether the answer is parsed as a number before its handler runs.
    pub open spec fn expects_number(self) -> bool {
        self is EatAmount || self is BuyAmount
    }
}

/// The whole game: the world, the player, the current mode, the output
/// queue, the random source and the continuation bookkeeping.
pub struct GameState {
    pub map: GameMap,
    pub curr_mode: GameMode,
    pub shown_hint: bool,
    pub player_name: String,
    pub strength: i32,
    pub wealth: i32,
    pub tally: i32,
    pub monsters_killed: i32,
    pub curr_room: RoomId,
    pub show_desc: bool,
    pub items: Inventory,
    pub debug_allowed: bool,
    pub effects: Vec<Effect>,
    pub rng: Randomness,
    pub input_callback: Option<PendingInput>,
    pub is_processing_input: bool,
    pub read_input_again: bool,
}

/// A combat's adjusted ferocity factor stays in this band, which keeps
/// the battle arithmetic comfortably inside `i32`.
pub open spec fn combat_wf(cs: CombatState) -> bool {
    0 <= cs.ff <= 100
}

pub open spec fn mode_wf(m: GameMode) -> bool {
    m matches GameMode::Combat(cs) ==> combat_wf(cs)
}

pub open spec fn pending_wf(p: PendingInput) -> bool {
    &&& (p matches PendingInput::FleeQuery(cs) ==> combat_wf(cs))
    &&& (p matches PendingInput::FightConfirm(cs) ==> combat_wf(cs))
}

/// What asking a question does: show its prompt and store it as the one
/// pending continuation; nothing else moves.
pub open spec fn asked(pre: GameState, post: GameState, p: PendingInput) -> bool {
    &&& post == (GameState {
        effects: post.effects,
        input_callback: Some(p),
        read_input_again: false,
        ..pre
    })
    &&& post.effects@ == pre.effects@.push(Effect::Prompt(p.prompt_spec()))
}

/// What the cheating penalty does to the player's holdings: wealth is
/// zeroed, every durable item is lost, and food is quartered.
pub open spec fn cheat_penalty(pre: GameState, post: GameState) -> bool {
    &&& post == (GameState { effects: post.effects, wealth: 0, items: post.items, ..pre })
    &&& post.effects@ == pre.effects@ + seq![
        Effect::Text("YOU HAVE TRIED TO CHEAT ME!"),
        Effect::Pause,
    ]
    &&& post.items.wf()
    &&& post.items.spec_quantity(Item::Food) == pre.items.spec_quantity(Item::Food) as int
        / CHEATING_FOOD_DIVISOR as int
    &&& forall|it: Item| it != Item::Food ==> post.items.spec_quantity(it) == 0
}

/// What ending the game does: the mode becomes Finished and the score
/// and a farewell are printed.  The description flag is left alone.
pub open spec fn finish_step(pre: GameState, post: GameState) -> bool {
    &&& post == (GameState {
        effects: post.effects,
        curr_mode: GameMode::Finished,
        ..pre
    })
    &&& post.effects@ == pre.effects@ + seq![
        Effect::Score(spec_score(pre)),
        Effect::Text("Farewell."),
    ]
}

/// What dying does: a death notice, a pause, then the end of the game.
pub open spec fn death_step(pre: GameState, post: GameState) -> bool {
    &&& post == (GameState {
        effects: post.effects,
        curr_mode: GameMode::Finished,
        ..pre
    })
    &&& post.effects@ == pre.effects@ + seq![
        Effect::Text("You have died........."),
        Effect::Pause,
        Effect::Score(spec_score(pre)),
        Effect::Text("Farewell."),
    ]
}

/// The score shown at the end of the game.
pub open spec fn spec_score(s: GameState) -> i32 {
    (3 * s.tally + 5 * s.strength + 2 * s.wealth + 1 * s.items.spec_quantity(Item::Food) + 30
        * s.monsters_killed) as i32
}

/// What answering the name question does: an empty answer is chided and
/// the mode stays put (the next tick asks again); anything else becomes
/// the player's name and play begins.
pub open spec fn name_input_step(pre: GameState, post: GameState, line: Seq<char>) -> bool {
    if line.len() == 0 {
        &&& post == (GameState { effects: post.effects, ..pre })
        &&& post.effects@ == pre.effects@.push(Effect::Text("Pardon me?"))
    } else {
        &&& post == (GameState {
            effects: post.effects,
            player_name: post.player_name,
            curr_mode: GameMode::Primary,
            show_desc: true,
            ..pre
        })
        &&& post.player_name@ == line
        &&& post.effects@ == pre.effects@
    }
}

/// What answering the eat question with a number does.
pub open spec fn eat_amount_step(pre: GameState, post: GameState, amount: i32) -> bool {
    if amount < 0 {
        // Chide and ask the same question again.
        &&& post == (GameState {
            effects: post.effects,
            read_input_again: true,
            ..pre
        })
        &&& post.effects@ == pre.effects@.push(Effect::Text("GIVE ME A POSITIVE INTEGER."))
    } else if amount == 0 {
        &&& post == (GameState {
            effects: post.effects,
            curr_mode: GameMode::Primary,
            show_desc: true,
            ..pre
        })
        &&& post.effects@ == pre.effects@ + seq![
            Effect::Text("Fine, be that way."),
            Effect::Pause,
        ]
    } else if amount > pre.items.spec_quantity(Item::Food) {
        // Claiming more than is owned is cheating.
        exists|mid: GameState|
            {
                &&& #[trigger] cheat_penalty(pre, mid)
                &&& post == (GameState {
                    curr_mode: GameMode::Primary,
                    show_desc: true,
                    ..mid
                })
            }
    } else {
        &&& post == (GameState {
            effects: post.effects,
            items: post.items,
            strength: (pre.strength + amount * STRENGTH_PER_FOOD) as i32,
            curr_mode: GameMode::Primary,
            show_desc: true,
            ..pre
        })
        &&& post.items.wf()
        &&& post.items.spec_quantity(Item::Food) == pre.items.spec_quantity(Item::Food) - amount
        &&& forall|it: Item|
            it != Item::Food ==> post.items.spec_quantity(it) == pre.items.spec_quantity(it)
        &&& post.effects@ == pre.effects@ + seq![
            Effect::Text("After some munching, you feel stronger."),
            Effect::Pause,
        ]
    }
}

/// What one tick in EatFood mode does: report the food on hand (once),
/// then ask how much to eat.
pub open spec fn eat_food_step(pre: GameState, post: GameState) -> bool {
    &&& post == (GameState {
        effects: post.effects,
        show_desc: false,
        input_callback: Some(PendingInput::EatAmount),
        read_input_again: false,
        ..pre
    })
    &&& post.effects@ == pre.effects@ + (if pre.show_desc {
        seq![
            Effect::FoodCount(pre.items.spec_quantity(Item::Food) as i32),
            Effect::Text(""),
        ]
    } else {
        Seq::empty()
    }) + seq![Effect::Prompt(PendingInput::EatAmount.prompt_spec())]
}

impl GameState {
    /// The map and inventory are well formed, any combat state is in
    /// range, and every counter is in the band the arithmetic relies on.
    pub open spec fn wf(&self) -> bool {
        &&& self.struct_ok()
        &&& self.counters_ok()
    }

    pub open spec fn struct_ok(&self) -> bool {
        &&& self.map.wf()
        &&& self.items.wf()
        &&& mode_wf(self.curr_mode)
        &&& match self.input_callback {
            Some(p) => pending_wf(p),
            None => true,
        }
    }

    /// The band every counter stays in over any realistic game, far from
    /// `i32`'s edges; the host checks it before each tick.
    pub open spec fn counters_ok(&self) -> bool {
        &&& -10_000 <= self.strength <= 10_000_000
        &&& 0 <= self.wealth <= 10_000_000
        &&& 0 <= self.tally <= 10_000_000
        &&& 0 <= self.monsters_killed <= 10_000_000
        &&& self.items.spec_quantity(Item::Food) <= 10_000_000
    }

    /// The executable mirror of `counters_ok`, for an unverified host to
    /// test before it calls `tick`.
    pub fn check_counters(&self) -> (b: bool)
        requires
            self.items.wf(),
        ensures
            b == self.counters_ok(),
    {
        -10_000 <= self.strength && self.strength <= 10_000_000 && 0 <= self.wealth
            && self.wealth <= 10_000_000 && 0 <= self.tally && self.tally <= 10_000_000 && 0
            <= self.monsters_killed && self.monsters_killed <= 10_000_000
            && self.items.get_quantity(Item::Food) <= 10_000_000
    }

    /// A fresh game: a blank map (the caller populates it), a nameless
    /// explorer at the entrance, and the system random source.
    pub fn new() -> (state: GameState)
        ensures
            state.wf(),
            state.map.blank(),
            state.curr_mode == GameMode::AskName,
            state.curr_room == RoomId::Entrance,
            !state.shown_hint,
            state.player_name@.len() == 0,
            state.strength == INITIAL_STRENGTH,
            state.wealth == INITIAL_WEALTH,
            state.tally == 0,
            state.monsters_killed == 0,
            state.show_desc,
            forall|item: Item| state.items.spec_quantity(item) == 0,
            !state.debug_allowed,
            state.effects@.len() == 0,
            !state.rng.scripted,
            state.input_callback is None,
            !state.is_processing_input,
            !state.read_input_again,
    {
        GameState {
            map: GameMap::new(),
            curr_mode: GameMode::AskName,
            shown_hint: false,
            player_name: String::new(),
            strength: INITIAL_STRENGTH,
            wealth: INITIAL_WEALTH,
            tally: 0,
            monsters_killed: 0,
            curr_room: RoomId::Entrance,
            show_desc: true,
            items: Inventory::new(),
            debug_allowed: false,
            effects: Vec::new(),
            rng: Randomness::system(),
            input_callback: None,
            is_processing_input: false,
            read_input_again: false,
        }
    }

    /// Show a prompt to the player.
    pub fn show_prompt(&mut self, prompt: &'static str)
        ensures
            *final(self) == (GameState { effects: final(self).effects, ..*old(self) }),
            final(self).effects@ == old(self).effects@.push(Effect::Prompt(prompt)),
    {
        self.effects.push(Effect::Prompt(prompt));
    }

    /// Ask for the same input again; only an input handler may call this.
    pub fn ask_again(&mut self)
        requires
            old(self).is_processing_input,
        ensures
            *final(self) == (GameState { read_input_again: true, ..*old(self) }),
    {
        self.read_input_again = true;
    }

    /// Store the pending continuation.  At most one may be outstanding.
    pub fn read_input(&mut self, p: PendingInput)
        requires
            old(self).input_callback is None,
        ensures
            *final(self) == (GameState {
                input_callback: Some(p),
                read_input_again: false,
                ..*old(self)
            }),
    {
        self.read_input_again = false;
        self.input_callback = Some(p);
    }

    /// Ask a question: show its prompt and store the continuation.
    pub fn ask(&mut self, p: PendingInput)
        requires
            old(self).input_callback is None,
        ensures
            asked(*old(self), *final(self), p),
    {
        self.show_prompt(p.prompt());
        self.read_input(p);
    }

    /// Ask a question whose answer is parsed as a number before its
    /// handler sees it; a failed parse re-prompts by itself.
    pub fn ask_i32(&mut self, p: PendingInput)
        requires
            old(self).input_callback is None,
            p.expects_number(),
        ensures
            asked(*old(self), *final(self), p),
    {
        self.ask(p);
    }

    /// Whether the player can see: the entrance is lit, everywhere else
    /// needs the torch.
    pub open spec fn spec_can_see(&self) -> bool {
        self.curr_room == RoomId::Entrance || self.items.spec_owns(Item::Torch)
    }

    pub fn can_player_see(&self) -> (r: bool)
        requires
            self.items.wf(),
        ensures
            r == self.spec_can_see(),
    {
        self.curr_room == RoomId::Entrance || self.items.owns(Item::Torch)
    }

    /// Change mode; every mode change redraws its context first.
    pub fn set_mode(&mut self, mode: GameMode)
        ensures
            *final(self) == (GameState { curr_mode: mode, show_desc: true, ..*old(self) }),
    {
        self.show_desc = true;
        self.curr_mode = mode;
    }

    /// Report the player's wealth, or the lack of it.
    pub fn print_wealth(&mut self)
        ensures
            *final(self) == (GameState { effects: final(self).effects, ..*old(self) }),
            final(self).effects@ == old(self).effects@.push(
                if old(self).wealth > 0 {
                    Effect::WealthAmount(old(self).wealth)
                } else {
                    Effect::Text("You have no money.")
                },
            ),
    {
        if self.wealth > 0 {
            self.effects.push(Effect::WealthAmount(self.wealth));
        } else {
            self.effects.push(Effect::Text("You have no money."));
        }
    }

    /// Report how much food is in the provisions sack.
    pub fn print_food(&mut self)
        requires
            old(self).items.wf(),
        ensures
            *final(self) == (GameState { effects: final(self).effects, ..*old(self) }),
            final(self).effects@ == old(self).effects@.push(
                Effect::FoodCount(old(self).items.spec_quantity(Item::Food) as i32),
            ),
    {
        let food = self.items.get_quantity(Item::Food);
        self.effects.push(Effect::FoodCount(food));
    }

    /// The final score: tallies, strength, wealth, food and kills, each
    /// at its own rate.
    fn get_score(&self) -> (score: i32)
        requires
            self.counters_ok(),
            self.items.wf(),
        ensures
            score == spec_score(*self),
    {
        3 * self.tally + 5 * self.strength + 2 * self.wealth + 1 * self.items.get_quantity(
            Item::Food,
        ) + 30 * self.monsters_killed
    }

    /// End the game and report the score.
    pub fn finish_game(&mut self)
        requires
            old(self).counters_ok(),
            old(self).items.wf(),
        ensures
            finish_step(*old(self), *final(self)),
    {
        self.curr_mode = GameMode::Finished;
        let score = self.get_score();
        self.effects.push(Effect::Score(score));
        self.effects.push(Effect::Text("Farewell."));
        proof {
            assert(final(self).effects@ =~= old(self).effects@ + seq![
                Effect::Score(spec_score(*old(self))),
                Effect::Text("Farewell."),
            ]);
        }
    }

    /// Whether the game is over.
    pub fn is_finished(&self) -> (r: bool)
        ensures
            r == (self.curr_mode == GameMode::Finished),
    {
        self.curr_mode == GameMode::Finished
    }

    /// Whether the next tick wants a line of input.
    pub fn is_waiting_for_input(&self) -> (r: bool)
        ensures
            r == (self.input_callback is Some),
    {
        self.input_callback.is_some()
    }

    /// Punish a detected cheat: no money, no gear, a quarter of the food.
    pub fn accuse_player_of_cheating(&mut self)
        requires
            old(self).items.wf(),
            old(self).items.spec_quantity(Item::Food) >= 0,
        ensures
            cheat_penalty(*old(self), *final(self)),
    {
        self.effects.push(Effect::Text("YOU HAVE TRIED TO CHEAT ME!"));
        self.wealth = 0;
        self.items.lose(Item::Torch);
        self.items.lose(Item::Axe);
        self.items.lose(Item::Sword);
        let food = self.items.get_quantity(Item::Food);
        self.items.set_quantity(Item::Food, food / CHEATING_FOOD_DIVISOR);
        self.items.lose(Item::Amulet);
        self.items.lose(Item::Armor);
        self.pause();
        proof {
            assert(final(self).effects@ =~= old(self).effects@ + seq![
                Effect::Text("YOU HAVE TRIED TO CHEAT ME!"),
                Effect::Pause,
            ]);
        }
    }

    /// Give the player a moment to read what was printed.
    pub fn pause(&mut self)
        ensures
            *final(self) == (GameState { effects: final(self).effects, ..*old(self) }),
            final(self).effects@ == old(self).effects@.push(Effect::Pause),
    {
        self.effects.push(Effect::Pause);
    }

    /// Death: a notice, a pause, and the end of the game.
    fn die(&mut self)
        requires
            old(self).counters_ok(),
            old(self).items.wf(),
        ensures
            death_step(*old(self), *final(self)),
    {
        self.effects.push(Effect::Text("You have died........."));
        self.pause();
        self.finish_game();
        proof {
            assert(final(self).effects@ =~= old(self).effects@ + seq![
                Effect::Text("You have died........."),
                Effect::Pause,
                Effect::Score(spec_score(*old(self))),
                Effect::Text("Farewell."),
            ]);
        }
    }

    /// Pay the toll of one move: one tally up, some strength down.
    pub fn process_move(&mut self)
        requires
            old(self).tally + TALLY_PER_MOVE <= i32::MAX,
            old(self).strength - STRENGTH_LOSS_PER_MOVE >= i32::MIN,
        ensures
            *final(self) == (GameState {
                tally: (old(self).tally + TALLY_PER_MOVE) as i32,
                strength: (old(self).strength - STRENGTH_LOSS_PER_MOVE) as i32,
                ..*old(self)
            }),
    {
        self.tally = self.tally + TALLY_PER_MOVE;
        self.strength = self.strength - STRENGTH_LOSS_PER_MOVE;
    }

    /// Try to walk in direction `d`.  A direction with no exit from the
    /// current room is rejected and nothing moves; otherwise the player
    /// steps through, pays the toll, and the new room will be described.
    pub fn try_to_move(&mut self, d: Direction) -> (moved: bool)
        requires
            old(self).map.wf(),
            old(self).tally + TALLY_PER_MOVE <= i32::MAX,
            old(self).strength - STRENGTH_LOSS_PER_MOVE >= i32::MIN,
        ensures
            moved == (old(self).map.spec_room(old(self).curr_room).spec_exit(d) is Some),
            !moved ==> {
                &&& *final(self) == (GameState {
                    effects: final(self).effects,
                    ..*old(self)
                })
                &&& final(self).effects@ == old(self).effects@.push(
                    Effect::Text("You can't go that way."),
                )
            },
            moved ==> *final(self) == (GameState {
                curr_room: old(self).map.spec_room(old(self).curr_room).spec_exit(d)->Some_0,
                show_desc: true,
                tally: (old(self).tally + TALLY_PER_MOVE) as i32,
                strength: (old(self).strength - STRENGTH_LOSS_PER_MOVE) as i32,
                ..*old(self)
            }),
    {
        let exit = self.map.room(self.curr_room).get_exit(d);
        match exit {
            None => {
                self.effects.push(Effect::Text("You can't go that way."));
                false
            },
            Some(to) => {
                self.curr_room = to;
                self.show_desc = true;
                self.process_move();
                true
            },
        }
    }

    /// One tick in AskName mode: ask for a name.
    pub fn tick_ask_name_mode(&mut self)
        requires
            old(self).input_callback is None,
        ensures
            asked(*old(self), *final(self), PendingInput::AskName),
    {
        self.ask(PendingInput::AskName);
    }

    /// The name question's handler.
    pub fn handle_name_input(&mut self, line: String)
        ensures
            name_input_step(*old(self), *final(self), line@),
    {
        if line.as_str().unicode_len() == 0 {
            self.effects.push(Effect::Text("Pardon me?"));
        } else {
            self.player_name = line;
            self.set_mode(GameMode::Primary);
        }
    }

    /// One tick in EatFood mode: report the sack once, then ask how much.
    pub fn tick_eat_food_mode(&mut self)
        requires
            old(self).input_callback is None,
            old(self).items.wf(),
        ensures
            eat_food_step(*old(self), *final(self)),
    {
        if self.show_desc {
            self.print_food();
            self.effects.push(Effect::Text(""));
            self.show_desc = false;
        }
        self.ask_i32(PendingInput::EatAmount);
        proof {
            assert(final(self).effects@ =~= old(self).effects@ + (if old(self).show_desc {
                seq![
                    Effect::FoodCount(old(self).items.spec_quantity(Item::Food) as i32),
                    Effect::Text(""),
                ]
            } else {
                Seq::<Effect>::empty()
            }) + seq![Effect::Prompt(PendingInput::EatAmount.prompt_spec())]);
        }
    }

    /// The eat question's handler: negative is chided and re-asked, zero
    /// shrugged off, more than is owned punished as cheating, and an
    /// honest amount traded for strength.
    pub fn handle_eat_amount(&mut self, amount: i32)
        requires
            old(self).is_processing_input,
            old(self).items.wf(),
            old(self).counters_ok(),
        ensures
            eat_amount_step(*old(self), *final(self), amount),
    {
        if amount < 0 {
            self.effects.push(Effect::Text("GIVE ME A POSITIVE INTEGER."));
            self.ask_again();
        } else if amount == 0 {
            self.effects.push(Effect::Text("Fine, be that way."));
            self.pause();
            self.set_mode(GameMode::Primary);
            proof {
                assert(final(self).effects@ =~= old(self).effects@ + seq![
                    Effect::Text("Fine, be that way."),
                    Effect::Pause,
                ]);
            }
        } else if amount > self.items.get_quantity(Item::Food) {
            self.accuse_player_of_cheating();
            self.set_mode(GameMode::Primary);
        } else {
            self.effects.push(Effect::Text("After some munching, you feel stronger."));
            self.items.decrease(Item::Food, amount);
            self.strength = self.strength + amount * STRENGTH_PER_FOOD;
            self.set_mode(GameMode::Primary);
            self.pause();
            proof {
                assert(final(self).effects@ =~= old(self).effects@ + seq![
                    Effect::Text("After some munching, you feel stronger."),
                    Effect::Pause,
                ]);
            }
        }
    }

    /// Hand one line of input to the stored continuation.
    fn resume(&mut self, p: PendingInput, line: String)
        requires
            old(self).wf(),
            old(self).input_callback is None,
            old(self).is_processing_input,
            pending_wf(p),
        ensures
            resume_step(*old(self), *final(self), p, line@),
            final(self).read_input_again ==> final(self).input_callback is None,
    {
        match p {
            PendingInput::AskName => self.handle_name_input(line),
            PendingInput::Primary => self.handle_primary_input(line.as_str()),
            PendingInput::Inventory => self.handle_inventory_input(line.as_str()),
            PendingInput::EatAmount => {
                match parse_i32(line.as_str()) {
                    Some(v) => self.handle_eat_amount(v),
                    None => {
                        self.effects.push(Effect::NotANumber);
                        self.ask_again();
                    },
                }
            },
            PendingInput::BuyAmount(item) => {
                match parse_i32(line.as_str()) {
                    Some(v) => self.handle_buy_amount(item, v),
                    None => {
                        self.effects.push(Effect::NotANumber);
                        self.ask_again();
                    },
                }
            },
            PendingInput::FleeQuery(cs) => self.handle_flee_query(cs, line.as_str()),
            PendingInput::FightConfirm(cs) => self.handle_fight_confirm(cs),
            PendingInput::FleeDirection => self.handle_flee_direction(line.as_str()),
            PendingInput::Debug => self.handle_debug_input(line.as_str()),
        }
    }

    /// Advance the game by exactly one step.
    ///
    /// With a continuation pending: no input leaves everything as it
    /// was, and a line of input resumes the continuation exactly once
    /// (re-asking the same question afterwards if the handler demanded
    /// it).  With no continuation pending: a dead player dies, and
    /// otherwise the current mode's handler runs exactly once.
    pub fn tick(&mut self, input: Option<String>)
        requires
            old(self).wf(),
            !old(self).is_processing_input,
        ensures
            tick_step(*old(self), *final(self), input),
    {
        if self.input_callback.is_some() {
            let p = match self.input_callback {
                Some(q) => q,
                None => vstd::pervasive::unreached(),
            };
            self.input_callback = None;
            match input {
                None => {
                    self.input_callback = Some(p);
                    return;
                },
                Some(line) => {
                    self.is_processing_input = true;
                    self.effects.push(Effect::Prompt(""));
                    let ghost pre1 = *self;
                    self.resume(p, line);
                    let ghost mid = *self;
                    self.is_processing_input = false;
                    if self.read_input_again {
                        self.read_input_again = false;
                        self.input_callback = Some(p);
                        self.effects.push(Effect::Prompt(p.prompt()));
                    }
                    proof {
                        assert(resume_step(pre1, mid, p, line@));
                    }
                    return;
                },
            }
        }
        if self.strength < 1 {
            self.die();
        }
        let mode = self.curr_mode;
        match mode {
            GameMode::AskName => self.tick_ask_name_mode(),
            GameMode::Primary => self.tick_primary_mode(),
            GameMode::Inventory => self.tick_inventory_mode(),
            GameMode::EatFood => self.tick_eat_food_mode(),
            GameMode::Combat(cs) => self.tick_combat_mode(&cs),
            GameMode::Finished => {},
            GameMode::Debug => self.tick_debug_mode(),
        }
    }
}

/// What a failed number parse does: complain and ask the same question
/// again; nothing else moves, and in particular the mode stays put.
pub open spec fn number_reprompt_step(pre: GameState, post: GameState) -> bool {
    &&& post == (GameState { effects: post.effects, read_input_again: true, ..pre })
    &&& post.effects@ == pre.effects@.push(Effect::NotANumber)
}

/// What resuming the stored continuation with one line of input does.
pub open spec fn resume_step(
    pre: GameState,
    post: GameState,
    p: PendingInput,
    line: Seq<char>,
) -> bool {
    match p {
        PendingInput::AskName => name_input_step(pre, post, line),
        PendingInput::Primary => crate::primary_mode::primary_input_step(pre, post, line),
        PendingInput::Inventory => crate::inventory::inventory_input_step(pre, post, line),
        PendingInput::EatAmount => match parse_i32_spec(line) {
            Some(v) => eat_amount_step(pre, post, v),
            None => number_reprompt_step(pre, post),
        },
        PendingInput::BuyAmount(item) => match parse_i32_spec(line) {
            Some(v) => crate::inventory::buy_amount_step(pre, post, item, v),
            None => number_reprompt_step(pre, post),
        },
        PendingInput::FleeQuery(cs) => crate::combat::flee_query_step(pre, post, cs, line),
        PendingInput::FightConfirm(cs) => crate::combat::fight_confirm_step(pre, post, cs),
        PendingInput::FleeDirection => crate::combat::flee_direction_step(pre, post, line),
        PendingInput::Debug => crate::debug_mode::debug_input_step(pre, post, line),
    }
}

/// What one tick with no continuation pending does: the current mode's
/// handler, exactly once.
pub open spec fn dispatch_step(pre: GameState, post: GameState) -> bool {
    match pre.curr_mode {
        GameMode::AskName => asked(pre, post, PendingInput::AskName),
        GameMode::Primary => crate::primary_mode::primary_step(pre, post),
        GameMode::Inventory => crate::inventory::inventory_step(pre, post),
        GameMode::EatFood => eat_food_step(pre, post),
        GameMode::Combat(cs) => crate::combat::combat_step(pre, post, cs),
        GameMode::Finished => post == pre,
        GameMode::Debug => asked(pre, post, PendingInput::Debug),
    }
}

/// What one whole tick does.  Within one tick, at most one of
/// "continuation resumed" and "mode dispatched" happens, never both.
pub open spec fn tick_step(pre: GameState, post: GameState, input: Option<String>) -> bool {
    if pre.input_callback is Some {
        let p = pre.input_callback->Some_0;
        match input {
            None => post == pre,
            Some(line) => exists|pre1: GameState, mid: GameState|
                {
                    &&& #[trigger] resume_step(pre1, mid, p, line@)
                    &&& pre1 == (GameState {
                        input_callback: None,
                        is_processing_input: true,
                        effects: pre1.effects,
                        ..pre
                    })
                    &&& pre1.effects@ == pre.effects@.push(Effect::Prompt(""))
                    &&& if mid.read_input_again {
                        &&& post == (GameState {
                            effects: post.effects,
                            read_input_again: false,
                            input_callback: Some(p),
                            is_processing_input: false,
                            ..mid
                        })
                        &&& post.effects@ == mid.effects@.push(Effect::Prompt(p.prompt_spec()))
                    } else {
                        post == (GameState { is_processing_input: false, ..mid })
                    }
                },
        }
    } else if pre.strength < 1 {
        death_step(pre, post)
    } else {
        dispatch_step(pre, post)
    }
}

/// The adjusted ferocity factor stays small whatever the equipment:
/// no bigger than the unarmed penalty can make a base of 20.
pub proof fn lemma_modified_ff_in_range(armor: bool, axe: bool, sword: bool, base: int)
    requires
        0 <= base <= 20,
    ensures
        0 <= crate::combat::modified_ff_spec(armor, axe, sword, base) <= 24,
{
}

/// Resuming a continuation keeps the game structurally well formed:
/// the map and inventory stay well formed and every combat state in
/// range, whatever line the player typed.
pub proof fn lemma_resume_preserves_struct_ok(
    pre: GameState,
    post: GameState,
    p: PendingInput,
    line: Seq<char>,
)
    requires
        pre.struct_ok(),
        pending_wf(p),
        resume_step(pre, post, p, line),
    ensures
        post.struct_ok(),
{
    match p {
        PendingInput::Primary => {
            match crate::command::input_result(
                <crate::primary_mode::PrimaryCommand as crate::command::CommandProcessor<
                    crate::primary_mode::PrimaryCommand,
                >>::spec_commands(),
                line,
            ) {
                Some(cmd) => {
                    if cmd matches crate::primary_mode::PrimaryCommand::Go(_) {
                    } else {
                    }
                },
                None => {},
            }
        },
        _ => {},
    }
}

/// One tick keeps the game structurally well formed: the map and the
/// inventory stay well formed, every stored combat state stays in
/// range, and so the next tick's own demands are met again (only the
/// counter band needs an outside check).
pub proof fn lemma_tick_preserves_struct_ok(
    pre: GameState,
    post: GameState,
    input: Option<String>,
)
    requires
        pre.struct_ok(),
        tick_step(pre, post, input),
    ensures
        post.struct_ok(),
{
    if pre.input_callback is Some {
        match input {
            None => {},
            Some(line) => {
                let p = pre.input_callback->Some_0;
                let (pre1, mid) = choose|pre1: GameState, mid: GameState|
                    {
                        &&& #[trigger] resume_step(pre1, mid, p, line@)
                        &&& pre1 == (GameState {
                            input_callback: None,
                            is_processing_input: true,
                            effects: pre1.effects,
                            ..pre
                        })
                        &&& pre1.effects@ == pre.effects@.push(Effect::Prompt(""))
                        &&& if mid.read_input_again {
                            &&& post == (GameState {
                                effects: post.effects,
                                read_input_again: false,
                                input_callback: Some(p),
                                is_processing_input: false,
                                ..mid
                            })
                            &&& post.effects@ == mid.effects@.push(
                                Effect::Prompt(p.prompt_spec()),
                            )
                        } else {
                            post == (GameState { is_processing_input: false, ..mid })
                        }
                    };
                lemma_resume_preserves_struct_ok(pre1, mid, p, line@);
            },
        }
    } else if pre.strength < 1 {
    } else {
        match pre.curr_mode {
            GameMode::Primary => {
                if pre.show_desc && pre.curr_room != RoomId::Lift && pre.curr_room
                    != RoomId::Exit && pre.spec_can_see() && pre.map.spec_room(
                    pre.curr_room,
                ).contents matches Some(crate::game_map::RoomContents::Terror(_)) {
                    let m = pre.map.spec_room(pre.curr_room).contents->Some_0->Terror_0;
                    lemma_modified_ff_in_range(
                        pre.items.spec_owns(Item::Armor),
                        pre.items.spec_owns(Item::Axe),
                        pre.items.spec_owns(Item::Sword),
                        m.ferocity_factor_spec(),
                    );
                }
            },
            _ => {},
        }
    }
}

/// A failed number parse never moves the game's mode: the continuation
/// complains, asks the same question again, and leaves everything else
/// (mode included) exactly as it was.
pub proof fn lemma_parse_failure_keeps_mode(
    pre: GameState,
    post: GameState,
    p: PendingInput,
    line: Seq<char>,
)
    requires
        p.expects_number(),
        parse_i32_spec(line) is None,
        resume_step(pre, post, p, line),
    ensures
        post.curr_mode == pre.curr_mode,
        post.read_input_again,
        post.effects@ == pre.effects@.push(Effect::NotANumber),
{
}

/// A battle tick never raises the ferocity factor: it stays put, or a
/// wound erodes it to exactly five sixths (rounded down).
pub proof fn lemma_battle_never_raises_ferocity(
    pre: GameState,
    post: GameState,
    cs: CombatState,
)
    requires
        0 <= cs.ff,
        crate::combat::battle_step(pre, post, cs),
    ensures
        post.curr_mode matches GameMode::Combat(cs2) ==> 0 <= cs2.ff <= cs.ff && (cs2.ff == cs.ff
            || cs2.ff == 5 * cs.ff / 6),
{
}

/// The aftermath's two outcomes: victory adds exactly one kill and
/// leaves strength alone, mercy halves strength (rounding down) and
/// adds no kill; either way the room is cleared and play returns to
/// the primary mode.
pub proof fn lemma_aftermath_outcomes(pre: GameState, post: GameState, cs: CombatState)
    requires
        pre.map.wf(),
        pre.monsters_killed < i32::MAX,
        crate::combat::aftermath_step(pre, post, cs),
    ensures
        post.curr_mode == GameMode::Primary,
        post.map.spec_room(pre.curr_room).contents is None,
        (post.monsters_killed == pre.monsters_killed + 1 && post.strength == pre.strength) || (
        post.monsters_killed == pre.monsters_killed && post.strength == pre.strength as int / 2),
{
    assert(-0x8000_0000 <= pre.strength as int / 2);
    assert(pre.strength as int / 2 < 0x8000_0000);
}

} // verus!
