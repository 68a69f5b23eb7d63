use vstd::prelude::*;
use crate::combat::{modified_ff_spec, CombatPhase, CombatState};
use crate::command::{input_effects, input_result, CommandInfo, CommandProcessor};
use crate::direction::Direction;
use crate::game_map::{RoomContents, RoomId};
use crate::game_state::{
    asked, finish_step, spec_score, GameMode, GameState, PendingInput, STRENGTH_LOSS_PER_MOVE,
    TALLY_PER_MOVE,
};
use crate::items::Item;
use crate::platform::{drawn_roll, script_peek, Effect};
use crate::util::names_view;

verus! {

/// A player's strength at or below this draws a warning.
pub const MIN_STRENGTH_WARNING: i32 = 10;

/// What the player can do while exploring.
#[derive(Debug, Copy, Clone)]
pub enum PrimaryCommand {
    /// Walk in a direction.
    Go(Direction),
    /// Open the provisions shop.
    Inventory,
    /// Describe the room again.
    Look,
    /// Eat some food.
    EatFood,
    /// Invoke the magic amulet.
    MagicAmulet,
    /// Pick up the room's treasure.
    PickUpTreasure,
    /// Give up.
    Quit,
    /// Enter the maintenance console (hidden; needs enabling).
    Debug,
}

impl CommandProcessor<PrimaryCommand> for PrimaryCommand {
    open spec fn spec_commands() -> Seq<CommandInfo<PrimaryCommand>> {
        seq![
            CommandInfo {
                key: 'n',
                desc: "go north",
                cmd: PrimaryCommand::Go(Direction::North),
                hidden: false,
            },
            CommandInfo {
                key: 's',
                desc: "go south",
                cmd: PrimaryCommand::Go(Direction::South),
                hidden: false,
            },
            CommandInfo {
                key: 'e',
                desc: "go east",
                cmd: PrimaryCommand::Go(Direction::East),
                hidden: false,
            },
            CommandInfo {
                key: 'w',
                desc: "go west",
                cmd: PrimaryCommand::Go(Direction::West),
                hidden: false,
            },
            CommandInfo {
                key: 'u',
                desc: "go up",
                cmd: PrimaryCommand::Go(Direction::Up),
                hidden: false,
            },
            CommandInfo {
                key: 'd',
                desc: "go down",
                cmd: PrimaryCommand::Go(Direction::Down),
                hidden: false,
            },
            CommandInfo {
                key: 'c',
                desc: "consume food",
                cmd: PrimaryCommand::EatFood,
                hidden: false,
            },
            CommandInfo {
                key: 'm',
                desc: "use magic amulet (if equipped)",
                cmd: PrimaryCommand::MagicAmulet,
                hidden: false,
            },
            CommandInfo {
                key: 'i',
                desc: "inventory/buy provisions",
                cmd: PrimaryCommand::Inventory,
                hidden: false,
            },
            CommandInfo {
                key: 'p',
                desc: "pick up treasure",
                cmd: PrimaryCommand::PickUpTreasure,
                hidden: false,
            },
            CommandInfo { key: 'l', desc: "look around", cmd: PrimaryCommand::Look, hidden: false },
            CommandInfo { key: 'q', desc: "quit", cmd: PrimaryCommand::Quit, hidden: false },
            CommandInfo { key: '`', desc: "debug mode", cmd: PrimaryCommand::Debug, hidden: true },
        ]
    }

    fn get_command_info() -> (infos: Vec<CommandInfo<PrimaryCommand>>)
        ensures
            infos@ == Self::spec_commands(),
    {
        let infos = vec![
            CommandInfo::new('n', "go north", PrimaryCommand::Go(Direction::North)),
            CommandInfo::new('s', "go south", PrimaryCommand::Go(Direction::South)),
            CommandInfo::new('e', "go east", PrimaryCommand::Go(Direction::East)),
            CommandInfo::new('w', "go west", PrimaryCommand::Go(Direction::West)),
            CommandInfo::new('u', "go up", PrimaryCommand::Go(Direction::Up)),
            CommandInfo::new('d', "go down", PrimaryCommand::Go(Direction::Down)),
            CommandInfo::new('c', "consume food", PrimaryCommand::EatFood),
            CommandInfo::new('m', "use magic amulet (if equipped)", PrimaryCommand::MagicAmulet),
            CommandInfo::new('i', "inventory/buy provisions", PrimaryCommand::Inventory),
            CommandInfo::new('p', "pick up treasure", PrimaryCommand::PickUpTreasure),
            CommandInfo::new('l', "look around", PrimaryCommand::Look),
            CommandInfo::new('q', "quit", PrimaryCommand::Quit),
            CommandInfo::new('`', "debug mode", PrimaryCommand::Debug).hidden(),
        ];
        proof {
            assert(infos@ =~= Self::spec_commands());
        }
        infos
    }
}

/// The names of the portable gear the player owns, in catalog order.
pub open spec fn item_names_spec(s: GameState) -> Seq<Seq<char>> {
    (if s.items.spec_owns(Item::Axe) {
        seq!["an axe"@]
    } else {
        Seq::empty()
    }) + (if s.items.spec_owns(Item::Sword) {
        seq!["a sword"@]
    } else {
        Seq::empty()
    }) + (if s.items.spec_owns(Item::Amulet) {
        seq!["the magic amulet"@]
    } else {
        Seq::empty()
    })
}

/// The lines of the status report: a low-strength warning, strength,
/// wealth, food when there is any, armor when worn, and the gear list
/// when it is not empty.
pub open spec fn status_report_effects(s: GameState) -> Seq<Effect> {
    vitals_effects(s) + gear_effects(s)
}

/// The counters half of the status report.
pub open spec fn vitals_effects(s: GameState) -> Seq<Effect> {
    (if s.strength <= MIN_STRENGTH_WARNING {
        seq![Effect::StrengthWarning]
    } else {
        Seq::empty()
    }) + seq![Effect::StrengthReport(s.strength)] + seq![
        if s.wealth > 0 {
            Effect::WealthAmount(s.wealth)
        } else {
            Effect::Text("You have no money.")
        },
    ] + (if s.items.spec_quantity(Item::Food) > 0 {
        seq![Effect::FoodCount(s.items.spec_quantity(Item::Food) as i32)]
    } else {
        Seq::empty()
    }) + (if s.items.spec_owns(Item::Armor) {
        seq![Effect::Text("You are wearing armor.")]
    } else {
        Seq::empty()
    })
}

/// The gear half of the status report.
pub open spec fn gear_effects(s: GameState) -> Seq<Effect> {
    if s.items.spec_owns(Item::Axe) || s.items.spec_owns(Item::Sword) || s.items.spec_owns(
        Item::Amulet,
    ) {
        seq![
            Effect::Carrying {
                axe: s.items.spec_owns(Item::Axe),
                sword: s.items.spec_owns(Item::Sword),
                amulet: s.items.spec_owns(Item::Amulet),
            },
        ]
    } else {
        Seq::empty()
    }
}

/// The lines describing the current room: its description, and its
/// treasure if it holds any.
pub open spec fn describe_room_effects(s: GameState) -> Seq<Effect> {
    let c = s.map.spec_room(s.curr_room).contents;
    seq![Effect::Text(s.map.spec_room(s.curr_room).description)] + (
    if c is Some && c->Some_0 is Treasure {
        seq![Effect::TreasureHere(c->Some_0->Treasure_0)]
    } else {
        Seq::empty()
    })
}

/// Everything shown on entering an ordinary room, before any combat
/// alarm: a cleared screen, the status report, a blank line, and the
/// room's description (or darkness).
pub open spec fn room_show_effects(s: GameState) -> Seq<Effect> {
    seq![Effect::ClearScreen] + status_report_effects(s) + seq![Effect::Text("")] + (
    if !s.spec_can_see() {
        seq![Effect::Text("It is too dark to see anything.")]
    } else {
        describe_room_effects(s)
    })
}

/// The one-time help hint.
pub open spec fn hint_effects(s: GameState) -> Seq<Effect> {
    if !s.shown_hint {
        seq![Effect::Text("(You can press 'h' for help at any time.)")]
    } else {
        Seq::empty()
    }
}

/// What processing one primary command does.
pub open spec fn process_cmd_step(pre: GameState, post: GameState, cmd: PrimaryCommand) -> bool {
    match cmd {
        PrimaryCommand::Go(dir) => move_step(pre, post, dir),
        PrimaryCommand::Inventory => post == (GameState {
            curr_mode: GameMode::Inventory,
            show_desc: true,
            ..pre
        }),
        PrimaryCommand::PickUpTreasure => pick_up_step(pre, post),
        PrimaryCommand::Look => post == (GameState { show_desc: true, ..pre }),
        PrimaryCommand::EatFood => if !pre.items.spec_owns(Item::Food) {
            &&& post == (GameState { effects: post.effects, ..pre })
            &&& post.effects@ == pre.effects@.push(Effect::Text("You have no food!"))
        } else {
            post == (GameState { curr_mode: GameMode::EatFood, show_desc: true, ..pre })
        },
        PrimaryCommand::MagicAmulet => amulet_step(pre, post),
        PrimaryCommand::Quit => finish_step(pre, post),
        PrimaryCommand::Debug => if pre.debug_allowed {
            post == (GameState { curr_mode: GameMode::Debug, show_desc: true, ..pre })
        } else {
            &&& post == (GameState { effects: post.effects, ..pre })
            &&& post.effects@ == pre.effects@.push(
                Effect::Text("I have no idea what you're talking about."),
            )
        },
    }
}

/// What walking in a direction does (discarding whether it worked).
pub open spec fn move_step(pre: GameState, post: GameState, dir: Direction) -> bool {
    match pre.map.spec_room(pre.curr_room).spec_exit(dir) {
        None => {
            &&& post == (GameState { effects: post.effects, ..pre })
            &&& post.effects@ == pre.effects@.push(Effect::Text("You can't go that way."))
        },
        Some(to) => post == (GameState {
            curr_room: to,
            show_desc: true,
            tally: (pre.tally + TALLY_PER_MOVE) as i32,
            strength: (pre.strength - STRENGTH_LOSS_PER_MOVE) as i32,
            ..pre
        }),
    }
}

/// What picking up treasure does: in the dark nothing is seen; in the
/// light a hoard is banked (the move toll applies) and the room is
/// cleared; an empty room is remarked on.
pub open spec fn pick_up_step(pre: GameState, post: GameState) -> bool {
    if !pre.spec_can_see() {
        &&& post == (GameState { effects: post.effects, ..pre })
        &&& post.effects@ == pre.effects@.push(
            Effect::Text("It's too dark to see any treasure here."),
        )
    } else if pre.map.spec_room(pre.curr_room).contents matches Some(
        RoomContents::Treasure(_),
    ) {
        let amt = pre.map.spec_room(pre.curr_room).contents->Some_0->Treasure_0;
        &&& post == (GameState {
            effects: post.effects,
            map: post.map,
            wealth: (pre.wealth + amt) as i32,
            tally: (pre.tally + TALLY_PER_MOVE) as i32,
            strength: (pre.strength - STRENGTH_LOSS_PER_MOVE) as i32,
            ..pre
        })
        &&& post.map.rooms@ == pre.map.rooms@.update(
            pre.curr_room.index_spec(),
            (crate::game_map::Room { contents: None, ..pre.map.spec_room(pre.curr_room) }),
        )
        &&& post.effects@ == pre.effects@.push(Effect::TreasureCollected(amt))
    } else {
        &&& post == (GameState { effects: post.effects, ..pre })
        &&& post.effects@ == pre.effects@.push(
            Effect::Text("There is no treasure to pick up here."),
        )
    }
}

/// What invoking the amulet does: without it, a taunt; with it, a jump
/// to a room chosen uniformly among the other rooms, with the usual
/// move toll.
pub open spec fn amulet_step(pre: GameState, post: GameState) -> bool {
    if pre.items.spec_owns(Item::Amulet) {
        exists|r2: RoomId|
            {
                &&& #[trigger] drawn_roll(r2.index_spec())
                &&& r2 != pre.curr_room
                &&& (pre.rng.scripted ==> r2.index_spec() == ({
                    let j = script_peek(pre.rng, 0) % 18;
                    if j >= pre.curr_room.index_spec() {
                        j + 1
                    } else {
                        j as int
                    }
                }))
                &&& post == (GameState {
                    effects: post.effects,
                    rng: post.rng,
                    curr_room: r2,
                    show_desc: true,
                    tally: (pre.tally + TALLY_PER_MOVE) as i32,
                    strength: (pre.strength - STRENGTH_LOSS_PER_MOVE) as i32,
                    ..pre
                })
                &&& post.effects@ == pre.effects@ + seq![
                    Effect::Text("You invoke the magic amulet and are whisked away to somewhere else..."),
                    Effect::Pause,
                ]
                &&& post.rng.scripted == pre.rng.scripted
                &&& post.rng.script == pre.rng.script
            }
    } else {
        &&& post == (GameState { effects: post.effects, ..pre })
        &&& post.effects@ == pre.effects@.push(Effect::NoAmulet)
    }
}

/// One tick in the primary mode.  With a pending description: the lift
/// carries the player down; the exit ends the game in triumph; any
/// other room is described in full, and a lurking monster starts
/// combat at once.  Otherwise the mode just asks what to do.
pub open spec fn primary_step(pre: GameState, post: GameState) -> bool {
    if pre.show_desc {
        if pre.curr_room == RoomId::Lift {
            &&& post == (GameState {
                effects: post.effects,
                curr_room: RoomId::RearVestibule,
                ..pre
            })
            &&& post.effects@ == pre.effects@ + seq![
                Effect::Text("You have entered the lift..."),
                Effect::Pause,
                Effect::Text("It slowly descends..."),
                Effect::Pause,
            ]
        } else if pre.curr_room == RoomId::Exit {
            &&& post == (GameState {
                effects: post.effects,
                curr_mode: GameMode::Finished,
                ..pre
            })
            &&& post.effects@ == pre.effects@ + seq![
                Effect::Text("You've done it!!"),
                Effect::Pause,
                Effect::Text("That was the exit from the castle."),
                Effect::Pause,
                Effect::Succeeded,
                Effect::Text("You managed to get out of the castle."),
                Effect::Pause,
                Effect::Text("Well done!"),
                Effect::Pause,
                Effect::Score(spec_score(pre)),
                Effect::Text("Farewell."),
            ]
        } else {
            if pre.spec_can_see() && pre.map.spec_room(pre.curr_room).contents matches Some(
                RoomContents::Terror(_),
            ) {
                let m = pre.map.spec_room(pre.curr_room).contents->Some_0->Terror_0;
                let ff = modified_ff_spec(
                    pre.items.spec_owns(Item::Armor),
                    pre.items.spec_owns(Item::Axe),
                    pre.items.spec_owns(Item::Sword),
                    m.ferocity_factor_spec(),
                );
                &&& post == (GameState {
                    effects: post.effects,
                    curr_mode: GameMode::Combat(
                        CombatState { phase: CombatPhase::Preparation, enemy: m, ff: ff as i32 },
                    ),
                    show_desc: true,
                    ..pre
                })
                &&& post.effects@ == pre.effects@ + room_show_effects(pre) + seq![
                    Effect::Text("Danger... There is a monster here...."),
                    Effect::Pause,
                    Effect::MonsterHere(m),
                    Effect::DangerLevel(ff as i32),
                    Effect::Pause,
                ]
            } else {
                &&& post == (GameState {
                    effects: post.effects,
                    shown_hint: true,
                    show_desc: false,
                    input_callback: Some(PendingInput::Primary),
                    read_input_again: false,
                    ..pre
                })
                &&& post.effects@ == pre.effects@ + room_show_effects(pre) + hint_effects(pre)
                    + seq![
                    Effect::Text(""),
                    Effect::Prompt(PendingInput::Primary.prompt_spec()),
                ]
            }
        }
    } else {
        asked(pre, post, PendingInput::Primary)
    }
}

/// What answering the primary prompt does: a recognized command is
/// processed; anything else prints help or a complaint.
pub open spec fn primary_input_step(pre: GameState, post: GameState, line: Seq<char>) -> bool {
    let io = input_effects(PrimaryCommand::spec_commands(), line);
    match input_result(PrimaryCommand::spec_commands(), line) {
        Some(cmd) => process_cmd_step(pre, post, cmd),
        None => {
            &&& post == (GameState { effects: post.effects, ..pre })
            &&& post.effects@ == pre.effects@ + io
        },
    }
}

impl GameState {
    /// The counters half of the status report.
    fn print_vitals(&mut self)
        requires
            old(self).items.wf(),
        ensures
            *final(self) == (GameState { effects: final(self).effects, ..*old(self) }),
            final(self).effects@ == old(self).effects@ + vitals_effects(*old(self)),
    {
        if self.strength <= MIN_STRENGTH_WARNING {
            self.effects.push(Effect::StrengthWarning);
        }
        self.effects.push(Effect::StrengthReport(self.strength));
        self.print_wealth();
        if self.items.get_quantity(Item::Food) > 0 {
            self.print_food();
        }
        if self.items.owns(Item::Armor) {
            self.effects.push(Effect::Text("You are wearing armor."));
        }
        proof {
            assert(final(self).effects@ =~= old(self).effects@ + vitals_effects(*old(self)));
        }
    }

    /// The gear half of the status report.
    fn print_gear(&mut self)
        requires
            old(self).items.wf(),
        ensures
            *final(self) == (GameState { effects: final(self).effects, ..*old(self) }),
            final(self).effects@ == old(self).effects@ + gear_effects(*old(self)),
    {
        let axe = self.items.owns(Item::Axe);
        let sword = self.items.owns(Item::Sword);
        let amulet = self.items.owns(Item::Amulet);
        if axe || sword || amulet {
            self.effects.push(Effect::Carrying { axe, sword, amulet });
        }
        proof {
            assert(final(self).effects@ =~= old(self).effects@ + gear_effects(*old(self)));
        }
    }

    /// The status report shown above a room description.
    pub fn print_status_report(&mut self)
        requires
            old(self).items.wf(),
        ensures
            *final(self) == (GameState { effects: final(self).effects, ..*old(self) }),
            final(self).effects@ == old(self).effects@ + status_report_effects(*old(self)),
    {
        self.print_vitals();
        self.print_gear();
        proof {
            assert(final(self).effects@ =~= old(self).effects@ + status_report_effects(
                *old(self),
            ));
        }
    }

    /// The names of the portable gear the player owns.
    pub fn get_item_names(&self) -> (names: Vec<&'static str>)
        requires
            self.items.wf(),
        ensures
            names_view(names@) == item_names_spec(*self),
    {
        let mut names: Vec<&'static str> = Vec::new();
        if self.items.owns(Item::Axe) {
            names.push(Item::Axe.as_str());
        }
        if self.items.owns(Item::Sword) {
            names.push(Item::Sword.as_str());
        }
        if self.items.owns(Item::Amulet) {
            names.push(Item::Amulet.as_str());
        }
        proof {
            assert(names_view(names@) =~= item_names_spec(*self));
        }
        names
    }

    /// Jump to a random other room, as the amulet commands.
    #[verifier::rlimit(100)]
    #[verifier::spinoff_prover]
    fn use_amulet(&mut self)
        requires
            old(self).items.wf(),
            old(self).tally + TALLY_PER_MOVE <= i32::MAX,
            old(self).strength - STRENGTH_LOSS_PER_MOVE >= i32::MIN,
        ensures
            amulet_step(*old(self), *final(self)),
    {
        if self.items.owns(Item::Amulet) {
            self.effects.push(
                Effect::Text("You invoke the magic amulet and are whisked away to somewhere else..."),
            );
            self.pause();
            let here = self.curr_room.index();
            let j = self.rng.uniform_below(18) as usize;
            let idx = if j >= here {
                j + 1
            } else {
                j
            };
            let room_id = match <RoomId as crate::sized_enum::SizedEnum>::from_index(idx) {
                Some(r) => r,
                None => vstd::pervasive::unreached(),
            };
            self.curr_room = room_id;
            self.show_desc = true;
            self.process_move();
            proof {
                crate::game_map::lemma_room_id_index();
                assert(drawn_roll(final(self).curr_room.index_spec()));
                assert(final(self).effects@ =~= old(self).effects@ + seq![
                    Effect::Text("You invoke the magic amulet and are whisked away to somewhere else..."),
                    Effect::Pause,
                ]);
            }
        } else {
            self.effects.push(Effect::NoAmulet);
        }
    }

    /// Describe the current room and any treasure in it.
    fn describe_room(&mut self)
        requires
            old(self).map.wf(),
        ensures
            *final(self) == (GameState { effects: final(self).effects, ..*old(self) }),
            final(self).effects@ == old(self).effects@ + describe_room_effects(*old(self)),
    {
        let room = self.map.room(self.curr_room);
        let desc = room.description;
        let contents = room.contents;
        self.effects.push(Effect::Text(desc));
        if let Some(RoomContents::Treasure(amount)) = contents {
            self.effects.push(Effect::TreasureHere(amount));
        }
        proof {
            assert(final(self).effects@ =~= old(self).effects@ + describe_room_effects(
                *old(self),
            ));
        }
    }

    /// Carry out one primary command.
    pub fn process_cmd(&mut self, cmd: PrimaryCommand)
        requires
            old(self).wf(),
        ensures
            process_cmd_step(*old(self), *final(self), cmd),
    {
        match cmd {
            PrimaryCommand::Go(dir) => {
                self.try_to_move(dir);
            },
            PrimaryCommand::Inventory => self.set_mode(GameMode::Inventory),
            PrimaryCommand::PickUpTreasure => {
                if !self.can_player_see() {
                    self.effects.push(Effect::Text("It's too dark to see any treasure here."));
                } else {
                    let contents = self.map.room(self.curr_room).contents;
                    if let Some(RoomContents::Treasure(amt)) = contents {
                        self.effects.push(Effect::TreasureCollected(amt));
                        self.wealth = self.wealth + amt as i32;
                        self.map.mut_room(self.curr_room).contents = None;
                        self.process_move();
                    } else {
                        self.effects.push(Effect::Text("There is no treasure to pick up here."));
                    }
                }
            },
            PrimaryCommand::Look => {
                self.show_desc = true;
            },
            PrimaryCommand::EatFood => {
                if !self.items.owns(Item::Food) {
                    self.effects.push(Effect::Text("You have no food!"));
                } else {
                    self.set_mode(GameMode::EatFood);
                }
            },
            PrimaryCommand::MagicAmulet => self.use_amulet(),
            PrimaryCommand::Quit => self.finish_game(),
            PrimaryCommand::Debug => {
                if self.debug_allowed {
                    self.set_mode(GameMode::Debug);
                } else {
                    self.effects.push(Effect::Text("I have no idea what you're talking about."));
                }
            },
        }
    }

    /// Show an ordinary room: the status report, then the description
    /// or darkness, and the combat alarm if a visible monster lurks.
    #[verifier::rlimit(100)]
    #[verifier::spinoff_prover]
    fn show_current_room(&mut self) -> (started: bool)
        requires
            old(self).wf(),
        ensures
            started == (old(self).spec_can_see() && old(self).map.spec_room(
                old(self).curr_room,
            ).contents matches Some(RoomContents::Terror(_))),
            !started ==> *final(self) == (GameState {
                effects: final(self).effects,
                ..*old(self)
            }) && final(self).effects@ == old(self).effects@ + room_show_effects(*old(self)),
            started ==> ({
                let m = old(self).map.spec_room(old(self).curr_room).contents->Some_0->Terror_0;
                let ff = modified_ff_spec(
                    old(self).items.spec_owns(Item::Armor),
                    old(self).items.spec_owns(Item::Axe),
                    old(self).items.spec_owns(Item::Sword),
                    m.ferocity_factor_spec(),
                );
                &&& *final(self) == (GameState {
                    effects: final(self).effects,
                    curr_mode: GameMode::Combat(
                        CombatState { phase: CombatPhase::Preparation, enemy: m, ff: ff as i32 },
                    ),
                    show_desc: true,
                    ..*old(self)
                })
                &&& final(self).effects@ == old(self).effects@ + room_show_effects(*old(self))
                    + seq![
                    Effect::Text("Danger... There is a monster here...."),
                    Effect::Pause,
                    Effect::MonsterHere(m),
                    Effect::DangerLevel(ff as i32),
                    Effect::Pause,
                ]
            }),
    {
        self.effects.push(Effect::ClearScreen);
        self.print_status_report();
        self.effects.push(Effect::Text(""));
        if !self.can_player_see() {
            self.effects.push(Effect::Text("It is too dark to see anything."));
            proof {
                assert(final(self).effects@ =~= old(self).effects@ + room_show_effects(
                    *old(self),
                ));
            }
            false
        } else {
            self.describe_room();
            proof {
                assert(self.effects@ =~= old(self).effects@ + room_show_effects(*old(self)));
            }
            self.maybe_start_combat()
        }
    }

    /// One tick while exploring.
    pub fn tick_primary_mode(&mut self)
        requires
            old(self).wf(),
            old(self).input_callback is None,
        ensures
            primary_step(*old(self), *final(self)),
    {
        if self.show_desc {
            if self.curr_room == RoomId::Lift {
                self.effects.push(Effect::Text("You have entered the lift..."));
                self.pause();
                self.effects.push(Effect::Text("It slowly descends..."));
                self.pause();
                self.curr_room = RoomId::RearVestibule;
                proof {
                    assert(final(self).effects@ =~= old(self).effects@ + seq![
                        Effect::Text("You have entered the lift..."),
                        Effect::Pause,
                        Effect::Text("It slowly descends..."),
                        Effect::Pause,
                    ]);
                }
                return;
            }
            if self.curr_room == RoomId::Exit {
                self.effects.push(Effect::Text("You've done it!!"));
                self.pause();
                self.effects.push(Effect::Text("That was the exit from the castle."));
                self.pause();
                self.effects.push(Effect::Succeeded);
                self.effects.push(Effect::Text("You managed to get out of the castle."));
                self.pause();
                self.effects.push(Effect::Text("Well done!"));
                self.pause();
                self.finish_game();
                proof {
                    assert(final(self).effects@ =~= old(self).effects@ + seq![
                        Effect::Text("You've done it!!"),
                        Effect::Pause,
                        Effect::Text("That was the exit from the castle."),
                        Effect::Pause,
                        Effect::Succeeded,
                        Effect::Text("You managed to get out of the castle."),
                        Effect::Pause,
                        Effect::Text("Well done!"),
                        Effect::Pause,
                        Effect::Score(spec_score(*old(self))),
                        Effect::Text("Farewell."),
                    ]);
                }
                return;
            }
            if self.show_current_room() {
                return;
            }
            if !self.shown_hint {
                self.effects.push(Effect::Text("(You can press 'h' for help at any time.)"));
                self.shown_hint = true;
            }
            self.effects.push(Effect::Text(""));
            self.show_desc = false;
            self.ask(PendingInput::Primary);
            proof {
                assert(final(self).effects@ =~= old(self).effects@ + room_show_effects(
                    *old(self),
                ) + hint_effects(*old(self)) + seq![
                    Effect::Text(""),
                    Effect::Prompt(PendingInput::Primary.prompt_spec()),
                ]);
            }
            return;
        }
        self.ask(PendingInput::Primary);
    }

    /// The primary prompt's handler.
    pub fn handle_primary_input(&mut self, line: &str)
        requires
            old(self).wf(),
            old(self).input_callback is None,
        ensures
            primary_input_step(*old(self), *final(self), line@),
    {
        let cmd = PrimaryCommand::get_from_input(line, &mut self.effects);
        if let Some(c) = cmd {
            self.process_cmd(c);
        }
    }
}

} // verus!
