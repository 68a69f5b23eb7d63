use vstd::prelude::*;
use vstd::string::*;
use crate::command::{
    lower_ascii, lower_ascii_spec, input_effects, input_result, CommandInfo, CommandProcessor,
};
use crate::direction::Direction;
use crate::game_map::Room;
use crate::game_state::{
    asked, combat_wf, GameMode, GameState, PendingInput, STRENGTH_LOSS_PER_MOVE, TALLY_PER_MOVE,
};
use crate::items::Item;
use crate::monsters::MonsterId;
use crate::platform::{drawn_coin, drawn_coins, drawn_roll, script_peek, Effect};

verus! {

/// Where a fight stands.
#[derive(Debug, Copy, Clone, PartialEq, Eq, Structural)]
pub enum CombatPhase {
    /// The player may still try to run.
    Preparation,
    /// Blows are being exchanged.
    Battle,
    /// The fight is being resolved.
    Aftermath,
}

/// A fight in progress: its phase, the monster, and the monster's
/// current (equipment-adjusted, battle-worn) ferocity factor.
#[derive(Debug, Copy, Clone, PartialEq, Eq, Structural)]
pub struct CombatState {
    pub phase: CombatPhase,
    pub enemy: MonsterId,
    pub ff: i32,
}

/// The one command understood while fleeing: a direction to run.
#[derive(Debug, Copy, Clone)]
pub enum FleeCommand {
    Flee(Direction),
}

impl CommandProcessor<FleeCommand> for FleeCommand {
    open spec fn spec_commands() -> Seq<CommandInfo<FleeCommand>> {
        seq![
            CommandInfo {
                key: 'n',
                desc: "flee north",
                cmd: FleeCommand::Flee(Direction::North),
                hidden: false,
            },
            CommandInfo {
                key: 's',
                desc: "flee south",
                cmd: FleeCommand::Flee(Direction::South),
                hidden: false,
            },
            CommandInfo {
                key: 'e',
                desc: "flee east",
                cmd: FleeCommand::Flee(Direction::East),
                hidden: false,
            },
            CommandInfo {
                key: 'w',
                desc: "flee west",
                cmd: FleeCommand::Flee(Direction::West),
                hidden: false,
            },
            CommandInfo {
                key: 'u',
                desc: "flee up",
                cmd: FleeCommand::Flee(Direction::Up),
                hidden: false,
            },
            CommandInfo {
                key: 'd',
                desc: "flee down",
                cmd: FleeCommand::Flee(Direction::Down),
                hidden: false,
            },
        ]
    }

    fn get_command_info() -> (infos: Vec<CommandInfo<FleeCommand>>)
        ensures
            infos@ == Self::spec_commands(),
    {
        let infos = vec![
            CommandInfo::new('n', "flee north", FleeCommand::Flee(Direction::North)),
            CommandInfo::new('s', "flee south", FleeCommand::Flee(Direction::South)),
            CommandInfo::new('e', "flee east", FleeCommand::Flee(Direction::East)),
            CommandInfo::new('w', "flee west", FleeCommand::Flee(Direction::West)),
            CommandInfo::new('u', "flee up", FleeCommand::Flee(Direction::Up)),
            CommandInfo::new('d', "flee down", FleeCommand::Flee(Direction::Down)),
        ];
        proof {
            assert(infos@ =~= Self::spec_commands());
        }
        infos
    }
}

/// The ferocity factor a monster fights at, given what the player owns
/// when the fight starts.  Armor scales first; the weapon branch then
/// compounds on the result.  All division is integer division.
pub open spec fn modified_ff_spec(armor: bool, axe: bool, sword: bool, base: int) -> int {
    let ff = if armor {
        3 * base / 4
    } else {
        base
    };
    if !axe && !sword {
        ff + ff / 5
    } else if axe && !sword {
        4 * ff / 5
    } else if sword && !axe {
        3 * ff / 4
    } else {
        3 * ff / 5
    }
}

/// The lines narrating what the player fights with.
pub open spec fn prepare_effects(pre: GameState) -> Seq<Effect> {
    (if pre.items.spec_owns(Item::Armor) {
        seq![Effect::Text("Your armor increases your chance of success.")]
    } else {
        Seq::empty()
    }) + weapon_lines(pre.items.spec_owns(Item::Axe), pre.items.spec_owns(Item::Sword)) + seq![
        Effect::Pause,
    ]
}

pub open spec fn weapon_lines(axe: bool, sword: bool) -> Seq<Effect> {
    if !axe && !sword {
        seq![
            Effect::Text("You have no weapons."),
            Effect::Text("You must fight with bare hands."),
        ]
    } else if axe && !sword {
        seq![Effect::Text("You have only an axe to fight with.")]
    } else if sword && !axe {
        seq![Effect::Text("You must fight with your sword.")]
    } else {
        seq![Effect::Text("You are dual-wielding a sword and axe like a boss.")]
    }
}

/// What entering a room with a monster does: the alarm is raised, the
/// danger level computed from the player's equipment, and combat begins
/// in its preparation phase.
pub open spec fn combat_started(pre: GameState, post: GameState, m: MonsterId) -> bool {
    let ff = modified_ff_spec(
        pre.items.spec_owns(Item::Armor),
        pre.items.spec_owns(Item::Axe),
        pre.items.spec_owns(Item::Sword),
        m.ferocity_factor_spec(),
    );
    &&& post == (GameState {
        effects: post.effects,
        curr_mode: GameMode::Combat(
            CombatState { phase: CombatPhase::Preparation, enemy: m, ff: ff as i32 },
        ),
        show_desc: true,
        ..pre
    })
    &&& post.effects@ == pre.effects@ + seq![
        Effect::Text("Danger... There is a monster here...."),
        Effect::Pause,
        Effect::MonsterHere(m),
        Effect::DangerLevel(ff as i32),
        Effect::Pause,
    ]
}

/// What answering the flee question does: an answer starting with 'y'
/// attempts the escape, which succeeds with probability 3 in 10 and
/// turns into a direction question; otherwise (or on failure) the
/// fight is confirmed.
pub open spec fn flee_query_step(
    pre: GameState,
    post: GameState,
    cs: CombatState,
    line: Seq<char>,
) -> bool {
    let wants_to_run = line.len() > 0 && lower_ascii_spec(line[0]) == 'y';
    if wants_to_run {
        exists|escaped: bool|
            {
                &&& #[trigger] drawn_coin(escaped)
                &&& (pre.rng.scripted ==> escaped == (script_peek(pre.rng, 0) % 100 < 30))
                &&& if escaped {
                    &&& post == (GameState {
                        effects: post.effects,
                        rng: post.rng,
                        curr_mode: GameMode::Primary,
                        show_desc: true,
                        input_callback: Some(PendingInput::FleeDirection),
                        read_input_again: false,
                        ..pre
                    })
                    &&& post.effects@ == pre.effects@.push(
                        Effect::Prompt(PendingInput::FleeDirection.prompt_spec()),
                    )
                } else {
                    &&& post == (GameState {
                        effects: post.effects,
                        rng: post.rng,
                        input_callback: Some(PendingInput::FightConfirm(cs)),
                        read_input_again: false,
                        ..pre
                    })
                    &&& post.effects@ == pre.effects@ + seq![
                        Effect::Text("Your craven attempt to escape has failed."),
                        Effect::Prompt(PendingInput::FightConfirm(cs).prompt_spec()),
                    ]
                }
                &&& post.rng.scripted == pre.rng.scripted
                &&& post.rng.script == pre.rng.script
            }
    } else {
        &&& post == (GameState {
            effects: post.effects,
            input_callback: Some(PendingInput::FightConfirm(cs)),
            read_input_again: false,
            ..pre
        })
        &&& post.effects@ == pre.effects@.push(
            Effect::Prompt(PendingInput::FightConfirm(cs).prompt_spec()),
        )
    }
}

/// What confirming the fight does: narrate the player's equipment and
/// enter the battle phase.  The description flag is left alone.
pub open spec fn fight_confirm_step(pre: GameState, post: GameState, cs: CombatState) -> bool {
    &&& post == (GameState {
        effects: post.effects,
        curr_mode: GameMode::Combat(CombatState { phase: CombatPhase::Battle, ..cs }),
        ..pre
    })
    &&& post.effects@ == pre.effects@ + prepare_effects(pre) + seq![Effect::Text("")]
}

/// What answering the flee-direction question does: a direction with an
/// exit is taken as a normal move (combat is already left); anything
/// else re-asks.
pub open spec fn flee_direction_step(pre: GameState, post: GameState, line: Seq<char>) -> bool {
    let cmd = input_result(FleeCommand::spec_commands(), line);
    let io = input_effects(FleeCommand::spec_commands(), line);
    match cmd {
        Some(FleeCommand::Flee(dir)) => {
            match pre.map.spec_room(pre.curr_room).spec_exit(dir) {
                Some(to) => {
                    &&& post == (GameState {
                        effects: post.effects,
                        curr_room: to,
                        show_desc: true,
                        tally: (pre.tally + TALLY_PER_MOVE) as i32,
                        strength: (pre.strength - STRENGTH_LOSS_PER_MOVE) as i32,
                        ..pre
                    })
                    &&& post.effects@ == pre.effects@ + io
                },
                None => {
                    &&& post == (GameState {
                        effects: post.effects,
                        read_input_again: true,
                        ..pre
                    })
                    &&& post.effects@ == pre.effects@ + io + seq![
                        Effect::Text("You can't go that way."),
                    ]
                },
            }
        },
        None => {
            &&& post == (GameState { effects: post.effects, read_input_again: true, ..pre })
            &&& post.effects@ == pre.effects@ + io
        },
    }
}

/// One battle tick: a coin for who is narrated attacking, a coin for
/// wounding the monster (which erodes its ferocity by exactly a sixth,
/// never raising it), a coin for being hit (five strength), and a
/// roughly-one-in-three roll that moves the fight to its aftermath.
/// The four draws are fresh and independent.
pub open spec fn battle_step(pre: GameState, post: GameState, cs: CombatState) -> bool {
    exists|enemy_attacks: bool, wound: bool, hit: bool, ended: bool|
        {
            let ff2 = if wound {
                5 * cs.ff / 6
            } else {
                cs.ff as int
            };
            let s2 = if hit {
                pre.strength - 5
            } else {
                pre.strength as int
            };
            &&& #[trigger] drawn_coins(enemy_attacks, wound, hit, ended)
            &&& (pre.rng.scripted ==> {
                &&& enemy_attacks == (script_peek(pre.rng, 0) % 100 < 50)
                &&& wound == (script_peek(pre.rng, 1) % 100 < 50)
                &&& hit == (script_peek(pre.rng, 2) % 100 < 50)
                &&& ended == (script_peek(pre.rng, 3) % 100 < 35)
            })
            &&& 0 <= ff2 <= cs.ff
            &&& post == (GameState {
                effects: post.effects,
                rng: post.rng,
                strength: s2 as i32,
                curr_mode: GameMode::Combat(
                    CombatState {
                        phase: if ended {
                            CombatPhase::Aftermath
                        } else {
                            cs.phase
                        },
                        enemy: cs.enemy,
                        ff: ff2 as i32,
                    },
                ),
                ..pre
            })
            &&& post.effects@ == pre.effects@ + seq![
                if enemy_attacks {
                    Effect::MonsterAttacks(cs.enemy)
                } else {
                    Effect::Text("You attack!")
                },
                Effect::Pause,
            ] + (if wound {
                seq![Effect::Text("You manage to wound it!"), Effect::Pause]
            } else {
                Seq::empty()
            }) + (if hit {
                seq![
                    if s2 > 0 {
                        Effect::Text("The monster wounds you!")
                    } else {
                        Effect::Text("The monster lands a killing blow!")
                    },
                    Effect::Pause,
                ]
            } else {
                Seq::empty()
            })
            &&& post.rng.scripted == pre.rng.scripted
            &&& post.rng.script == pre.rng.script
        }
}

/// The aftermath: a roll uniform in [0, 16) beats the worn-down
/// ferocity factor and the player wins (one more monster killed), or it
/// does not and the player is knocked down and halved in strength
/// before being shown mercy.  Either way the room's terror is cleared
/// and play returns to the primary mode.
pub open spec fn aftermath_step(pre: GameState, post: GameState, cs: CombatState) -> bool {
    exists|roll: int|
        {
            &&& #[trigger] drawn_roll(roll)
            &&& 0 <= roll < 16
            &&& (pre.rng.scripted ==> roll == script_peek(pre.rng, 0) % 16)
            &&& post.map.rooms@ == pre.map.rooms@.update(
                pre.curr_room.index_spec(),
                (Room { contents: None, ..pre.map.spec_room(pre.curr_room) }),
            )
            &&& if roll > cs.ff {
                &&& post == (GameState {
                    effects: post.effects,
                    rng: post.rng,
                    map: post.map,
                    monsters_killed: (pre.monsters_killed + 1) as i32,
                    curr_mode: GameMode::Primary,
                    show_desc: true,
                    ..pre
                })
                &&& post.effects@ == pre.effects@ + seq![
                    Effect::MonsterFlees(cs.enemy),
                    Effect::Text("You are victorious!"),
                    Effect::Text(""),
                    Effect::Pause,
                ]
            } else {
                &&& post == (GameState {
                    effects: post.effects,
                    rng: post.rng,
                    map: post.map,
                    strength: (pre.strength as int / 2) as i32,
                    curr_mode: GameMode::Primary,
                    show_desc: true,
                    ..pre
                })
                &&& post.effects@ == pre.effects@ + seq![
                    Effect::MonsterKnocksYouDown(cs.enemy),
                    Effect::Text("You are at its mercy!"),
                    Effect::Pause,
                    Effect::Text("It appears to be in a generous mood and wanders off."),
                    Effect::Text(""),
                    Effect::Pause,
                ]
            }
            &&& post.rng.scripted == pre.rng.scripted
            &&& post.rng.script == pre.rng.script
        }
}

/// One tick of combat, whichever phase it is in.
pub open spec fn combat_step(pre: GameState, post: GameState, cs: CombatState) -> bool {
    match cs.phase {
        CombatPhase::Preparation => asked(pre, post, PendingInput::FleeQuery(cs)),
        CombatPhase::Battle => battle_step(pre, post, cs),
        CombatPhase::Aftermath => aftermath_step(pre, post, cs),
    }
}

impl GameState {
    /// If the current room holds a monster, raise the alarm and enter
    /// combat; say whether that happened.
    pub fn maybe_start_combat(&mut self) -> (started: bool)
        requires
            old(self).map.wf(),
            old(self).items.wf(),
        ensures
            started == (old(self).map.spec_room(old(self).curr_room).contents matches Some(
                crate::game_map::RoomContents::Terror(_),
            )),
            started ==> combat_started(
                *old(self),
                *final(self),
                old(self).map.spec_room(old(self).curr_room).contents->Some_0->Terror_0,
            ),
            !started ==> *final(self) == *old(self),
    {
        let contents = self.map.room(self.curr_room).contents;
        if let Some(crate::game_map::RoomContents::Terror(monster_id)) = contents {
            self.effects.push(Effect::Text("Danger... There is a monster here...."));
            self.pause();
            self.effects.push(Effect::MonsterHere(monster_id));
            let ff = self.get_modified_ff(monster_id.ferocity_factor());
            self.effects.push(Effect::DangerLevel(ff));
            self.pause();
            self.set_mode(
                GameMode::Combat(
                    CombatState { phase: CombatPhase::Preparation, enemy: monster_id, ff },
                ),
            );
            proof {
                assert(final(self).effects@ =~= old(self).effects@ + seq![
                    Effect::Text("Danger... There is a monster here...."),
                    Effect::Pause,
                    Effect::MonsterHere(monster_id),
                    Effect::DangerLevel(ff),
                    Effect::Pause,
                ]);
            }
            true
        } else {
            false
        }
    }

    /// The monster's base ferocity, adjusted for the player's equipment.
    pub fn get_modified_ff(&self, base_ff: i32) -> (ff: i32)
        requires
            self.items.wf(),
            0 <= base_ff <= 20,
        ensures
            ff == modified_ff_spec(
                self.items.spec_owns(Item::Armor),
                self.items.spec_owns(Item::Axe),
                self.items.spec_owns(Item::Sword),
                base_ff as int,
            ),
            0 <= ff <= 24,
    {
        let mut ff = base_ff;
        let axe = self.items.owns(Item::Axe);
        let sword = self.items.owns(Item::Sword);
        if self.items.owns(Item::Armor) {
            ff = 3 * ff / 4;
        }
        if !axe && !sword {
            ff + ff / 5
        } else if axe && !sword {
            4 * ff / 5
        } else if sword && !axe {
            3 * ff / 4
        } else {
            3 * ff / 5
        }
    }

    /// Narrate what the player fights with.
    fn prepare(&mut self)
        requires
            old(self).items.wf(),
        ensures
            *final(self) == (GameState { effects: final(self).effects, ..*old(self) }),
            final(self).effects@ == old(self).effects@ + prepare_effects(*old(self)),
    {
        if self.items.owns(Item::Armor) {
            self.effects.push(Effect::Text("Your armor increases your chance of success."));
        }
        let axe = self.items.owns(Item::Axe);
        let sword = self.items.owns(Item::Sword);
        if !axe && !sword {
            self.effects.push(Effect::Text("You have no weapons."));
            self.effects.push(Effect::Text("You must fight with bare hands."));
        } else if axe && !sword {
            self.effects.push(Effect::Text("You have only an axe to fight with."));
        } else if sword && !axe {
            self.effects.push(Effect::Text("You must fight with your sword."));
        } else {
            self.effects.push(Effect::Text("You are dual-wielding a sword and axe like a boss."));
        }
        self.pause();
        proof {
            assert(final(self).effects@ =~= old(self).effects@ + prepare_effects(*old(self)));
        }
    }

    /// Ask the player to confirm the fight.
    fn press_enter_to_fight(&mut self, state: CombatState)
        requires
            old(self).input_callback is None,
        ensures
            asked(*old(self), *final(self), PendingInput::FightConfirm(state)),
    {
        self.ask(PendingInput::FightConfirm(state));
    }

    /// Ask which way to run.
    fn ask_direction_to_run(&mut self)
        requires
            old(self).input_callback is None,
        ensures
            asked(*old(self), *final(self), PendingInput::FleeDirection),
    {
        self.ask(PendingInput::FleeDirection);
    }

    /// One tick in the preparation phase: ask about running away.
    fn tick_preparation_phase(&mut self, state: CombatState)
        requires
            old(self).input_callback is None,
        ensures
            asked(*old(self), *final(self), PendingInput::FleeQuery(state)),
    {
        self.ask(PendingInput::FleeQuery(state));
    }

    /// The flee question's handler.
    pub fn handle_flee_query(&mut self, state: CombatState, line: &str)
        requires
            old(self).input_callback is None,
        ensures
            flee_query_step(*old(self), *final(self), state, line@),
    {
        let len = line.unicode_len();
        let wants_to_run = len > 0 && lower_ascii(line.get_char(0)) == 'y';
        if wants_to_run {
            let escaped = self.rng.percent_chance(30);
            proof {
                assert(drawn_coin(escaped));
            }
            if escaped {
                self.set_mode(GameMode::Primary);
                self.ask_direction_to_run();
                return;
            }
            self.effects.push(Effect::Text("Your craven attempt to escape has failed."));
            self.press_enter_to_fight(state);
            proof {
                assert(final(self).effects@ =~= old(self).effects@ + seq![
                    Effect::Text("Your craven attempt to escape has failed."),
                    Effect::Prompt(PendingInput::FightConfirm(state).prompt_spec()),
                ]);
            }
            return;
        }
        self.press_enter_to_fight(state);
    }

    /// The fight confirmation's handler.
    pub fn handle_fight_confirm(&mut self, state: CombatState)
        requires
            old(self).items.wf(),
        ensures
            fight_confirm_step(*old(self), *final(self), state),
    {
        self.prepare();
        self.effects.push(Effect::Text(""));
        self.curr_mode = GameMode::Combat(
            CombatState { phase: CombatPhase::Battle, enemy: state.enemy, ff: state.ff },
        );
        proof {
            assert(final(self).effects@ =~= old(self).effects@ + prepare_effects(*old(self))
                + seq![Effect::Text("")]);
        }
    }

    /// The flee direction's handler.
    pub fn handle_flee_direction(&mut self, line: &str)
        requires
            old(self).is_processing_input,
            old(self).map.wf(),
            old(self).tally + TALLY_PER_MOVE <= i32::MAX,
            old(self).strength - STRENGTH_LOSS_PER_MOVE >= i32::MIN,
        ensures
            flee_direction_step(*old(self), *final(self), line@),
    {
        let cmd = FleeCommand::get_from_input(line, &mut self.effects);
        if let Some(FleeCommand::Flee(dir)) = cmd {
            if self.try_to_move(dir) {
                return;
            }
        }
        self.ask_again();
    }

    /// One battle tick.
    #[verifier::rlimit(100)]
    #[verifier::spinoff_prover]
    fn tick_battle_phase(&mut self, state: CombatState)
        requires
            combat_wf(state),
            old(self).strength >= i32::MIN + 5,
        ensures
            battle_step(*old(self), *final(self), state),
    {
        let enemy_attacks = self.rng.percent_chance(50);
        if enemy_attacks {
            self.effects.push(Effect::MonsterAttacks(state.enemy));
        } else {
            self.effects.push(Effect::Text("You attack!"));
        }
        self.pause();
        let mut ff = state.ff;
        let wound = self.rng.percent_chance(50);
        if wound {
            self.effects.push(Effect::Text("You manage to wound it!"));
            ff = 5 * ff / 6;
            self.pause();
        }
        let hit = self.rng.percent_chance(50);
        if hit {
            self.strength = self.strength - 5;
            if self.strength > 0 {
                self.effects.push(Effect::Text("The monster wounds you!"));
            } else {
                self.effects.push(Effect::Text("The monster lands a killing blow!"));
            }
            self.pause();
        }
        let ended = self.rng.percent_chance(35);
        let phase = if ended {
            CombatPhase::Aftermath
        } else {
            state.phase
        };
        self.curr_mode = GameMode::Combat(CombatState { phase, enemy: state.enemy, ff });
        proof {
            assert(drawn_coins(enemy_attacks, wound, hit, ended));
            assert(final(self).effects@ =~= old(self).effects@ + seq![
                if enemy_attacks {
                    Effect::MonsterAttacks(state.enemy)
                } else {
                    Effect::Text("You attack!")
                },
                Effect::Pause,
            ] + (if wound {
                seq![Effect::Text("You manage to wound it!"), Effect::Pause]
            } else {
                Seq::<Effect>::empty()
            }) + (if hit {
                seq![
                    if final(self).strength > 0 {
                        Effect::Text("The monster wounds you!")
                    } else {
                        Effect::Text("The monster lands a killing blow!")
                    },
                    Effect::Pause,
                ]
            } else {
                Seq::<Effect>::empty()
            }));
        }
    }

    /// The aftermath tick.
    fn tick_aftermath_phase(&mut self, state: CombatState)
        requires
            old(self).map.wf(),
            old(self).monsters_killed < i32::MAX,
            old(self).strength >= -10_000,
        ensures
            aftermath_step(*old(self), *final(self), state),
    {
        let roll = self.rng.uniform_int(0, 16);
        proof {
            assert(drawn_roll(roll as int));
        }
        if roll > state.ff {
            self.effects.push(Effect::MonsterFlees(state.enemy));
            self.effects.push(Effect::Text("You are victorious!"));
            self.monsters_killed = self.monsters_killed + 1;
        } else {
            self.effects.push(Effect::MonsterKnocksYouDown(state.enemy));
            self.effects.push(Effect::Text("You are at its mercy!"));
            self.pause();
            self.effects.push(
                Effect::Text("It appears to be in a generous mood and wanders off."),
            );
            let s = self.strength;
            self.strength = if s >= 0 {
                s / 2
            } else {
                -((-s + 1) / 2)
            };
        }
        self.effects.push(Effect::Text(""));
        self.pause();
        self.map.mut_room(self.curr_room).contents = None;
        self.set_mode(GameMode::Primary);
        proof {
            if roll > state.ff {
                assert(final(self).effects@ =~= old(self).effects@ + seq![
                    Effect::MonsterFlees(state.enemy),
                    Effect::Text("You are victorious!"),
                    Effect::Text(""),
                    Effect::Pause,
                ]);
            } else {
                assert(final(self).effects@ =~= old(self).effects@ + seq![
                    Effect::MonsterKnocksYouDown(state.enemy),
                    Effect::Text("You are at its mercy!"),
                    Effect::Pause,
                    Effect::Text("It appears to be in a generous mood and wanders off."),
                    Effect::Text(""),
                    Effect::Pause,
                ]);
            }
        }
    }

    /// One tick of combat, dispatched on its phase.
    pub fn tick_combat_mode(&mut self, state: &CombatState)
        requires
            old(self).input_callback is None,
            old(self).map.wf(),
            combat_wf(*state),
            old(self).counters_ok(),
        ensures
            combat_step(*old(self), *final(self), *state),
    {
        match state.phase {
            CombatPhase::Preparation => self.tick_preparation_phase(*state),
            CombatPhase::Battle => self.tick_battle_phase(*state),
            CombatPhase::Aftermath => self.tick_aftermath_phase(*state),
        }
    }
}

} // verus!
