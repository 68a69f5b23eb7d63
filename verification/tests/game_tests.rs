use ww::combat::{CombatPhase, CombatState};
use ww::direction::Direction;
use ww::game_map::{RoomContents, RoomId};
use ww::game_state::{GameMode, GameState};
use ww::items::Item;
use ww::monsters::MonsterId;
use ww::platform::{Effect, Randomness};

fn named_explorer() -> GameState {
    let mut state = GameState::new();
    state.player_name = "Conan".to_string();
    state.curr_mode = GameMode::Primary;
    state
}

#[test]
fn name_is_asked_until_given() {
    let mut state = GameState::new();
    assert_eq!(state.curr_mode, GameMode::AskName);
    state.tick(None);
    assert!(state.is_waiting_for_input());
    state.tick(Some("".to_string()));
    assert_eq!(state.curr_mode, GameMode::AskName);
    assert!(state.effects.contains(&Effect::Text("Pardon me?")));
    state.tick(None);
    state.tick(Some("Conan".to_string()));
    assert_eq!(state.curr_mode, GameMode::Primary);
    assert_eq!(state.player_name, "Conan");
}

#[test]
fn non_numeric_answer_never_changes_mode() {
    // Asking to eat expects a number; "abc" is not one, so the callback
    // never runs, the mode stays put, and the question is asked again.
    let mut state = named_explorer();
    state.items.increase(Item::Food, 3);
    state.curr_mode = GameMode::EatFood;
    state.tick(None);
    assert!(state.is_waiting_for_input());
    let before = state.effects.len();
    state.tick(Some("abc".to_string()));
    assert_eq!(state.curr_mode, GameMode::EatFood);
    assert!(state.effects[before..].contains(&Effect::NotANumber));
    // A fresh prompt for the same question was issued.
    assert_eq!(
        state.effects.last(),
        Some(&Effect::Prompt("How many do you want to eat? "))
    );
    assert!(state.is_waiting_for_input());
    assert_eq!(state.items.get_quantity(Item::Food), 3);
    assert_eq!(state.strength, 100);
}

#[test]
fn ferocity_factor_formula() {
    // Unarmed, unarmored: 10 + 10/5 = 12.
    let state = named_explorer();
    assert_eq!(state.get_modified_ff(10), 12);
    // Armor scales first (3*10/4 = 7), then both weapons (3*7/5 = 4).
    let mut armed = named_explorer();
    armed.items.obtain(Item::Armor);
    armed.items.obtain(Item::Axe);
    armed.items.obtain(Item::Sword);
    assert_eq!(armed.get_modified_ff(10), 4);
    // Axe only: 4*10/5 = 8.  Sword only: 3*10/4 = 7.
    let mut axe = named_explorer();
    axe.items.obtain(Item::Axe);
    assert_eq!(axe.get_modified_ff(10), 8);
    let mut sword = named_explorer();
    sword.items.obtain(Item::Sword);
    assert_eq!(sword.get_modified_ff(10), 7);
}

#[test]
fn battle_wound_erodes_ferocity_exactly() {
    let mut state = named_explorer();
    state.curr_mode = GameMode::Combat(CombatState {
        phase: CombatPhase::Battle,
        enemy: MonsterId::Werewolf,
        ff: 12,
    });
    // Draws: narration (enemy), wound (yes), hit (no), end (no).
    state.rng = Randomness::from_script(vec![60, 10, 60, 60]);
    state.tick(None);
    match state.curr_mode {
        GameMode::Combat(cs) => {
            assert_eq!(cs.phase, CombatPhase::Battle);
            assert_eq!(cs.ff, 5 * 12 / 6);
            assert_eq!(cs.ff, 10);
        }
        other => panic!("expected combat, found {:?}", other),
    }
    assert!(state.effects.contains(&Effect::Text("You manage to wound it!")));
    assert_eq!(state.strength, 100);

    // A second wound erodes it again; ff never rises.
    state.rng = Randomness::from_script(vec![60, 10, 60, 60]);
    state.tick(None);
    match state.curr_mode {
        GameMode::Combat(cs) => assert_eq!(cs.ff, 5 * 10 / 6),
        other => panic!("expected combat, found {:?}", other),
    }
}

#[test]
fn aftermath_victory_counts_the_kill() {
    let mut state = named_explorer();
    state.map.mut_room(RoomId::Entrance).contents =
        Some(RoomContents::Terror(MonsterId::Werewolf));
    state.curr_mode = GameMode::Combat(CombatState {
        phase: CombatPhase::Aftermath,
        enemy: MonsterId::Werewolf,
        ff: 4,
    });
    // uniform_int(0,16) draws 5; 5 > 4 means victory.
    state.rng = Randomness::from_script(vec![5]);
    state.tick(None);
    assert_eq!(state.monsters_killed, 1);
    assert_eq!(state.strength, 100);
    assert_eq!(state.curr_mode, GameMode::Primary);
    assert!(state.map.room(RoomId::Entrance).contents.is_none());
}

#[test]
fn aftermath_mercy_halves_strength() {
    let mut state = named_explorer();
    state.map.mut_room(RoomId::Entrance).contents =
        Some(RoomContents::Terror(MonsterId::Dragon));
    state.curr_mode = GameMode::Combat(CombatState {
        phase: CombatPhase::Aftermath,
        enemy: MonsterId::Dragon,
        ff: 15,
    });
    state.strength = 85;
    // Draws 5; 5 <= 15 means the player is knocked down.
    state.rng = Randomness::from_script(vec![5]);
    state.tick(None);
    assert_eq!(state.monsters_killed, 0);
    assert_eq!(state.strength, 42);
    assert_eq!(state.curr_mode, GameMode::Primary);
    assert!(state.map.room(RoomId::Entrance).contents.is_none());
}

#[test]
fn a_whole_fight_from_the_corridor() {
    // Walk east into a monster's lair, decline to flee, survive one
    // battle round and win the aftermath.
    let mut state = named_explorer();
    state.map.connect(RoomId::Entrance, Direction::East, RoomId::Hallway);
    state.map.mut_room(RoomId::Hallway).describe("Hallway", "A hallway.");
    state.map.mut_room(RoomId::Hallway).contents =
        Some(RoomContents::Terror(MonsterId::Werewolf));
    state.items.obtain(Item::Torch);
    assert_eq!(state.strength, 100);
    assert_eq!(state.wealth, 75);
    // Battle draws (enemy narration, wound, hit, end), then the
    // aftermath roll: 15 > the worn-down ferocity, so the player wins.
    state.rng = Randomness::from_script(vec![0, 0, 0, 0, 15]);

    state.tick(None); // describe the entrance, ask what to do
    assert!(state.is_waiting_for_input());
    state.tick(Some("e".to_string())); // go east
    assert_eq!(state.curr_room, RoomId::Hallway);
    state.tick(None); // describe the lair: combat begins
    match state.curr_mode {
        GameMode::Combat(cs) => {
            assert_eq!(cs.phase, CombatPhase::Preparation);
            assert_eq!(cs.enemy, MonsterId::Werewolf);
            // Werewolf base 5, no gear that matters: 5 + 5/5 = 6.
            assert_eq!(cs.ff, 6);
        }
        other => panic!("expected combat, found {:?}", other),
    }
    state.tick(None); // "will you run away like a coward?"
    state.tick(Some("n".to_string())); // certainly not
    state.tick(Some("".to_string())); // press enter to fight
    match state.curr_mode {
        GameMode::Combat(cs) => assert_eq!(cs.phase, CombatPhase::Battle),
        other => panic!("expected combat, found {:?}", other),
    }
    state.tick(None); // one battle round: wound (ff 6 -> 5), hit, end
    match state.curr_mode {
        GameMode::Combat(cs) => {
            assert_eq!(cs.phase, CombatPhase::Aftermath);
            assert_eq!(cs.ff, 5);
        }
        other => panic!("expected combat, found {:?}", other),
    }
    state.tick(None); // the aftermath: 15 > 5, victory
    assert_eq!(state.monsters_killed, 1);
    assert!(state.map.room(RoomId::Hallway).contents.is_none());
    assert_eq!(state.curr_mode, GameMode::Primary);
}

#[test]
fn eating_more_than_owned_is_cheating() {
    // Own 2, claim to eat 5: wealth is zeroed, the gear is lost, and
    // the food is quartered.
    let mut state = named_explorer();
    state.items.increase(Item::Food, 2);
    state.items.obtain(Item::Torch);
    state.items.obtain(Item::Axe);
    state.items.obtain(Item::Sword);
    state.items.obtain(Item::Amulet);
    state.items.obtain(Item::Armor);
    state.curr_mode = GameMode::EatFood;
    state.tick(None);
    state.tick(Some("5".to_string()));
    assert!(state
        .effects
        .contains(&Effect::Text("YOU HAVE TRIED TO CHEAT ME!")));
    assert_eq!(state.wealth, 0);
    assert!(!state.items.owns(Item::Torch));
    assert!(!state.items.owns(Item::Axe));
    assert!(!state.items.owns(Item::Sword));
    assert!(!state.items.owns(Item::Amulet));
    assert!(!state.items.owns(Item::Armor));
    assert_eq!(state.items.get_quantity(Item::Food), 2 / 4);
    assert_eq!(state.curr_mode, GameMode::Primary);
}

#[test]
fn eating_what_is_owned_feeds_the_explorer() {
    let mut state = named_explorer();
    state.items.increase(Item::Food, 4);
    state.curr_mode = GameMode::EatFood;
    state.tick(None);
    state.tick(Some("3".to_string()));
    assert_eq!(state.items.get_quantity(Item::Food), 1);
    assert_eq!(state.strength, 130);
    assert_eq!(state.curr_mode, GameMode::Primary);
}

#[test]
fn a_tick_without_pending_input_dispatches_exactly_once() {
    // With no stored continuation and no re-ask flag, one tick produces
    // the mode-dispatch effects exactly once: here, one single prompt.
    let mut state = named_explorer();
    state.show_desc = false;
    let before = state.effects.len();
    state.tick(None);
    assert_eq!(state.effects.len(), before + 1);
    assert_eq!(
        state.effects.last(),
        Some(&Effect::Prompt("What do you want to do? "))
    );
    assert!(state.is_waiting_for_input());
    // A tick with a continuation pending but no input is a no-op.
    let frozen = state.effects.len();
    state.tick(None);
    assert_eq!(state.effects.len(), frozen);
    assert!(state.is_waiting_for_input());
}

#[test]
fn buying_in_the_shop() {
    let mut state = named_explorer();
    state.curr_mode = GameMode::Inventory;
    state.tick(None); // lay out the stall, ask what to buy
    assert!(state
        .effects
        .contains(&Effect::HelpLine('2', "buy an axe ($10)")));
    state.tick(Some("2".to_string())); // buy the axe
    assert!(state.items.owns(Item::Axe));
    assert_eq!(state.wealth, 65);
    state.tick(None);
    state.tick(Some("2".to_string())); // an axe is owned once only
    assert!(state.effects.contains(&Effect::AlreadyOwn(Item::Axe)));
    assert_eq!(state.wealth, 65);
    state.tick(None);
    state.tick(Some("4".to_string())); // food asks for a unit count
    assert!(state.is_waiting_for_input());
    state.tick(Some("3".to_string()));
    assert_eq!(state.items.get_quantity(Item::Food), 3);
    assert_eq!(state.wealth, 65 - 12);
    state.tick(None);
    state.tick(Some("0".to_string())); // leave
    assert_eq!(state.curr_mode, GameMode::Primary);
}

#[test]
fn an_unrecognized_selection_leaves_the_shop() {
    let mut state = named_explorer();
    state.curr_mode = GameMode::Inventory;
    state.tick(None);
    state.tick(Some("z".to_string()));
    assert_eq!(state.curr_mode, GameMode::Primary);
}

#[test]
fn asking_for_help_stays_in_the_shop() {
    let mut state = named_explorer();
    state.curr_mode = GameMode::Inventory;
    state.tick(None);
    state.tick(Some("h".to_string()));
    assert_eq!(state.curr_mode, GameMode::Inventory);
    assert!(state
        .effects
        .contains(&Effect::HelpLine('0', "continue adventure")));
}

#[test]
fn declining_to_buy_any_units_is_tolerated() {
    let mut state = named_explorer();
    state.curr_mode = GameMode::Inventory;
    state.tick(None);
    state.tick(Some("4".to_string()));
    state.tick(Some("0".to_string()));
    assert!(state
        .effects
        .contains(&Effect::Text("Fine, don't buy any then.")));
    assert_eq!(state.items.get_quantity(Item::Food), 0);
    assert_eq!(state.wealth, 75);
    assert_eq!(state.curr_mode, GameMode::Inventory);
}

#[test]
fn buying_beyond_ones_means_is_cheating() {
    let mut state = named_explorer();
    state.wealth = 15;
    state.curr_mode = GameMode::Inventory;
    state.tick(None);
    state.tick(Some("3".to_string())); // a sword costs 20
    assert!(state
        .effects
        .contains(&Effect::Text("YOU HAVE TRIED TO CHEAT ME!")));
    assert_eq!(state.wealth, 0);
    assert!(!state.items.owns(Item::Sword));
}

#[test]
fn treasure_is_picked_up_once() {
    let mut state = named_explorer();
    state.map.mut_room(RoomId::Entrance).contents = Some(RoomContents::Treasure(50));
    state.show_desc = false;
    state.tick(None);
    state.tick(Some("p".to_string()));
    assert_eq!(state.wealth, 125);
    assert!(state.map.room(RoomId::Entrance).contents.is_none());
    assert!(state.effects.contains(&Effect::TreasureCollected(50)));
    state.tick(None);
    state.tick(Some("p".to_string()));
    assert!(state
        .effects
        .contains(&Effect::Text("There is no treasure to pick up here.")));
    assert_eq!(state.wealth, 125);
}

#[test]
fn quitting_reports_the_score() {
    let mut state = named_explorer();
    state.show_desc = false;
    state.tick(None);
    state.tick(Some("q".to_string()));
    assert_eq!(state.curr_mode, GameMode::Finished);
    assert!(state.is_finished());
    // 3*0 + 5*100 + 2*75 + 0 + 30*0 = 650.
    assert!(state.effects.contains(&Effect::Score(650)));
}

#[test]
fn the_lift_descends_to_the_rear_vestibule() {
    let mut state = named_explorer();
    state.curr_room = RoomId::Lift;
    state.tick(None);
    assert_eq!(state.curr_room, RoomId::RearVestibule);
    assert_eq!(state.curr_mode, GameMode::Primary);
}

#[test]
fn reaching_the_exit_wins_the_game() {
    let mut state = named_explorer();
    state.curr_room = RoomId::Exit;
    state.tick(None);
    assert_eq!(state.curr_mode, GameMode::Finished);
    assert!(state.effects.contains(&Effect::Succeeded));
}

#[test]
fn death_comes_for_the_weak() {
    let mut state = named_explorer();
    state.strength = 0;
    state.tick(None);
    assert_eq!(state.curr_mode, GameMode::Finished);
    assert!(state
        .effects
        .contains(&Effect::Text("You have died.........")));
}

#[test]
fn fleeing_successfully_asks_for_a_direction() {
    let mut state = named_explorer();
    state.map.connect(RoomId::Entrance, Direction::East, RoomId::Hallway);
    let cs = CombatState {
        phase: CombatPhase::Preparation,
        enemy: MonsterId::Maldemer,
        ff: 10,
    };
    state.curr_mode = GameMode::Combat(cs);
    // The escape roll (draw 10 < 30) succeeds.
    state.rng = Randomness::from_script(vec![10]);
    state.tick(None); // "will you run away like a coward?"
    state.tick(Some("Y".to_string()));
    assert_eq!(state.curr_mode, GameMode::Primary);
    assert_eq!(
        state.effects.last(),
        Some(&Effect::Prompt("What direction will you run? "))
    );
    // An invalid direction is asked again; a walled one too.
    state.tick(Some("x".to_string()));
    assert!(state.is_waiting_for_input());
    assert_eq!(state.curr_room, RoomId::Entrance);
    // East has an exit: the flight succeeds as a normal move.
    state.tick(Some("e".to_string()));
    assert_eq!(state.curr_room, RoomId::Hallway);
    assert_eq!(state.strength, 95);
}

#[test]
fn failing_to_flee_forces_the_fight() {
    let mut state = named_explorer();
    let cs = CombatState {
        phase: CombatPhase::Preparation,
        enemy: MonsterId::Maldemer,
        ff: 10,
    };
    state.curr_mode = GameMode::Combat(cs);
    // The escape roll (draw 90 >= 30) fails.
    state.rng = Randomness::from_script(vec![90]);
    state.tick(None);
    state.tick(Some("y".to_string()));
    assert!(state
        .effects
        .contains(&Effect::Text("Your craven attempt to escape has failed.")));
    state.tick(Some("".to_string())); // press enter to fight
    match state.curr_mode {
        GameMode::Combat(cs2) => {
            assert_eq!(cs2.phase, CombatPhase::Battle);
            assert_eq!(cs2.ff, 10);
        }
        other => panic!("expected combat, found {:?}", other),
    }
}

#[test]
fn the_amulet_whisks_the_player_elsewhere() {
    let mut state = named_explorer();
    state.show_desc = false;
    state.items.obtain(Item::Amulet);
    // Draw 3 < 18: counting past the entrance's own slot lands on room 3.
    state.rng = Randomness::from_script(vec![3]);
    state.tick(None);
    state.tick(Some("m".to_string()));
    assert_ne!(state.curr_room, RoomId::Entrance);
    assert_eq!(state.tally, 1);
    assert_eq!(state.strength, 95);
}

#[test]
fn without_the_amulet_there_is_no_magic() {
    let mut state = named_explorer();
    state.show_desc = false;
    state.tick(None);
    state.tick(Some("m".to_string()));
    assert!(state.effects.contains(&Effect::NoAmulet));
    assert_eq!(state.curr_room, RoomId::Entrance);
}

#[test]
fn eating_without_food_is_refused() {
    let mut state = named_explorer();
    state.show_desc = false;
    state.tick(None);
    state.tick(Some("c".to_string()));
    assert!(state.effects.contains(&Effect::Text("You have no food!")));
    assert_eq!(state.curr_mode, GameMode::Primary);
}

#[test]
fn negative_amounts_are_chided_and_reasked(){
    let mut state = named_explorer();
    state.items.increase(Item::Food, 2);
    state.curr_mode = GameMode::EatFood;
    state.tick(None);
    state.tick(Some("-1".to_string()));
    assert!(state
        .effects
        .contains(&Effect::Text("GIVE ME A POSITIVE INTEGER.")));
    assert_eq!(state.curr_mode, GameMode::EatFood);
    assert!(state.is_waiting_for_input());
    state.tick(Some("0".to_string()));
    assert!(state.effects.contains(&Effect::Text("Fine, be that way.")));
    assert_eq!(state.curr_mode, GameMode::Primary);
}

#[test]
fn unknown_commands_are_shrugged_off() {
    let mut state = named_explorer();
    state.show_desc = false;
    state.tick(None);
    let before = state.effects.len();
    state.tick(Some("z".to_string()));
    assert!(state.effects[before..]
        .contains(&Effect::Text("I have no idea what you're talking about.")));
    assert_eq!(state.curr_mode, GameMode::Primary);
}

#[test]
fn help_lists_the_visible_commands() {
    let mut state = named_explorer();
    state.show_desc = false;
    state.tick(None);
    state.tick(Some("h".to_string()));
    assert!(state.effects.contains(&Effect::HelpLine('n', "go north")));
    assert!(state.effects.contains(&Effect::HelpLine('q', "quit")));
    // The debug command is hidden from the listing.
    assert!(!state.effects.contains(&Effect::HelpLine('`', "debug mode")));
}

#[test]
fn the_console_teleports_and_lists() {
    let mut state = named_explorer();
    state.debug_allowed = true;
    state.show_desc = false;
    state.tick(None);
    state.tick(Some("`".to_string()));
    assert_eq!(state.curr_mode, GameMode::Debug);
    state.tick(None); // console prompt
    state.tick(Some("goto 11".to_string()));
    assert_eq!(state.curr_room, RoomId::Dungeon);
    assert!(state.effects.contains(&Effect::TeleportedTo(11)));
    state.tick(None);
    state.tick(Some("goto 99".to_string()));
    assert!(state.effects.contains(&Effect::Text("Unknown room id.")));
    state.tick(None);
    state.tick(Some("rooms".to_string()));
    assert!(state.effects.iter().any(|e| matches!(e, Effect::RoomInfo(0, _))));
    state.tick(None);
    state.tick(Some("version".to_string()));
    assert!(state.effects.contains(&Effect::VersionInfo));
    state.tick(None);
    state.tick(Some("q".to_string()));
    assert_eq!(state.curr_mode, GameMode::Primary);
}

#[test]
fn the_console_stays_hidden_unless_enabled() {
    let mut state = named_explorer();
    state.show_desc = false;
    state.tick(None);
    state.tick(Some("`".to_string()));
    assert_eq!(state.curr_mode, GameMode::Primary);
}

#[test]
fn darkness_hides_rooms_and_treasure() {
    let mut state = named_explorer();
    state.map.connect(RoomId::Entrance, Direction::East, RoomId::Hallway);
    state.map.mut_room(RoomId::Hallway).describe("Hallway", "A hallway.");
    state.map.mut_room(RoomId::Hallway).contents = Some(RoomContents::Treasure(30));
    state.show_desc = false;
    state.tick(None);
    state.tick(Some("e".to_string())); // walk into the dark hallway
    state.tick(None); // describe: too dark
    assert!(state
        .effects
        .contains(&Effect::Text("It is too dark to see anything.")));
    state.tick(Some("p".to_string()));
    assert!(state
        .effects
        .contains(&Effect::Text("It's too dark to see any treasure here.")));
    assert_eq!(state.wealth, 75);
}

#[test]
fn item_catalog_facts() {
    assert_eq!(Item::Torch.price(), 15);
    assert_eq!(Item::Axe.price(), 10);
    assert_eq!(Item::Sword.price(), 20);
    assert_eq!(Item::Food.price(), 4);
    assert_eq!(Item::Amulet.price(), 30);
    assert_eq!(Item::Armor.price(), 50);
    assert!(Item::Food.can_own_many());
    assert!(!Item::Sword.can_own_many());
    assert_eq!(Item::Torch.as_str(), "a flaming torch");
    assert_eq!(MonsterId::Werewolf.ferocity_factor(), 5);
    assert_eq!(MonsterId::Dragon.ferocity_factor(), 20);
    assert_eq!(MonsterId::Maldemer.as_str(), "maloventy maldemer");
}

#[test]
fn scripted_draws_replay_and_run_dry() {
    let mut rng = Randomness::from_script(vec![7, 3]);
    assert_eq!(rng.uniform_below(10), 7);
    assert_eq!(rng.uniform_below(10), 3);
    assert_eq!(rng.uniform_below(10), 0); // exhausted scripts yield 0
    let mut sys = Randomness::system();
    for _ in 0..100 {
        assert!(sys.uniform_below(5) < 5);
        let v = sys.uniform_int(10, 110);
        assert!((10..110).contains(&v));
    }
}
