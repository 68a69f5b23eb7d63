use ww::direction::Direction;
use ww::map::RoomMap;
use ww::sized_enum::SizedEnum;
use ww::game_map::{GameMap, RoomContents, RoomId};
use ww::game_state::GameState;
use ww::platform::{Effect, Randomness};

#[test]
fn opposites_pair_up() {
    assert_eq!(Direction::North.opposite(), Direction::South);
    assert_eq!(Direction::South.opposite(), Direction::North);
    assert_eq!(Direction::East.opposite(), Direction::West);
    assert_eq!(Direction::West.opposite(), Direction::East);
    assert_eq!(Direction::Up.opposite(), Direction::Down);
    assert_eq!(Direction::Down.opposite(), Direction::Up);
    assert_eq!(Direction::Up.opposite().opposite(), Direction::Up);
}

#[test]
fn connect_makes_the_reverse_exit() {
    // Connecting A to B eastwards must make B lead back west to A.
    let mut map = GameMap::new();
    map.connect(RoomId::Entrance, Direction::East, RoomId::Hallway);
    assert_eq!(
        map.room(RoomId::Entrance).get_exit(Direction::East),
        Some(RoomId::Hallway)
    );
    assert_eq!(
        map.room(RoomId::Hallway).get_exit(Direction::West),
        Some(RoomId::Entrance)
    );
    assert_eq!(map.room(RoomId::Hallway).get_exit(Direction::East), None);
}

#[test]
fn populated_map_keeps_its_promises() {
    let mut map = GameMap::new();
    let mut rng = Randomness::system();
    map.populate(&mut rng);
    // The entrance, the lift and the exit never hold anything.
    assert!(map.room(RoomId::Entrance).contents.is_none());
    assert!(map.room(RoomId::Lift).contents.is_none());
    assert!(map.room(RoomId::Exit).contents.is_none());
    // The two vault rooms always hold treasure, in range.
    for r in [RoomId::Treasury, RoomId::PrivateMeeting] {
        match map.room(r).contents {
            Some(RoomContents::Treasure(a)) => assert!((10..110).contains(&(a as i32))),
            other => panic!("expected treasure, found {:?}", other),
        }
    }
    // Every hoard anywhere is in range, and the exits are symmetric.
    for i in 0..19 {
        if let Some(RoomContents::Treasure(a)) = map.rooms[i].contents {
            assert!((10..110).contains(&(a as i32)));
        }
    }
    // The fixed layout came out as described.
    assert_eq!(
        map.room(RoomId::Entrance).get_exit(Direction::East),
        Some(RoomId::Hallway)
    );
    assert_eq!(
        map.room(RoomId::RearVestibule).get_exit(Direction::East),
        Some(RoomId::Exit)
    );
    assert_eq!(map.room(RoomId::Entrance).name, "Entrance");
}

#[test]
fn moving_into_a_wall_is_rejected() {
    // No exit was ever set northwards from the entrance, so the move is
    // rejected and the player does not stir.
    let mut state = GameState::new();
    state.curr_mode = ww::game_state::GameMode::Primary;
    let before = state.effects.len();
    let moved = state.try_to_move(Direction::North);
    assert!(!moved);
    assert_eq!(state.curr_room, RoomId::Entrance);
    assert_eq!(state.tally, 0);
    assert_eq!(state.strength, 100);
    assert_eq!(
        state.effects[before],
        Effect::Text("You can't go that way.")
    );
}

#[test]
fn moving_through_an_exit_pays_the_toll() {
    let mut state = GameState::new();
    state.map.connect(RoomId::Entrance, Direction::East, RoomId::Hallway);
    let moved = state.try_to_move(Direction::East);
    assert!(moved);
    assert_eq!(state.curr_room, RoomId::Hallway);
    assert_eq!(state.tally, 1);
    assert_eq!(state.strength, 95);
    assert!(state.show_desc);
}

#[test]
fn generic_map_connects_both_ways() {
    let mut map: RoomMap<RoomId, u8> = RoomMap::new();
    map.connect(RoomId::Dungeon, Direction::West, RoomId::Guardroom);
    assert_eq!(
        map.room(RoomId::Dungeon).get_exit(Direction::West),
        Some(RoomId::Guardroom)
    );
    assert_eq!(
        map.room(RoomId::Guardroom).get_exit(Direction::East),
        Some(RoomId::Dungeon)
    );
    map.mut_room(RoomId::Dungeon).contents = Some(7);
    assert_eq!(map.room(RoomId::Dungeon).contents, Some(7));
    let _ = RoomId::size();
}

#[test]
fn iterating_a_sized_enum_yields_each_value_once() {
    let mut it = <Direction as SizedEnum>::iter();
    let mut seen = Vec::new();
    while let Some(d) = it.next() {
        seen.push(d);
    }
    assert_eq!(
        seen,
        vec![
            Direction::North,
            Direction::South,
            Direction::East,
            Direction::West,
            Direction::Up,
            Direction::Down,
        ]
    );
}
