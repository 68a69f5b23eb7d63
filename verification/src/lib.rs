pub mod combat;
pub mod command;
pub mod debug_mode;
pub mod direction;
pub mod game_map;
pub mod game_state;
pub mod inventory;
pub mod items;
pub mod map;
pub mod monsters;
pub mod platform;
pub mod primary_mode;
pub mod room;
pub mod sized_enum;
pub mod util;
