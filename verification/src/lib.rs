//! Authoritative match state of a multiplayer maze shooter.
//!
//! The server owns one [`GameState`]. Every change to it goes through
//! [`GameState::validate`] and [`GameState::consume`]; the
//! [`MatchController`] on top of them decides who is admitted, when the
//! match starts and ends, and who is told about each event.

pub mod chance;
pub mod client;
pub mod constant;
pub mod event;
pub mod game_state;
pub mod laws;
pub mod lifecycle;
pub mod lvl;
pub mod maze;
pub mod player;
pub mod roster;
pub mod tools;

pub use constant::{
    COUNTDOWN_SECONDS, DESIRED_FPS, GAME_FPS, NBR_OF_LIVES, PLAYER_LIMIT, PROTOCOL_ID,
};
pub use event::{GameEvent, GameEventView};
pub use game_state::{EndGameReason, GameState, GameStateView, Stage};
pub use lifecycle::{
    JoinError, MatchController, MatchControllerView, Outgoing, OutgoingView, Recipient, Tick,
};
pub use lvl::{get_spawn_positions, spawn_table};
pub use player::{Players, PlayersView, Position};
pub use tools::{
    check_username, get_level, level_choice, name_from_user_data, user_data_from_name, LevelError,
    UsernameError, MAX_USERNAME_LENGTH, USER_DATA_BYTES,
};
