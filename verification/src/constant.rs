use vstd::prelude::*;

verus! {

/// Ticks of the server loop per second.
pub const DESIRED_FPS: u64 = 60;

/// Length of one tick of the server loop, in milliseconds.
pub const GAME_FPS: u64 = 1000 / DESIRED_FPS;

/// Identifier that client and server must agree on to talk to each other.
pub const PROTOCOL_ID: u64 = 1582;

/// Lives a player starts a match with.
pub const NBR_OF_LIVES: u8 = 3;

/// Players that fill the lobby: the match starts when the last of them joins.
pub const PLAYER_LIMIT: usize = 10;

/// Seconds the lobby counts down once two players are present.
pub const COUNTDOWN_SECONDS: u8 = 20;

} // verus!
