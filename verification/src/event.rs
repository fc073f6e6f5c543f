use std::collections::HashMap;
use vstd::prelude::*;

use crate::player::{Players, PlayersView, Position};
use crate::roster::roster_view;

verus! {

/// A message that moves the match forward: a request of a client, or a fact
/// that the server announces.
#[derive(Debug, PartialEq)]
pub enum GameEvent {
    /// The match starts with these players.
    BeginGame { player_list: HashMap<u8, Players> },
    /// The match is over.
    EndGame,
    /// Answer to a session that connects while no lobby is open.
    AccessForbidden,
    /// A player entered the lobby.
    PlayerJoined { player_id: u8, name: String, position: Position, client_id: u64 },
    /// A player left.
    PlayerDisconnected { player_id: u8 },
    /// A player moved or turned. From the server it also lists the players
    /// that the receiver should draw.
    PlayerMove { player_id: u8, at: Position, player_list: HashMap<u8, Players>, vision: (u32, u32) },
    /// Tells a joining client who and where it is.
    Spawn { player_id: u8, position: Position, lvl: usize },
    /// Seconds left until the match starts.
    Timer { duration: u8 },
    /// The player `id` was hit.
    Impact { id: u8 },
    /// A player lost its last life.
    Death { player_id: u8 },
}

/// What a [`GameEvent`] says, over mathematical values.
pub enum GameEventView {
    BeginGame { player_list: Map<u8, PlayersView> },
    EndGame,
    AccessForbidden,
    PlayerJoined { player_id: u8, name: Seq<char>, position: Position, client_id: u64 },
    PlayerDisconnected { player_id: u8 },
    PlayerMove {
        player_id: u8,
        at: Position,
        player_list: Map<u8, PlayersView>,
        vision: (u32, u32),
    },
    Spawn { player_id: u8, position: Position, lvl: usize },
    Timer { duration: u8 },
    Impact { id: u8 },
    Death { player_id: u8 },
}

impl View for GameEvent {
    type V = GameEventView;

    open spec fn view(&self) -> GameEventView {
        match *self {
            GameEvent::BeginGame { player_list } => GameEventView::BeginGame {
                player_list: roster_view(player_list@),
            },
            GameEvent::EndGame => GameEventView::EndGame,
            GameEvent::AccessForbidden => GameEventView::AccessForbidden,
            GameEvent::PlayerJoined { player_id, name, position, client_id } => {
                GameEventView::PlayerJoined { player_id, name: name@, position, client_id }
            },
            GameEvent::PlayerDisconnected { player_id } => GameEventView::PlayerDisconnected {
                player_id,
            },
            GameEvent::PlayerMove { player_id, at, player_list, vision } => {
                GameEventView::PlayerMove {
                    player_id,
                    at,
                    player_list: roster_view(player_list@),
                    vision,
                }
            },
            GameEvent::Spawn { player_id, position, lvl } => GameEventView::Spawn {
                player_id,
                position,
                lvl,
            },
            GameEvent::Timer { duration } => GameEventView::Timer { duration },
            GameEvent::Impact { id } => GameEventView::Impact { id },
            GameEvent::Death { player_id } => GameEventView::Death { player_id },
        }
    }
}

impl Clone for GameEvent {
    fn clone(&self) -> (event: Self)
        ensures
            event@ == self@,
    {
        match self {
            GameEvent::BeginGame { player_list } => GameEvent::BeginGame {
                player_list: player_list.clone(),
            },
            GameEvent::EndGame => GameEvent::EndGame,
            GameEvent::AccessForbidden => GameEvent::AccessForbidden,
            GameEvent::PlayerJoined { player_id, name, position, client_id } => {
                GameEvent::PlayerJoined {
                    player_id: *player_id,
                    name: name.clone(),
                    position: *position,
                    client_id: *client_id,
                }
            },
            GameEvent::PlayerDisconnected { player_id } => GameEvent::PlayerDisconnected {
                player_id: *player_id,
            },
            GameEvent::PlayerMove { player_id, at, player_list, vision } => GameEvent::PlayerMove {
                player_id: *player_id,
                at: *at,
                player_list: player_list.clone(),
                vision: *vision,
            },
            GameEvent::Spawn { player_id, position, lvl } => GameEvent::Spawn {
                player_id: *player_id,
                position: *position,
                lvl: *lvl,
            },
            GameEvent::Timer { duration } => GameEvent::Timer { duration: *duration },
            GameEvent::Impact { id } => GameEvent::Impact { id: *id },
            GameEvent::Death { player_id } => GameEvent::Death { player_id: *player_id },
        }
    }
}

} // verus!
