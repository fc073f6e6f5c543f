//! What a client keeps of the match, and how each message of the server
//! changes it.

use std::collections::HashMap;
use vstd::prelude::*;
use vstd::std_specs::hash::group_hash_axioms;

use crate::constant::NBR_OF_LIVES;
use crate::event::{GameEvent, GameEventView};
use crate::player::{Players, PlayersView, Position};
use crate::roster::roster_view;

verus! {

broadcast use group_hash_axioms;

/// The other players as the server last listed them.
#[derive(Debug, PartialEq)]
pub struct ListPlayer {
    pub list: HashMap<u8, Players>,
}

impl Default for ListPlayer {
    fn default() -> (list: Self)
        ensures
            list.list@ == Map::<u8, Players>::empty(),
    {
        Self { list: HashMap::new() }
    }
}

/// Where the own player starts, as three encoded coordinates.
#[derive(Debug, Clone, Copy, PartialEq, Eq, Structural)]
pub struct PositionInitial {
    pub x: u32,
    pub y: u32,
    pub z: u32,
}

impl Default for PositionInitial {
    fn default() -> (location: Self)
        ensures
            location == (PositionInitial { x: 0, y: 0, z: 0 }),
    {
        Self { x: 0, y: 0, z: 0 }
    }
}

/// Frames in which the own player was moved so far.
#[derive(Debug, Clone, Copy, PartialEq, Eq, Structural)]
pub struct Counter {
    pub val: i32,
}

impl Counter {
    /// Counts one more frame and says whether it was the first one: the
    /// frame in which the own player is put on its spawn point.
    pub fn count(&mut self) -> (first: bool)
        requires
            old(self).val < i32::MAX,
        ensures
            first == (old(self).val < 1),
            final(self).val == old(self).val + 1,
    {
        let first = self.val < 1;
        self.val += 1;
        first
    }
}

impl Default for Counter {
    fn default() -> (counter: Self)
        ensures
            counter.val == 0,
    {
        Self { val: 0 }
    }
}

/// The lives that the own player has left.
#[derive(Debug, Clone, Copy, PartialEq, Eq, Structural)]
pub struct LifeCounter {
    pub val: u8,
}

impl LifeCounter {
    /// A full set of lives.
    pub fn new() -> (lives: Self)
        ensures
            lives.val == NBR_OF_LIVES,
    {
        Self { val: NBR_OF_LIVES }
    }

    /// Takes one life. There must be one to take.
    pub fn reduce(&mut self)
        requires
            old(self).val > 0,
        ensures
            final(self).val == old(self).val - 1,
    {
        self.val -= 1;
    }
}

impl Default for LifeCounter {
    fn default() -> (lives: Self)
        ensures
            lives.val == 0,
    {
        Self { val: 0 }
    }
}

/// Whether the other players still wait to be put on the field.
#[derive(Debug, Clone, Copy, PartialEq, Eq, Structural)]
pub struct EnnemyCreated {
    pub val: bool,
}

impl EnnemyCreated {
    /// Says whether the other players are to be put on the field now. That
    /// is so once: the first time that this is asked after the match has
    /// started.
    pub fn create_now(&mut self, game_state: &GameState) -> (now: bool)
        ensures
            now == (game_state.has_started && old(self).val),
            final(self).val == (old(self).val && !now),
    {
        if game_state.has_started && self.val {
            self.val = false;
            true
        } else {
            false
        }
    }
}

/// What the countdown on the screen shows.
#[derive(Debug, Clone, Copy, PartialEq, Eq, Structural)]
pub enum TimerDisplay {
    /// The seconds left, marked as urgent from ten seconds down.
    Show { seconds: i32, urgent: bool },
    /// Nothing: the match runs.
    Hide,
    /// What it showed before.
    Unchanged,
}

/// Seconds left on the lobby countdown, as last heard from the server.
#[derive(Debug, Clone, Copy, PartialEq, Eq, Structural)]
pub struct GameTimer {
    pub sec: i32,
}

impl GameTimer {
    /// The seconds that count as "nothing heard yet".
    pub const UNKNOWN: i32 = i32::MAX;

    /// What the countdown on the screen shows in the phase `game_state`.
    pub fn display(&self, game_state: &GameState) -> (shown: TimerDisplay)
        ensures
            shown == if game_state.is_waiting && self.sec != i32::MAX {
                TimerDisplay::Show { seconds: self.sec, urgent: self.sec <= 10 }
            } else if game_state.has_started {
                TimerDisplay::Hide
            } else {
                TimerDisplay::Unchanged
            },
    {
        if game_state.is_waiting && self.sec != i32::MAX {
            TimerDisplay::Show { seconds: self.sec, urgent: self.sec <= 10 }
        } else if game_state.has_started {
            TimerDisplay::Hide
        } else {
            TimerDisplay::Unchanged
        }
    }
}

impl Default for GameTimer {
    fn default() -> (timer: Self)
        ensures
            timer.sec == 0,
    {
        Self { sec: 0 }
    }
}

/// The phase of the match as the client sees it. Exactly one flag is set.
#[derive(Debug, Clone, Copy, PartialEq, Eq, Structural)]
pub struct GameState {
    pub is_waiting: bool,
    pub has_started: bool,
    pub has_ended: bool,
}

impl GameState {
    /// Waiting in the lobby.
    pub open spec fn waiting() -> GameState {
        GameState { is_waiting: true, has_started: false, has_ended: false }
    }

    /// In the running match.
    pub open spec fn started() -> GameState {
        GameState { is_waiting: false, has_started: true, has_ended: false }
    }

    /// Out of the match.
    pub open spec fn ended() -> GameState {
        GameState { is_waiting: false, has_started: false, has_ended: true }
    }

    pub fn new() -> (state: Self)
        ensures
            state == GameState::waiting(),
    {
        Self { is_waiting: true, has_ended: false, has_started: false }
    }

    pub fn start_game(&mut self)
        ensures
            *final(self) == GameState::started(),
    {
        self.is_waiting = false;
        self.has_started = true;
        self.has_ended = false;
    }

    pub fn end_game(&mut self)
        ensures
            *final(self) == GameState::ended(),
    {
        self.is_waiting = false;
        self.has_started = false;
        self.has_ended = true;
    }
}

/// Who and where the own player is, once the server has said so.
#[derive(Debug, Clone, Copy, PartialEq, Eq, Structural)]
pub struct PlayerSpawnInfo {
    pub player_id: Option<u8>,
    pub position: Option<Position>,
}

/// Another player on the field of this client.
#[derive(Debug, PartialEq)]
pub struct Enemy {
    pub id: u8,
    pub name: String,
    pub position: Position,
    pub lives: u8,
}

impl Enemy {
    /// An enemy with full lives.
    pub fn new(id: u8, name: String, position: Position) -> (enemy: Self)
        ensures
            enemy.id == id,
            enemy.name@ == name@,
            enemy.position == position,
            enemy.lives == NBR_OF_LIVES,
    {
        Enemy { id, name, position, lives: NBR_OF_LIVES }
    }

    /// Moves the enemy to where `list` shows its player, and returns the
    /// first coordinate of the look delta that the player reported, by
    /// which the enemy is to be turned. An enemy whose player is not in
    /// the list stays as it is.
    pub fn follow(&mut self, list: &ListPlayer) -> (turn: Option<u32>)
        ensures
            final(self).id == old(self).id,
            final(self).name == old(self).name,
            final(self).lives == old(self).lives,
            match turn {
                Some(delta) => {
                    &&& list.list@.contains_key(old(self).id)
                    &&& final(self).position == list.list@[old(self).id].position
                    &&& delta == list.list@[old(self).id].vision.0
                },
                None => {
                    &&& !list.list@.contains_key(old(self).id)
                    &&& final(self).position == old(self).position
                },
            },
    {
        match list.list.get(&self.id) {
            Some(player) => {
                self.position = player.position;
                Some(player.vision.0)
            },
            None => None,
        }
    }
}

/// Everything that messages of the server change on a client.
#[derive(Debug, PartialEq)]
pub struct ClientSession {
    pub lives: LifeCounter,
    pub location: PositionInitial,
    pub spawn_info: PlayerSpawnInfo,
    pub liste_player: ListPlayer,
    pub game_state: GameState,
    pub game_timer: GameTimer,
}

/// A [`ClientSession`] over mathematical values.
pub struct ClientSessionView {
    pub lives: u8,
    pub location: PositionInitial,
    pub spawn_info: PlayerSpawnInfo,
    pub list: Map<u8, PlayersView>,
    pub game_state: GameState,
    pub sec: i32,
}

impl View for ClientSession {
    type V = ClientSessionView;

    open spec fn view(&self) -> ClientSessionView {
        ClientSessionView {
            lives: self.lives.val,
            location: self.location,
            spawn_info: self.spawn_info,
            list: roster_view(self.liste_player.list@),
            game_state: self.game_state,
            sec: self.game_timer.sec,
        }
    }
}

/// What the client does about a message besides updating its session.
#[derive(Debug, PartialEq)]
pub enum ClientAction {
    /// Nothing.
    Nothing,
    /// Build the maze of this level.
    CreateMaze { lvl: usize },
    /// The server turned the session away: leave.
    Quit,
    /// The match is won: say so.
    Victory,
    /// The last life is gone: send `farewell` to the server, disconnect and
    /// say that the match is lost.
    Defeat { farewell: GameEvent },
}

/// A [`ClientAction`] over mathematical values.
pub enum ClientActionView {
    Nothing,
    CreateMaze { lvl: usize },
    Quit,
    Victory,
    Defeat { farewell: GameEventView },
}

impl View for ClientAction {
    type V = ClientActionView;

    open spec fn view(&self) -> ClientActionView {
        match *self {
            ClientAction::Nothing => ClientActionView::Nothing,
            ClientAction::CreateMaze { lvl } => ClientActionView::CreateMaze { lvl },
            ClientAction::Quit => ClientActionView::Quit,
            ClientAction::Victory => ClientActionView::Victory,
            ClientAction::Defeat { farewell } => ClientActionView::Defeat { farewell: farewell@ },
        }
    }
}

impl ClientSessionView {
    /// The session of a client that has just connected.
    pub open spec fn fresh() -> ClientSessionView {
        ClientSessionView {
            lives: NBR_OF_LIVES,
            location: PositionInitial { x: 0, y: 0, z: 0 },
            spawn_info: PlayerSpawnInfo { player_id: None, position: None },
            list: Map::empty(),
            game_state: GameState::waiting(),
            sec: i32::MAX,
        }
    }

    /// Whether `event` is the hit that takes the last life.
    pub open spec fn is_last_hit(self, event: GameEventView) -> bool {
        event is Impact && self.lives == 1
    }

    /// The session after `event` arrived from the server.
    pub open spec fn after(self, event: GameEventView) -> ClientSessionView {
        match event {
            GameEventView::Spawn { player_id, position, .. } => ClientSessionView {
                location: PositionInitial { x: position.x, y: position.y, z: position.z },
                spawn_info: PlayerSpawnInfo {
                    player_id: Some(player_id),
                    position: Some(position),
                },
                ..self
            },
            GameEventView::PlayerMove { player_list, .. } => ClientSessionView {
                list: player_list,
                ..self
            },
            GameEventView::Timer { duration } => ClientSessionView { sec: duration as i32, ..self },
            GameEventView::BeginGame { .. } => ClientSessionView {
                game_state: GameState::started(),
                ..self
            },
            GameEventView::Impact { .. } => if self.lives == 0 {
                self
            } else {
                ClientSessionView {
                    lives: (self.lives - 1) as u8,
                    game_state: if self.is_last_hit(event) {
                        GameState::ended()
                    } else {
                        self.game_state
                    },
                    ..self
                }
            },
            _ => self,
        }
    }

    /// What the client does about `event` besides updating the session.
    pub open spec fn reaction(self, event: GameEventView) -> ClientActionView {
        match event {
            GameEventView::Spawn { lvl, .. } => ClientActionView::CreateMaze { lvl },
            GameEventView::AccessForbidden => ClientActionView::Quit,
            GameEventView::EndGame => ClientActionView::Victory,
            GameEventView::Impact { id } => if self.is_last_hit(event) {
                ClientActionView::Defeat { farewell: GameEventView::Death { player_id: id } }
            } else {
                ClientActionView::Nothing
            },
            _ => ClientActionView::Nothing,
        }
    }
}

impl ClientSession {
    /// The session of a client that has just connected.
    pub fn new() -> (session: Self)
        ensures
            session@ == ClientSessionView::fresh(),
    {
        let session = Self {
            lives: LifeCounter::new(),
            location: PositionInitial::default(),
            spawn_info: PlayerSpawnInfo { player_id: None, position: None },
            liste_player: ListPlayer::default(),
            game_state: GameState::new(),
            game_timer: GameTimer { sec: GameTimer::UNKNOWN },
        };
        assert(session@.list =~= Map::empty());
        session
    }

    /// Takes in one message of the server and says what else is to be done
    /// about it.
    ///
    /// A hit takes a life; the hit that takes the last one ends the match
    /// for this client, which reports its death. A hit on a client that has
    /// no life left changes nothing.
    pub fn handle_server_event(&mut self, event: GameEvent) -> (action: ClientAction)
        ensures
            final(self)@ == old(self)@.after(event@),
            action@ == old(self)@.reaction(event@),
    {
        match event {
            GameEvent::Spawn { player_id, position, lvl } => {
                self.location = PositionInitial { x: position.x, y: position.y, z: position.z };
                self.spawn_info = PlayerSpawnInfo {
                    player_id: Some(player_id),
                    position: Some(position),
                };
                ClientAction::CreateMaze { lvl }
            },
            GameEvent::PlayerMove { player_list, .. } => {
                self.liste_player.list = player_list;
                ClientAction::Nothing
            },
            GameEvent::Timer { duration } => {
                self.game_timer.sec = duration as i32;
                ClientAction::Nothing
            },
            GameEvent::BeginGame { .. } => {
                self.game_state.start_game();
                ClientAction::Nothing
            },
            GameEvent::AccessForbidden => ClientAction::Quit,
            GameEvent::EndGame => ClientAction::Victory,
            GameEvent::Impact { id } => {
                if self.lives.val == 0 {
                    return ClientAction::Nothing;
                }
                self.lives.reduce();
                if self.lives.val == 0 {
                    self.game_state.end_game();
                    ClientAction::Defeat { farewell: GameEvent::Death { player_id: id } }
                } else {
                    ClientAction::Nothing
                }
            },
            GameEvent::PlayerJoined { .. } => ClientAction::Nothing,
            GameEvent::PlayerDisconnected { .. } => ClientAction::Nothing,
            GameEvent::Death { .. } => ClientAction::Nothing,
        }
    }
}

} // verus!
