use std::collections::HashMap;
use vstd::prelude::*;
use vstd::std_specs::hash::group_hash_axioms;

use crate::chance::index_below;
use crate::constant::NBR_OF_LIVES;
use crate::event::{GameEvent, GameEventView};
use crate::laws::lemma_consume_preserves_wf;
use crate::lvl::{get_spawn_positions, spawn_table};
use crate::player::{Players, PlayersView, Position};
use crate::roster::{
    find_player, is_first_owner, lemma_player_of, lowest_id, others, owns, player_of, roster_view,
};

verus! {

broadcast use group_hash_axioms;

/// The phase a match is in. Not the whole [`GameState`].
#[derive(Debug, Clone, Copy, PartialEq, Eq, Hash, Structural)]
pub enum Stage {
    PreGame,
    InGame,
    Ended,
}

impl Stage {
    /// Position of the phase in the course of a match.
    pub open spec fn rank(self) -> nat {
        match self {
            Stage::PreGame => 0,
            Stage::InGame => 1,
            Stage::Ended => 2,
        }
    }
}

/// Why a match ended.
#[derive(Debug, Clone, Copy, PartialEq, Eq, Structural)]
pub enum EndGameReason {
    PlayerWon { winner: u64 },
}

/// The match as the server holds it.
#[derive(Debug, PartialEq)]
pub struct GameState {
    pub stage: Stage,
    /// The players in the match, by player id.
    pub players: HashMap<u8, Players>,
    /// Every consumed event, oldest first.
    pub history: Vec<GameEvent>,
    /// The id that the next player gets.
    pub id_counter: u8,
    pub lvl: usize,
    /// The spawn points that no player has drawn yet.
    pub spawn_positions: Vec<Position>,
}

/// The match over mathematical values: what the contracts speak of.
pub struct GameStateView {
    pub stage: Stage,
    pub players: Map<u8, PlayersView>,
    pub history: Seq<GameEventView>,
    pub id_counter: u8,
    pub lvl: usize,
    pub spawn_positions: Seq<Position>,
}

impl View for GameState {
    type V = GameStateView;

    open spec fn view(&self) -> GameStateView {
        GameStateView {
            stage: self.stage,
            players: roster_view(self.players@),
            history: Seq::new(self.history@.len(), |i: int| self.history@[i]@),
            id_counter: self.id_counter,
            lvl: self.lvl,
            spawn_positions: self.spawn_positions@,
        }
    }
}

impl GameStateView {
    /// The state before anybody joined: an open lobby on level 1 with no
    /// spawn points loaded.
    pub open spec fn initial() -> GameStateView {
        GameStateView {
            stage: Stage::PreGame,
            players: Map::empty(),
            history: Seq::empty(),
            id_counter: 0,
            lvl: 1,
            spawn_positions: Seq::empty(),
        }
    }

    /// The record of a player that just joined.
    pub open spec fn newcomer(
        player_id: u8,
        name: Seq<char>,
        position: Position,
        client_id: u64,
    ) -> PlayersView {
        PlayersView {
            name,
            id: player_id,
            client_id,
            position,
            vision: (0, 0),
            lives: NBR_OF_LIVES,
        }
    }

    /// Whether `event`, sent by the session `client_id`, may be consumed in
    /// this state.
    pub open spec fn validate(self, event: GameEventView, client_id: u64) -> bool {
        match event {
            GameEventView::BeginGame { .. } => self.stage == Stage::PreGame,
            GameEventView::EndGame => self.stage == Stage::InGame,
            GameEventView::PlayerJoined { player_id, .. } => {
                self.stage == Stage::PreGame && !self.players.contains_key(player_id)
            },
            GameEventView::PlayerDisconnected { player_id } => self.players.contains_key(player_id),
            GameEventView::PlayerMove { .. } => player_of(self.players, client_id) is Some,
            GameEventView::Spawn { .. } => self.stage == Stage::PreGame,
            GameEventView::Impact { id } => self.players.contains_key(id) && self.players[id].lives
                > 0,
            GameEventView::Death { player_id } => self.players.contains_key(player_id),
            GameEventView::Timer { .. } => false,
            GameEventView::AccessForbidden => false,
        }
    }

    /// The players after `event` of the session `client_id` was consumed.
    pub open spec fn players_after(self, event: GameEventView, client_id: u64) -> Map<
        u8,
        PlayersView,
    > {
        match event {
            GameEventView::PlayerJoined { player_id, name, position, client_id: session } => {
                self.players.insert(
                    player_id,
                    GameStateView::newcomer(player_id, name, position, session),
                )
            },
            GameEventView::PlayerDisconnected { player_id } => self.players.remove(player_id),
            GameEventView::Death { player_id } => self.players.remove(player_id),
            GameEventView::PlayerMove { at, vision, .. } => match player_of(
                self.players,
                client_id,
            ) {
                Some(id) => self.players.insert(
                    id,
                    PlayersView { position: at, vision, ..self.players[id] },
                ),
                None => self.players,
            },
            GameEventView::Impact { id } => self.players.insert(
                id,
                PlayersView { lives: (self.players[id].lives - 1) as u8, ..self.players[id] },
            ),
            _ => self.players,
        }
    }

    /// The phase after `event` was consumed.
    pub open spec fn stage_after(self, event: GameEventView) -> Stage {
        match event {
            GameEventView::BeginGame { .. } => Stage::InGame,
            GameEventView::EndGame => Stage::Ended,
            _ => self.stage,
        }
    }

    /// The state after `event` of the session `client_id` was consumed.
    pub open spec fn consume(self, event: GameEventView, client_id: u64) -> GameStateView {
        GameStateView {
            stage: self.stage_after(event),
            players: self.players_after(event, client_id),
            history: self.history.push(event),
            ..self
        }
    }

    /// What the server announces for `event` of the session `client_id`: the
    /// event itself, but for a move, which names the player that the session
    /// really plays and lists every other player as it stands after the move.
    pub open spec fn outbound(self, event: GameEventView, client_id: u64) -> GameEventView {
        match event {
            GameEventView::PlayerMove { at, vision, .. } => match player_of(
                self.players,
                client_id,
            ) {
                Some(id) => GameEventView::PlayerMove {
                    player_id: id,
                    at,
                    player_list: self.players_after(event, client_id).remove(id),
                    vision,
                },
                None => event,
            },
            _ => event,
        }
    }

    /// The last player standing: the only player of a running match.
    pub open spec fn winner(self) -> Option<u8> {
        if self.stage == Stage::InGame && exists|id: u8| self.players.dom() == set![id] {
            Some(choose|id: u8| self.players.dom() == set![id])
        } else {
            None
        }
    }

    /// The session of the player `id`, `u64::MAX` where there is no such
    /// player.
    pub open spec fn client_of(self, id: u8) -> u64 {
        if self.players.contains_key(id) {
            self.players[id].client_id
        } else {
            u64::MAX
        }
    }

    /// The state after the id counter went up by one.
    pub open spec fn with_next_id(self) -> GameStateView {
        GameStateView { id_counter: (self.id_counter + 1) as u8, ..self }
    }

    /// The state after the spawn point at `index` was drawn.
    pub open spec fn without_spawn(self, index: int) -> GameStateView {
        GameStateView { spawn_positions: self.spawn_positions.remove(index), ..self }
    }

    /// Whether `event` is a join under an id that the counter has not
    /// handed out yet. The state accepts such a join like any other, so a
    /// caller that lets one through gives up [`GameStateView::wf`].
    pub open spec fn is_forged_join(self, event: GameEventView) -> bool {
        event matches GameEventView::PlayerJoined { player_id, .. } && player_id
            >= self.id_counter
    }

    /// Every player has an id that the counter has handed out, and stands
    /// under that id.
    pub open spec fn wf(self) -> bool {
        &&& self.players.dom().finite()
        &&& forall|id: u8| #[trigger]
            self.players.contains_key(id) ==> id < self.id_counter && self.players[id].id == id
    }
}

impl Default for GameState {
    fn default() -> (state: Self)
        ensures
            state@ == GameStateView::initial(),
    {
        let state = Self {
            stage: Stage::PreGame,
            players: HashMap::new(),
            history: Vec::new(),
            id_counter: 0,
            lvl: 1,
            spawn_positions: Vec::new(),
        };
        assert(state@.players =~= Map::empty());
        assert(state@.history =~= Seq::empty());
        state
    }
}

impl Clone for GameState {
    fn clone(&self) -> (state: Self)
        ensures
            state@ == self@,
    {
        let state = Self {
            stage: self.stage,
            players: self.players.clone(),
            history: self.history.clone(),
            id_counter: self.id_counter,
            lvl: self.lvl,
            spawn_positions: self.spawn_positions.clone(),
        };
        assert(state@.history =~= self@.history);
        assert(state@.spawn_positions =~= self@.spawn_positions);
        state
    }
}

impl GameState {
    /// Says whether `event`, sent by the session `client_id`, may be consumed
    /// now. Changes nothing.
    ///
    /// A match begins only from the lobby and ends only while it runs. A
    /// join needs the lobby and a free id, and so does a spawn the lobby. A
    /// disconnect and a death need the player they name, an impact a player
    /// with a life left. A move needs a player that the session plays,
    /// whatever id it names. `Timer` and `AccessForbidden` are for the server
    /// alone to say and are never accepted.
    pub fn validate(&self, event: &GameEvent, client_id: u64) -> (valid: bool)
        ensures
            valid == self@.validate(event@, client_id),
    {
        match event {
            GameEvent::BeginGame { .. } => self.stage == Stage::PreGame,
            GameEvent::EndGame => self.stage == Stage::InGame,
            GameEvent::PlayerJoined { player_id, .. } => {
                self.stage == Stage::PreGame && !self.players.contains_key(player_id)
            },
            GameEvent::PlayerDisconnected { player_id } => self.players.contains_key(player_id),
            GameEvent::PlayerMove { .. } => find_player(&self.players, client_id).is_some(),
            GameEvent::Spawn { .. } => self.stage == Stage::PreGame,
            GameEvent::Impact { id } => match self.players.get(id) {
                Some(target) => target.lives > 0,
                None => false,
            },
            GameEvent::Death { player_id } => self.players.contains_key(player_id),
            GameEvent::Timer { .. } => false,
            GameEvent::AccessForbidden => false,
        }
    }

    /// Applies an event that [`GameState::validate`] accepted, files it in
    /// the history and returns what is to be announced.
    pub fn consume(&mut self, valid_event: &GameEvent, client_id: u64) -> (outbound: GameEvent)
        requires
            old(self)@.validate(valid_event@, client_id),
        ensures
            final(self)@ == old(self)@.consume(valid_event@, client_id),
            outbound@ == old(self)@.outbound(valid_event@, client_id),
            old(self)@.wf() && !old(self)@.is_forged_join(valid_event@) ==> final(self)@.wf(),
    {
        proof {
            if self@.wf() && !self@.is_forged_join(valid_event@) {
                lemma_consume_preserves_wf(self@, valid_event@, client_id);
            }
        }
        let outbound = match valid_event {
            GameEvent::BeginGame { player_list } => {
                self.stage = Stage::InGame;
                GameEvent::BeginGame { player_list: player_list.clone() }
            },
            GameEvent::EndGame => {
                self.stage = Stage::Ended;
                GameEvent::EndGame
            },
            GameEvent::PlayerJoined { player_id, name, position, client_id } => {
                self.players.insert(
                    *player_id,
                    Players {
                        name: name.clone(),
                        id: *player_id,
                        position: *position,
                        client_id: *client_id,
                        vision: (0, 0),
                        lives: NBR_OF_LIVES,
                    },
                );
                valid_event.clone()
            },
            GameEvent::PlayerDisconnected { player_id } => {
                self.players.remove(player_id);
                GameEvent::PlayerDisconnected { player_id: *player_id }
            },
            GameEvent::PlayerMove { at, vision, .. } => {
                let id = find_player(&self.players, client_id).unwrap();
                proof {
                    lemma_player_of(roster_view(self.players@), client_id);
                }
                let record = self.players.get(&id).unwrap();
                let moved = Players {
                    name: record.name.clone(),
                    id: record.id,
                    client_id: record.client_id,
                    position: *at,
                    vision: *vision,
                    lives: record.lives,
                };
                self.players.insert(id, moved);
                GameEvent::PlayerMove {
                    player_id: id,
                    at: *at,
                    player_list: others(&self.players, id),
                    vision: *vision,
                }
            },
            GameEvent::Impact { id } => {
                let record = self.players.get(id).unwrap();
                let hit = Players {
                    name: record.name.clone(),
                    id: record.id,
                    client_id: record.client_id,
                    position: record.position,
                    vision: record.vision,
                    lives: record.lives - 1,
                };
                self.players.insert(*id, hit);
                GameEvent::Impact { id: *id }
            },
            GameEvent::Death { player_id } => {
                self.players.remove(player_id);
                GameEvent::Death { player_id: *player_id }
            },
            GameEvent::Spawn { .. } => valid_event.clone(),
            GameEvent::Timer { .. } => valid_event.clone(),
            GameEvent::AccessForbidden => GameEvent::AccessForbidden,
        };
        self.history.push(valid_event.clone());
        assert(self@.history =~= old(self)@.history.push(valid_event@));
        assert(self@.players =~= old(self)@.players_after(valid_event@, client_id));
        outbound
    }

    /// The winner, once a running match is down to one player.
    pub fn determine_winner(&self) -> (winner: Option<u8>)
        ensures
            winner == self@.winner(),
            winner is Some <==> self@.stage == Stage::InGame && self@.players.len() == 1,
            winner matches Some(id) ==> self@.players.dom() == set![id],
    {
        let ghost table = self@.players;
        assert(table.dom() =~= self.players@.dom());
        if self.players.len() == 1 && self.stage == Stage::InGame {
            let first = lowest_id(&self.players);
            proof {
                if first is None {
                    assert(table.dom() =~= Set::<u8>::empty());
                }
            }
            let id = first.unwrap();
            proof {
                Set::lemma_is_singleton(table.dom());
                assert(table.dom() =~= set![id]);
                let chosen = choose|id: u8| table.dom() == set![id];
                assert(set![chosen].contains(id));
            }
            Some(id)
        } else {
            proof {
                if exists|id: u8| table.dom() == set![id] {
                    let id = choose|id: u8| table.dom() == set![id];
                    assert(set![id].len() == 1);
                }
            }
            None
        }
    }

    /// Hands out the next player id.
    ///
    /// The counter cannot pass 255, so a caller asks only while it is below.
    pub fn generate_id(&mut self) -> (id: u8)
        requires
            old(self).id_counter < u8::MAX,
        ensures
            id == old(self).id_counter,
            final(self)@ == old(self)@.with_next_id(),
            old(self)@.wf() ==> final(self)@.wf(),
    {
        let id = self.id_counter;
        self.id_counter += 1;
        id
    }

    /// Selects the level and loads a fresh pool of spawn points.
    pub fn set_lvl(&mut self, lvl: usize)
        ensures
            final(self)@ == (GameStateView { lvl, spawn_positions: spawn_table(), ..old(self)@ }),
    {
        self.lvl = lvl;
        self.spawn_positions = get_spawn_positions();
    }

    /// Draws the spawn point at `index`: it leaves the pool and is returned.
    pub fn take_spawn(&mut self, index: usize) -> (position: Position)
        requires
            index < old(self).spawn_positions.len(),
        ensures
            position == old(self)@.spawn_positions[index as int],
            final(self)@ == old(self)@.without_spawn(index as int),
            old(self)@.wf() ==> final(self)@.wf(),
    {
        self.spawn_positions.remove(index)
    }

    /// Draws a spawn point at random: it leaves the pool and is returned.
    ///
    /// An empty pool has nothing to draw, so a caller asks only while a
    /// point is left.
    pub fn random_spawn(&mut self) -> (position: Position)
        requires
            old(self).spawn_positions.len() > 0,
        ensures
            exists|index: int|
                0 <= index < old(self)@.spawn_positions.len()
                    && position == old(self)@.spawn_positions[index] && final(self)@ == old(
                    self,
                )@.without_spawn(index),
    {
        let mut rng = rand::thread_rng();
        let index = index_below(&mut rng, self.spawn_positions.len());
        let position = self.take_spawn(index);
        assert(position == old(self)@.spawn_positions[index as int] && self@ == old(
            self,
        )@.without_spawn(index as int));
        position
    }

    /// The player that the session `client_id` plays, 255 where it plays
    /// none.
    pub fn get_player_id(&self, client_id: u64) -> (id: u8)
        ensures
            id == match player_of(self@.players, client_id) {
                Some(found) => found,
                None => u8::MAX,
            },
            is_first_owner(self@.players, client_id, id) || (id == u8::MAX && forall|any: u8|
                !owns(self@.players, client_id, any)),
    {
        proof {
            lemma_player_of(self@.players, client_id);
        }
        match find_player(&self.players, client_id) {
            Some(found) => found,
            None => u8::MAX,
        }
    }

    /// The session of the player `id`, `u64::MAX` where there is no such
    /// player.
    pub fn get_client_id(&self, id: u8) -> (client_id: u64)
        ensures
            client_id == self@.client_of(id),
    {
        match self.players.get(&id) {
            Some(record) => record.client_id,
            None => u64::MAX,
        }
    }
}

} // verus!
