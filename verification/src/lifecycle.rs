//! The course of a match on top of the state machine: who is admitted, when
//! the match starts and ends, and who is told about each event.
//!
//! The controller does no input or output. A caller hands it what happened
//! (a session connected, a message arrived, a second went by) and sends the
//! messages that it returns.

use std::collections::HashMap;
use vstd::prelude::*;
use vstd::std_specs::hash::group_hash_axioms;

use crate::constant::{COUNTDOWN_SECONDS, PLAYER_LIMIT};
use crate::event::{GameEvent, GameEventView};
use crate::game_state::{GameState, GameStateView, Stage};
use crate::chance::index_below;
use crate::laws::{
    lemma_disconnect_keeps_the_match_sound, lemma_join_preserves_wf,
    lemma_message_keeps_the_match_sound, lemma_tick_keeps_the_match_sound,
};
use crate::lvl::spawn_table;
use crate::player::{Players, PlayersView, Position};
use crate::roster::{find_player, lemma_player_of, others, player_of, roster_view};

verus! {

broadcast use group_hash_axioms;

/// The sessions that a message goes to.
#[derive(Debug, Clone, Copy, PartialEq, Eq, Structural)]
pub enum Recipient {
    /// Every connected session.
    All,
    /// Every connected session but this one.
    AllExcept(u64),
    /// This session alone.
    Only(u64),
}

/// A message for the transport to send.
#[derive(Debug, PartialEq)]
pub struct Outgoing {
    pub to: Recipient,
    pub event: GameEvent,
}

/// An [`Outgoing`] with its event over mathematical values.
pub struct OutgoingView {
    pub to: Recipient,
    pub event: GameEventView,
}

impl View for Outgoing {
    type V = OutgoingView;

    open spec fn view(&self) -> OutgoingView {
        OutgoingView { to: self.to, event: self.event@ }
    }
}

/// A list of messages, each by its view.
pub open spec fn outgoing_view(messages: Seq<Outgoing>) -> Seq<OutgoingView> {
    Seq::new(messages.len(), |i: int| messages[i]@)
}

/// Why a session that connected to an open lobby could not join.
#[derive(Debug, Clone, Copy, PartialEq, Eq, Structural)]
pub enum JoinError {
    /// The id counter has reached its last value.
    NoIdLeft,
    /// The id that the counter would hand out is held by a player.
    IdTaken,
    /// Every spawn point has been drawn.
    NoSpawnLeft,
}

/// What one tick of the lobby asks of the caller.
#[derive(Debug, PartialEq)]
pub struct Tick {
    pub messages: Vec<Outgoing>,
    /// The countdown went down by one: the caller starts timing the next
    /// second now.
    pub restart_timer: bool,
}

/// The match and the seconds left on the lobby countdown.
#[derive(Debug, PartialEq)]
pub struct MatchController {
    pub game_state: GameState,
    pub count_sec: u8,
}

/// A [`MatchController`] over mathematical values.
pub struct MatchControllerView {
    pub game: GameStateView,
    pub count_sec: u8,
}

impl View for MatchController {
    type V = MatchControllerView;

    open spec fn view(&self) -> MatchControllerView {
        MatchControllerView { game: self.game_state@, count_sec: self.count_sec }
    }
}

/// The players that the session `session` is shown: all but the one it
/// plays itself.
pub open spec fn shown_to(players: Map<u8, PlayersView>, session: u64) -> Map<u8, PlayersView> {
    match player_of(players, session) {
        Some(own) => players.remove(own),
        None => players,
    }
}

/// The message that shows the session `session` where the others stand.
pub open spec fn positions_for(players: Map<u8, PlayersView>, session: u64) -> OutgoingView {
    OutgoingView {
        to: Recipient::Only(session),
        event: GameEventView::PlayerMove {
            player_id: u8::MAX,
            at: Position::origin(),
            player_list: shown_to(players, session),
            vision: (0, 0),
        },
    }
}

/// The messages that follow a move of the session `sender`: one for every
/// session in `sessions` but the sender, in the order of `sessions`.
pub open spec fn move_messages(
    players: Map<u8, PlayersView>,
    sender: u64,
    sessions: Seq<u64>,
) -> Seq<OutgoingView>
    decreases sessions.len(),
{
    if sessions.len() == 0 {
        Seq::empty()
    } else {
        let before = move_messages(players, sender, sessions.drop_last());
        if sessions.last() == sender {
            before
        } else {
            before.push(positions_for(players, sessions.last()))
        }
    }
}

/// The messages that start the match: one for every session in `sessions`,
/// each with the players that this session is shown.
pub open spec fn begin_messages(players: Map<u8, PlayersView>, sessions: Seq<u64>) -> Seq<
    OutgoingView,
> {
    Seq::new(
        sessions.len(),
        |i: int|
            OutgoingView {
                to: Recipient::Only(sessions[i]),
                event: GameEventView::BeginGame { player_list: shown_to(players, sessions[i]) },
            },
    )
}

/// A message to every session.
pub open spec fn to_all(event: GameEventView) -> OutgoingView {
    OutgoingView { to: Recipient::All, event }
}

impl GameStateView {
    /// What stands against a join in an open lobby, `None` where nothing
    /// does.
    pub open spec fn join_error(self) -> Option<JoinError> {
        if self.id_counter == u8::MAX {
            Some(JoinError::NoIdLeft)
        } else if self.players.contains_key(self.id_counter) {
            Some(JoinError::IdTaken)
        } else if self.spawn_positions.len() == 0 {
            Some(JoinError::NoSpawnLeft)
        } else {
            None
        }
    }

    /// The event that announces the session `client_id` as a new player on
    /// the spawn point at `index`.
    pub open spec fn join_event(self, client_id: u64, name: Seq<char>, index: int) -> GameEventView {
        GameEventView::PlayerJoined {
            player_id: self.id_counter,
            name,
            position: self.spawn_positions[index],
            client_id,
        }
    }

    /// The state once the session has its id, its spawn point and its
    /// record.
    pub open spec fn entered(self, client_id: u64, name: Seq<char>, index: int) -> GameStateView {
        self.with_next_id().without_spawn(index).consume(
            self.join_event(client_id, name, index),
            client_id,
        )
    }

    /// The state after the join: the session has entered, and the match has
    /// begun if that filled the lobby.
    pub open spec fn joined(self, client_id: u64, name: Seq<char>, index: int) -> GameStateView {
        let entered = self.entered(client_id, name, index);
        if entered.players.len() == PLAYER_LIMIT {
            entered.consume(GameEventView::BeginGame { player_list: entered.players }, client_id)
        } else {
            entered
        }
    }

    /// The messages of the join: the others learn of the new player, the new
    /// player learns who and where it is, and all learn that the match begins
    /// if the lobby is full.
    pub open spec fn join_messages(self, client_id: u64, name: Seq<char>, index: int) -> Seq<
        OutgoingView,
    > {
        let entered = self.entered(client_id, name, index);
        let welcome = seq![
            OutgoingView {
                to: Recipient::AllExcept(client_id),
                event: self.join_event(client_id, name, index),
            },
            OutgoingView {
                to: Recipient::Only(client_id),
                event: GameEventView::Spawn {
                    player_id: self.id_counter,
                    position: self.spawn_positions[index],
                    lvl: self.lvl,
                },
            },
        ];
        if entered.players.len() == PLAYER_LIMIT {
            welcome.push(to_all(GameEventView::BeginGame { player_list: entered.players }))
        } else {
            welcome
        }
    }

    /// The state after this one has ended the match if a winner stands.
    pub open spec fn settled(self, client_id: u64) -> GameStateView {
        if self.winner() is Some {
            self.consume(GameEventView::EndGame, client_id)
        } else {
            self
        }
    }

    /// `messages`, and the end of the match behind them if a winner stands.
    pub open spec fn settled_messages(self, messages: Seq<OutgoingView>) -> Seq<OutgoingView> {
        if self.winner() is Some {
            messages.push(to_all(GameEventView::EndGame))
        } else {
            messages
        }
    }

    /// The state after the session `client_id` was lost.
    pub open spec fn after_disconnect(self, client_id: u64) -> GameStateView {
        match player_of(self.players, client_id) {
            Some(player_id) => self.consume(
                GameEventView::PlayerDisconnected { player_id },
                client_id,
            ).settled(client_id),
            None => self,
        }
    }

    /// The messages that follow the loss of the session `client_id`.
    pub open spec fn disconnect_messages(self, client_id: u64) -> Seq<OutgoingView> {
        match player_of(self.players, client_id) {
            Some(player_id) => {
                let event = GameEventView::PlayerDisconnected { player_id };
                self.consume(event, client_id).settled_messages(seq![to_all(event)])
            },
            None => Seq::empty(),
        }
    }

    /// The state after `event` arrived from the session `client_id`.
    pub open spec fn after_message(self, event: GameEventView, client_id: u64) -> GameStateView {
        if self.validate(event, client_id) {
            self.consume(event, client_id).settled(client_id)
        } else {
            self
        }
    }

    /// Whom the consumed `event` of the session `client_id` is passed on to.
    pub open spec fn routed(self, event: GameEventView, client_id: u64, sessions: Seq<u64>) -> Seq<
        OutgoingView,
    > {
        let after = self.consume(event, client_id);
        let outbound = self.outbound(event, client_id);
        match outbound {
            GameEventView::PlayerMove { .. } => move_messages(after.players, client_id, sessions),
            GameEventView::Impact { id } => seq![
                OutgoingView { to: Recipient::Only(after.client_of(id)), event: outbound },
            ],
            _ => seq![to_all(outbound)],
        }
    }

    /// The messages that answer `event` of the session `client_id`, with
    /// `sessions` connected.
    pub open spec fn message_replies(
        self,
        event: GameEventView,
        client_id: u64,
        sessions: Seq<u64>,
    ) -> Seq<OutgoingView> {
        if self.validate(event, client_id) {
            self.consume(event, client_id).settled_messages(
                self.routed(event, client_id, sessions),
            )
        } else {
            Seq::empty()
        }
    }
}

impl MatchControllerView {
    /// Whether the countdown goes down by one now.
    pub open spec fn counts_down(self, second_elapsed: bool) -> bool {
        &&& self.game.stage == Stage::PreGame
        &&& second_elapsed
        &&& self.game.players.len() >= 2
        &&& self.count_sec > 0
    }

    /// The seconds on the countdown after this tick.
    pub open spec fn count_after(self, second_elapsed: bool) -> u8 {
        if self.counts_down(second_elapsed) {
            (self.count_sec - 1) as u8
        } else {
            self.count_sec
        }
    }

    /// Whether this tick starts the match.
    pub open spec fn begins(self, second_elapsed: bool) -> bool {
        self.game.stage == Stage::PreGame && self.count_after(second_elapsed) == 0
    }

    /// The controller after one tick.
    pub open spec fn after_tick(self, second_elapsed: bool) -> MatchControllerView {
        MatchControllerView {
            game: if self.begins(second_elapsed) {
                self.game.consume(
                    GameEventView::BeginGame { player_list: self.game.players },
                    u64::MAX,
                )
            } else {
                self.game
            },
            count_sec: self.count_after(second_elapsed),
        }
    }

    /// The messages of one tick: the seconds left if the countdown went
    /// down, then the start of the match if it has run out.
    pub open spec fn tick_messages(self, second_elapsed: bool, sessions: Seq<u64>) -> Seq<
        OutgoingView,
    > {
        let timer = if self.counts_down(second_elapsed) {
            seq![to_all(GameEventView::Timer { duration: self.count_sec })]
        } else {
            Seq::empty()
        };
        if self.begins(second_elapsed) {
            timer + begin_messages(self.game.players, sessions)
        } else {
            timer
        }
    }
}

/// The players that the session `session` is shown.
fn list_for(state: &GameState, session: u64) -> (list: HashMap<u8, Players>)
    ensures
        roster_view(list@) == shown_to(state@.players, session),
{
    match find_player(&state.players, session) {
        Some(own) => others(&state.players, own),
        None => state.players.clone(),
    }
}

impl MatchController {
    /// A controller for a match on level `lvl`: an open lobby, a full pool
    /// of spawn points, the countdown at its start.
    pub fn new(lvl: usize) -> (controller: Self)
        ensures
            controller@ == (MatchControllerView {
                game: GameStateView {
                    lvl,
                    spawn_positions: spawn_table(),
                    ..GameStateView::initial()
                },
                count_sec: COUNTDOWN_SECONDS,
            }),
    {
        let mut game_state = GameState::default();
        game_state.set_lvl(lvl);
        Self { game_state, count_sec: COUNTDOWN_SECONDS }
    }

    /// Says what stands against a join, `None` where nothing does.
    pub fn join_error(&self) -> (error: Option<JoinError>)
        ensures
            error == self@.game.join_error(),
    {
        if self.game_state.id_counter == u8::MAX {
            Some(JoinError::NoIdLeft)
        } else if self.game_state.players.contains_key(&self.game_state.id_counter) {
            Some(JoinError::IdTaken)
        } else if self.game_state.spawn_positions.len() == 0 {
            Some(JoinError::NoSpawnLeft)
        } else {
            None
        }
    }

    /// Lets the session `client_id` into the open lobby on the spawn point
    /// at `index`, and starts the match if that fills the lobby.
    pub fn join_at(&mut self, client_id: u64, name: String, index: usize) -> (messages: Vec<
        Outgoing,
    >)
        requires
            old(self)@.game.stage == Stage::PreGame,
            old(self)@.game.join_error() is None,
            index < old(self)@.game.spawn_positions.len(),
        ensures
            final(self)@.game == old(self)@.game.joined(client_id, name@, index as int),
            final(self)@.count_sec == old(self)@.count_sec,
            outgoing_view(messages@) == old(self)@.game.join_messages(
                client_id,
                name@,
                index as int,
            ),
            old(self)@.game.wf() ==> final(self)@.game.wf(),
    {
        proof {
            if self@.game.wf() {
                lemma_join_preserves_wf(self@.game, client_id, name@, index as int);
            }
        }
        let player_id = self.game_state.generate_id();
        let position = self.game_state.take_spawn(index);
        let event = GameEvent::PlayerJoined { player_id, name, position, client_id };
        let mut messages: Vec<Outgoing> = Vec::new();
        messages.push(Outgoing { to: Recipient::AllExcept(client_id), event: event.clone() });
        messages.push(
            Outgoing {
                to: Recipient::Only(client_id),
                event: GameEvent::Spawn { player_id, position, lvl: self.game_state.lvl },
            },
        );
        self.game_state.consume(&event, client_id);
        assert(self.game_state@ == old(self)@.game.entered(client_id, name@, index as int));
        assert(self.game_state.players@.dom() =~= self.game_state@.players.dom());
        if self.game_state.players.len() == PLAYER_LIMIT {
            let begin = GameEvent::BeginGame { player_list: self.game_state.players.clone() };
            self.game_state.consume(&begin, client_id);
            messages.push(Outgoing { to: Recipient::All, event: begin });
        }
        assert(outgoing_view(messages@) =~= old(self)@.game.join_messages(
            client_id,
            name@,
            index as int,
        ));
        messages
    }

    /// Handles a session that has connected.
    ///
    /// Outside the lobby the session is told `AccessForbidden` and nothing
    /// changes. In the lobby it joins on a spawn point drawn at random,
    /// unless [`JoinError`] says why it cannot; then nothing changes either.
    pub fn on_client_connected(&mut self, client_id: u64, name: String) -> (result: Result<
        Vec<Outgoing>,
        JoinError,
    >)
        ensures
            old(self)@.game.stage != Stage::PreGame ==> {
                &&& final(self)@ == old(self)@
                &&& result matches Ok(messages)
                &&& outgoing_view(messages@) == seq![
                    OutgoingView {
                        to: Recipient::Only(client_id),
                        event: GameEventView::AccessForbidden,
                    },
                ]
            },
            old(self)@.game.stage == Stage::PreGame ==> match old(self)@.game.join_error() {
                Some(error) => {
                    &&& final(self)@ == old(self)@
                    &&& result == Err::<Vec<Outgoing>, JoinError>(error)
                },
                None => exists|index: int|
                    {
                        &&& 0 <= index < old(self)@.game.spawn_positions.len()
                        &&& final(self)@.game == old(self)@.game.joined(client_id, name@, index)
                        &&& final(self)@.count_sec == old(self)@.count_sec
                        &&& result matches Ok(messages)
                        &&& outgoing_view(messages@) == old(self)@.game.join_messages(
                            client_id,
                            name@,
                            index,
                        )
                    },
            },
            old(self)@.game.wf() ==> final(self)@.game.wf(),
            old(self)@.game.stage.rank() <= final(self)@.game.stage.rank(),
    {
        if self.game_state.stage != Stage::PreGame {
            let mut messages: Vec<Outgoing> = Vec::new();
            messages.push(
                Outgoing { to: Recipient::Only(client_id), event: GameEvent::AccessForbidden },
            );
            assert(outgoing_view(messages@) =~= seq![
                OutgoingView {
                    to: Recipient::Only(client_id),
                    event: GameEventView::AccessForbidden,
                },
            ]);
            return Ok(messages);
        }
        match self.join_error() {
            Some(error) => Err(error),
            None => {
                let mut rng = rand::thread_rng();
                let index = index_below(&mut rng, self.game_state.spawn_positions.len());
                let ghost name_view = name@;
                let messages = self.join_at(client_id, name, index);
                assert(self@.game == old(self)@.game.joined(client_id, name_view, index as int));
                Ok(messages)
            },
        }
    }

    /// Ends the match if one player is left in it, and says so behind
    /// `messages`.
    fn settle(&mut self, client_id: u64, messages: &mut Vec<Outgoing>)
        ensures
            final(self)@.game == old(self)@.game.settled(client_id),
            final(self)@.count_sec == old(self)@.count_sec,
            outgoing_view(final(messages)@) == old(self)@.game.settled_messages(
                outgoing_view(old(messages)@),
            ),
    {
        if self.game_state.determine_winner().is_some() {
            self.game_state.consume(&GameEvent::EndGame, client_id);
            messages.push(Outgoing { to: Recipient::All, event: GameEvent::EndGame });
            assert(outgoing_view(messages@) =~= old(self)@.game.settled_messages(
                outgoing_view(old(messages)@),
            ));
        }
    }

    /// Handles the loss of the session `client_id`: its player leaves the
    /// match, all are told, and the match ends if that leaves a winner. A
    /// session that plays nobody changes nothing.
    pub fn on_client_disconnected(&mut self, client_id: u64) -> (messages: Vec<Outgoing>)
        ensures
            final(self)@.game == old(self)@.game.after_disconnect(client_id),
            final(self)@.count_sec == old(self)@.count_sec,
            outgoing_view(messages@) == old(self)@.game.disconnect_messages(client_id),
            old(self)@.game.wf() ==> final(self)@.game.wf(),
            old(self)@.game.stage.rank() <= final(self)@.game.stage.rank(),
    {
        let mut messages: Vec<Outgoing> = Vec::new();
        proof {
            lemma_player_of(self@.game.players, client_id);
            lemma_disconnect_keeps_the_match_sound(self@.game, client_id);
        }
        match find_player(&self.game_state.players, client_id) {
            Some(player_id) => {
                let event = GameEvent::PlayerDisconnected { player_id };
                let outbound = self.game_state.consume(&event, client_id);
                messages.push(Outgoing { to: Recipient::All, event: outbound });
                assert(outgoing_view(messages@) =~= seq![to_all(event@)]);
                self.settle(client_id, &mut messages);
            },
            None => {
                assert(outgoing_view(messages@) =~= Seq::empty());
            },
        }
        messages
    }

    /// The messages that follow a move of the session `sender`.
    fn positions_for_others(&self, sender: u64, sessions: &Vec<u64>) -> (messages: Vec<Outgoing>)
        ensures
            outgoing_view(messages@) == move_messages(self@.game.players, sender, sessions@),
    {
        let mut messages: Vec<Outgoing> = Vec::new();
        let mut i: usize = 0;
        assert(sessions@.take(0) =~= Seq::empty());
        while i < sessions.len()
            invariant
                i <= sessions.len(),
                outgoing_view(messages@) =~= move_messages(
                    self@.game.players,
                    sender,
                    sessions@.take(i as int),
                ),
            decreases sessions.len() - i,
        {
            let session = sessions[i];
            assert(sessions@.take(i + 1).drop_last() =~= sessions@.take(i as int));
            if session != sender {
                messages.push(
                    Outgoing {
                        to: Recipient::Only(session),
                        event: GameEvent::PlayerMove {
                            player_id: u8::MAX,
                            at: Position::default(),
                            player_list: list_for(&self.game_state, session),
                            vision: (0, 0),
                        },
                    },
                );
            }
            i = i + 1;
        }
        assert(sessions@.take(i as int) =~= sessions@);
        messages
    }

    /// The messages that start the match for the sessions in `sessions`.
    fn begin_for_each(&self, sessions: &Vec<u64>, messages: &mut Vec<Outgoing>)
        ensures
            outgoing_view(final(messages)@) == outgoing_view(old(messages)@) + begin_messages(
                self@.game.players,
                sessions@,
            ),
    {
        let mut i: usize = 0;
        while i < sessions.len()
            invariant
                i <= sessions.len(),
                outgoing_view(messages@) =~= outgoing_view(old(messages)@) + begin_messages(
                    self@.game.players,
                    sessions@,
                ).take(i as int),
            decreases sessions.len() - i,
        {
            let session = sessions[i];
            let ghost sent = outgoing_view(messages@);
            messages.push(
                Outgoing {
                    to: Recipient::Only(session),
                    event: GameEvent::BeginGame {
                        player_list: list_for(&self.game_state, session),
                    },
                },
            );
            proof {
                let all = begin_messages(self@.game.players, sessions@);
                assert(outgoing_view(messages@) =~= sent.push(all[i as int]));
                assert(all.take(i + 1) =~= all.take(i as int).push(all[i as int]));
            }
            i = i + 1;
        }
    }

    /// Handles `event`, which arrived from the session `client_id` while
    /// `sessions` were connected.
    ///
    /// An event that the state does not accept is dropped. An accepted one is
    /// consumed and passed on: a move to every other session, each with the
    /// players it is shown; an impact to the session of the player that was
    /// hit; anything else to all. Then the match ends if a winner stands.
    pub fn on_message(&mut self, event: &GameEvent, client_id: u64, sessions: &Vec<u64>) -> (messages:
        Vec<Outgoing>)
        ensures
            final(self)@.game == old(self)@.game.after_message(event@, client_id),
            final(self)@.count_sec == old(self)@.count_sec,
            outgoing_view(messages@) == old(self)@.game.message_replies(
                event@,
                client_id,
                sessions@,
            ),
            old(self)@.game.wf() && !old(self)@.game.is_forged_join(event@)
                ==> final(self)@.game.wf(),
            old(self)@.game.stage.rank() <= final(self)@.game.stage.rank(),
    {
        proof {
            lemma_message_keeps_the_match_sound(self@.game, event@, client_id, sessions@);
        }
        let mut messages: Vec<Outgoing> = Vec::new();
        if !self.game_state.validate(event, client_id) {
            assert(outgoing_view(messages@) =~= Seq::empty());
            return messages;
        }
        let outbound = self.game_state.consume(event, client_id);
        let route = match &outbound {
            GameEvent::PlayerMove { .. } => None,
            GameEvent::Impact { id } => Some(
                Recipient::Only(self.game_state.get_client_id(*id)),
            ),
            _ => Some(Recipient::All),
        };
        match route {
            Some(to) => {
                messages.push(Outgoing { to, event: outbound });
            },
            None => {
                messages = self.positions_for_others(client_id, sessions);
            },
        }
        assert(outgoing_view(messages@) =~= old(self)@.game.routed(event@, client_id, sessions@));
        self.settle(client_id, &mut messages);
        messages
    }

    /// One tick of the lobby. `second_elapsed` says whether more than a
    /// second has gone by since the caller last restarted its timer.
    ///
    /// With two players or more in the lobby each elapsed second takes one
    /// off the countdown and tells all how many were left. When none is
    /// left the match begins, and every session in `sessions` is told with
    /// the players it is shown.
    pub fn on_tick(&mut self, second_elapsed: bool, sessions: &Vec<u64>) -> (tick: Tick)
        ensures
            final(self)@ == old(self)@.after_tick(second_elapsed),
            tick.restart_timer == old(self)@.counts_down(second_elapsed),
            outgoing_view(tick.messages@) == old(self)@.tick_messages(second_elapsed, sessions@),
            old(self)@.game.wf() ==> final(self)@.game.wf(),
            old(self)@.game.stage.rank() <= final(self)@.game.stage.rank(),
    {
        proof {
            lemma_tick_keeps_the_match_sound(self@, second_elapsed);
        }
        let mut messages: Vec<Outgoing> = Vec::new();
        let mut restart_timer = false;
        assert(outgoing_view(messages@) =~= Seq::empty());
        if self.game_state.stage == Stage::PreGame {
            assert(self.game_state.players@.dom() =~= self@.game.players.dom());
            if second_elapsed && self.game_state.players.len() >= 2 && self.count_sec > 0 {
                messages.push(
                    Outgoing {
                        to: Recipient::All,
                        event: GameEvent::Timer { duration: self.count_sec },
                    },
                );
                assert(outgoing_view(messages@) =~= seq![
                    to_all(GameEventView::Timer { duration: self.count_sec }),
                ]);
                self.count_sec = self.count_sec - 1;
                restart_timer = true;
            }
            if self.count_sec == 0 {
                self.begin_for_each(sessions, &mut messages);
                let begin = GameEvent::BeginGame { player_list: self.game_state.players.clone() };
                self.game_state.consume(&begin, u64::MAX);
                assert(begin_messages(old(self)@.game.players, sessions@).take(
                    sessions@.len() as int,
                ) =~= begin_messages(old(self)@.game.players, sessions@));
            }
        }
        Tick { messages, restart_timer }
    }
}

} // verus!
