//! What holds of every match, whatever the events.

use vstd::prelude::*;

use crate::event::GameEventView;
use crate::game_state::{GameStateView, Stage};
use crate::lifecycle::{JoinError, MatchControllerView};
use crate::roster::{lemma_player_of, player_of};

verus! {

/// The events that clients sent, each with its session, oldest first.
pub type Trace = Seq<(GameEventView, u64)>;

/// The state after the server went through `trace`: it consumes each event
/// that the state of the moment accepts and drops the others.
pub open spec fn replay(state: GameStateView, trace: Trace) -> GameStateView
    decreases trace.len(),
{
    if trace.len() == 0 {
        state
    } else {
        let before = replay(state, trace.drop_last());
        let (event, client_id) = trace.last();
        if before.validate(event, client_id) {
            before.consume(event, client_id)
        } else {
            before
        }
    }
}

/// The fresh state is well formed: it has no players.
pub proof fn lemma_initial_state_is_wf()
    ensures
        GameStateView::initial().wf(),
{
}

/// Players keep ids that the counter has handed out: consuming an accepted
/// event leaves every player id below the counter, provided a join carries
/// such an id itself.
pub proof fn lemma_consume_preserves_wf(state: GameStateView, event: GameEventView, client_id: u64)
    requires
        state.wf(),
        state.validate(event, client_id),
        !state.is_forged_join(event),
    ensures
        state.consume(event, client_id).wf(),
{
    lemma_player_of(state.players, client_id);
}

/// Handing out an id and drawing a spawn point leave the state well formed.
pub proof fn lemma_allocation_preserves_wf(state: GameStateView, index: int)
    requires
        state.wf(),
        state.id_counter < u8::MAX,
    ensures
        state.with_next_id().wf(),
        state.without_spawn(index).wf(),
{
}

/// The stage never regresses: an accepted event leaves it alone, opens the
/// match from the lobby, or ends a running match.
pub proof fn lemma_stage_only_advances(state: GameStateView, event: GameEventView, client_id: u64)
    requires
        state.validate(event, client_id),
    ensures
        ({
            let next = state.consume(event, client_id).stage;
            ||| next == state.stage
            ||| state.stage == Stage::PreGame && next == Stage::InGame && event is BeginGame
            ||| state.stage == Stage::InGame && next == Stage::Ended && event is EndGame
        }),
        state.stage.rank() <= state.consume(event, client_id).stage.rank(),
{
}

/// A match is started once and ended once: right after an accepted
/// `BeginGame` no session can begin it again, and right after an accepted
/// `EndGame` no session can end it again.
pub proof fn lemma_begin_and_end_at_most_once(
    state: GameStateView,
    event: GameEventView,
    client_id: u64,
    again: GameEventView,
    other_client: u64,
)
    requires
        state.validate(event, client_id),
    ensures
        event is BeginGame && again is BeginGame ==> !state.consume(event, client_id).validate(
            again,
            other_client,
        ),
        event is EndGame && again is EndGame ==> !state.consume(event, client_id).validate(
            again,
            other_client,
        ),
{
}

/// An ended match stays ended.
pub proof fn lemma_ended_is_terminal(state: GameStateView, event: GameEventView, client_id: u64)
    requires
        state.stage == Stage::Ended,
        state.validate(event, client_id),
    ensures
        state.consume(event, client_id).stage == Stage::Ended,
{
}

/// Over any run of events the stage only moves forward.
pub proof fn lemma_replay_stage_only_advances(state: GameStateView, trace: Trace)
    ensures
        state.stage.rank() <= replay(state, trace).stage.rank(),
    decreases trace.len(),
{
    if trace.len() > 0 {
        lemma_replay_stage_only_advances(state, trace.drop_last());
    }
}

/// No stage is revisited: once a run of events has left the stage it started
/// in, no continuation of the run brings that stage back.
pub proof fn lemma_stage_never_revisited(state: GameStateView, trace: Trace, more: Trace)
    requires
        replay(state, trace).stage != state.stage,
    ensures
        replay(state, trace + more).stage != state.stage,
{
    lemma_replay_stage_only_advances(state, trace);
    lemma_replay_concat(state, trace, more);
    lemma_replay_stage_only_advances(replay(state, trace), more);
}

/// Going through two runs in a row is going through the first and then,
/// from where it ended, through the second.
pub proof fn lemma_replay_concat(state: GameStateView, trace: Trace, more: Trace)
    ensures
        replay(state, trace + more) == replay(replay(state, trace), more),
    decreases more.len(),
{
    if more.len() == 0 {
        assert(trace + more =~= trace);
    } else {
        assert((trace + more).drop_last() =~= trace + more.drop_last());
        lemma_replay_concat(state, trace, more.drop_last());
    }
}

/// Going through events never moves the id counter.
pub proof fn lemma_replay_keeps_id_counter(state: GameStateView, trace: Trace)
    ensures
        replay(state, trace).id_counter == state.id_counter,
    decreases trace.len(),
{
    if trace.len() > 0 {
        lemma_replay_keeps_id_counter(state, trace.drop_last());
    }
}

/// Over any run of events that holds no forged join, the players keep ids
/// that the counter has handed out.
pub proof fn lemma_replay_preserves_wf(state: GameStateView, trace: Trace)
    requires
        state.wf(),
        forall|i: int| 0 <= i < trace.len() ==> !state.is_forged_join(#[trigger] trace[i].0),
    ensures
        replay(state, trace).wf(),
    decreases trace.len(),
{
    if trace.len() > 0 {
        let before = replay(state, trace.drop_last());
        assert forall|i: int| 0 <= i < trace.drop_last().len() implies !state.is_forged_join(
            #[trigger] trace.drop_last()[i].0,
        ) by {
            assert(trace.drop_last()[i] == trace[i]);
        }
        lemma_replay_preserves_wf(state, trace.drop_last());
        lemma_replay_keeps_id_counter(state, trace.drop_last());
        let (event, client_id) = trace.last();
        assert(!state.is_forged_join(trace[trace.len() - 1].0));
        if before.validate(event, client_id) {
            lemma_consume_preserves_wf(before, event, client_id);
        }
    }
}

/// A player can leave only once: a `PlayerDisconnected` for an id that is
/// not in the match is rejected, whoever sends it.
pub proof fn lemma_disconnect_of_absent_player_is_rejected(
    state: GameStateView,
    player_id: u8,
    client_id: u64,
)
    requires
        !state.players.contains_key(player_id),
    ensures
        !state.validate(GameEventView::PlayerDisconnected { player_id }, client_id),
{
}

/// Right after a `PlayerDisconnected` or a `Death` was consumed, the same
/// event is rejected: it is never consumed twice in a row.
pub proof fn lemma_removal_is_not_repeated(
    state: GameStateView,
    event: GameEventView,
    client_id: u64,
    other_client: u64,
)
    requires
        event is PlayerDisconnected || event is Death,
        state.validate(event, client_id),
    ensures
        !state.consume(event, client_id).validate(event, other_client),
{
}

/// A move changes the record of the player that the sending session plays,
/// and no other: the id written in the event counts for nothing.
pub proof fn lemma_move_changes_only_the_senders_record(
    state: GameStateView,
    event: GameEventView,
    client_id: u64,
)
    requires
        event is PlayerMove,
        state.validate(event, client_id),
    ensures
        ({
            let mover = player_of(state.players, client_id)->Some_0;
            let after = state.consume(event, client_id).players;
            &&& state.players[mover].client_id == client_id
            &&& after.dom() == state.players.dom()
            &&& after[mover].position == event->at
            &&& after[mover].vision == event->PlayerMove_vision
            &&& forall|id: u8| id != mover ==> after[id] == state.players[id]
            &&& state.outbound(event, client_id)->PlayerMove_player_id == mover
        }),
{
    lemma_player_of(state.players, client_id);
    let mover = player_of(state.players, client_id)->Some_0;
    let after = state.consume(event, client_id).players;
    assert(after.dom() =~= state.players.dom());
}

/// In a well-formed lobby the id that the counter hands out next is free:
/// a join never fails on a taken id.
pub proof fn lemma_next_id_is_free(state: GameStateView)
    requires
        state.wf(),
    ensures
        state.join_error() != Some(JoinError::IdTaken),
{
}

/// A join leaves the state well formed, and the new player stands under
/// the id that the counter handed out.
pub proof fn lemma_join_preserves_wf(
    state: GameStateView,
    client_id: u64,
    name: Seq<char>,
    index: int,
)
    requires
        state.wf(),
        state.stage == Stage::PreGame,
        state.join_error() is None,
        0 <= index < state.spawn_positions.len(),
    ensures
        state.joined(client_id, name, index).wf(),
        state.joined(client_id, name, index).players.contains_key(state.id_counter),
        state.joined(client_id, name, index).players[state.id_counter].client_id == client_id,
        state.joined(client_id, name, index).id_counter == state.id_counter + 1,
        state.joined(client_id, name, index).spawn_positions.len() + 1
            == state.spawn_positions.len(),
{
    let allocated = state.with_next_id().without_spawn(index);
    let event = state.join_event(client_id, name, index);
    assert(allocated.validate(event, client_id));
    lemma_consume_preserves_wf(allocated, event, client_id);
    let entered = state.entered(client_id, name, index);
    let begin = GameEventView::BeginGame { player_list: entered.players };
    if entered.validate(begin, client_id) {
        lemma_consume_preserves_wf(entered, begin, client_id);
    }
}

/// Ending the match where a winner stands leaves the state well formed and
/// no winner waiting.
pub proof fn lemma_settled(state: GameStateView, client_id: u64)
    ensures
        state.wf() ==> state.settled(client_id).wf(),
        state.settled(client_id).winner() is None,
        state.stage.rank() <= state.settled(client_id).stage.rank(),
        state.settled(client_id).players == state.players,
{
}

/// The loss of a session leaves the state well formed, the stage where it
/// was or further on, and no winner waiting.
pub proof fn lemma_disconnect_keeps_the_match_sound(state: GameStateView, client_id: u64)
    ensures
        state.wf() ==> state.after_disconnect(client_id).wf(),
        state.stage.rank() <= state.after_disconnect(client_id).stage.rank(),
        player_of(state.players, client_id) is Some ==> state.after_disconnect(
            client_id,
        ).winner() is None,
{
    lemma_player_of(state.players, client_id);
    if let Some(player_id) = player_of(state.players, client_id) {
        let event = GameEventView::PlayerDisconnected { player_id };
        if state.wf() {
            lemma_consume_preserves_wf(state, event, client_id);
        }
        lemma_settled(state.consume(event, client_id), client_id);
    }
}

/// A message of a client leaves the state well formed unless it is a
/// forged join, the stage where it was or further on, and, where it was
/// accepted, no winner waiting. A rejected message changes nothing.
pub proof fn lemma_message_keeps_the_match_sound(
    state: GameStateView,
    event: GameEventView,
    client_id: u64,
    sessions: Seq<u64>,
)
    ensures
        state.wf() && !state.is_forged_join(event) ==> state.after_message(event, client_id).wf(),
        state.stage.rank() <= state.after_message(event, client_id).stage.rank(),
        state.validate(event, client_id) ==> state.after_message(event, client_id).winner() is None,
        !state.validate(event, client_id) ==> state.after_message(event, client_id) == state
            && state.message_replies(event, client_id, sessions) == Seq::<
            crate::lifecycle::OutgoingView,
        >::empty(),
{
    if state.validate(event, client_id) {
        if state.wf() && !state.is_forged_join(event) {
            lemma_consume_preserves_wf(state, event, client_id);
        }
        lemma_stage_only_advances(state, event, client_id);
        lemma_settled(state.consume(event, client_id), client_id);
    }
}

/// A tick leaves the state well formed and the stage where it was or
/// further on. The countdown never goes up, and the match begins on the
/// tick that finds or brings it at zero in an open lobby.
pub proof fn lemma_tick_keeps_the_match_sound(controller: MatchControllerView, second_elapsed: bool)
    ensures
        controller.game.wf() ==> controller.after_tick(second_elapsed).game.wf(),
        controller.game.stage.rank() <= controller.after_tick(second_elapsed).game.stage.rank(),
        controller.after_tick(second_elapsed).count_sec <= controller.count_sec,
        controller.after_tick(second_elapsed).game.stage != controller.game.stage <==> (
        controller.game.stage == Stage::PreGame && controller.after_tick(second_elapsed).count_sec
            == 0),
        controller.after_tick(second_elapsed).game.players == controller.game.players,
{
    let begin = GameEventView::BeginGame { player_list: controller.game.players };
    if controller.begins(second_elapsed) && controller.game.wf() {
        lemma_consume_preserves_wf(controller.game, begin, u64::MAX);
    }
}

/// A session that connects outside the lobby gets no record: only a join
/// adds a player, and a join needs an open lobby.
pub proof fn lemma_only_a_lobby_admits(state: GameStateView, event: GameEventView, client_id: u64)
    requires
        state.stage != Stage::PreGame,
        state.validate(event, client_id),
    ensures
        state.consume(event, client_id).players.dom().subset_of(state.players.dom()),
{
    lemma_player_of(state.players, client_id);
}

} // verus!
