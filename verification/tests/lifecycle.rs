use std::collections::HashMap;

use maze_wars::{
    get_spawn_positions, GameEvent, GameState, JoinError, MatchController, Outgoing, Players,
    Position, Recipient, Stage, Tick, COUNTDOWN_SECONDS, PLAYER_LIMIT,
};

fn connect(controller: &mut MatchController, client_id: u64) -> Vec<Outgoing> {
    controller.on_client_connected(client_id, format!("s{}", client_id)).unwrap()
}

fn lobby_with(sessions: &[u64]) -> MatchController {
    let mut controller = MatchController::new(1);
    for client_id in sessions {
        connect(&mut controller, *client_id);
    }
    controller
}

fn running_with(sessions: &[u64]) -> MatchController {
    let mut controller = lobby_with(sessions);
    let begin = GameEvent::BeginGame { player_list: HashMap::new() };
    controller.game_state.consume(&begin, u64::MAX);
    controller
}

fn all_but(players: &HashMap<u8, Players>, own: Option<u8>) -> HashMap<u8, Players> {
    let mut list = players.clone();
    if let Some(own) = own {
        list.remove(&own);
    }
    list
}

#[test]
fn new_controller_opens_a_lobby_on_the_level() {
    let controller = MatchController::new(2);
    assert_eq!(controller.count_sec, COUNTDOWN_SECONDS);
    assert_eq!(controller.count_sec, 20);
    assert_eq!(controller.game_state.lvl, 2);
    assert_eq!(controller.game_state.stage, Stage::PreGame);
    assert_eq!(controller.game_state.spawn_positions, get_spawn_positions());
    assert!(controller.game_state.players.is_empty());
    assert_eq!(controller.game_state.id_counter, 0);
    assert_eq!(controller.join_error(), None);
}

#[test]
fn join_tells_the_others_and_spawns_the_newcomer() {
    let mut controller = lobby_with(&[70]);
    let pool = controller.game_state.spawn_positions.clone();
    let messages = controller.on_client_connected(71, "bea".to_string()).unwrap();
    assert_eq!(messages.len(), 2);
    let record = controller.game_state.players[&1].clone();
    assert_eq!(record.name, "bea");
    assert_eq!(record.id, 1);
    assert_eq!(record.client_id, 71);
    assert_eq!(record.lives, 3);
    assert_eq!(record.vision, (0, 0));
    assert!(pool.contains(&record.position));
    assert!(!controller.game_state.spawn_positions.contains(&record.position));
    assert_eq!(controller.game_state.spawn_positions.len(), pool.len() - 1);
    let joined = GameEvent::PlayerJoined {
        player_id: 1,
        name: "bea".to_string(),
        position: record.position,
        client_id: 71,
    };
    assert_eq!(messages[0], Outgoing { to: Recipient::AllExcept(71), event: joined.clone() });
    assert_eq!(
        messages[1],
        Outgoing {
            to: Recipient::Only(71),
            event: GameEvent::Spawn { player_id: 1, position: record.position, lvl: 1 },
        }
    );
    assert_eq!(controller.game_state.id_counter, 2);
    assert_eq!(controller.game_state.history.last(), Some(&joined));
    assert_eq!(controller.game_state.stage, Stage::PreGame);
    assert_eq!(controller.count_sec, 20);
}

#[test]
fn join_at_uses_the_spawn_point_it_is_given() {
    let mut controller = MatchController::new(3);
    let pool = get_spawn_positions();
    let messages = controller.join_at(9, "kim".to_string(), 4);
    assert_eq!(controller.game_state.players[&0].position, pool[4]);
    let mut rest = pool.clone();
    rest.remove(4);
    assert_eq!(controller.game_state.spawn_positions, rest);
    assert_eq!(
        messages,
        vec![
            Outgoing {
                to: Recipient::AllExcept(9),
                event: GameEvent::PlayerJoined {
                    player_id: 0,
                    name: "kim".to_string(),
                    position: pool[4],
                    client_id: 9,
                },
            },
            Outgoing {
                to: Recipient::Only(9),
                event: GameEvent::Spawn { player_id: 0, position: pool[4], lvl: 3 },
            },
        ]
    );
}

#[test]
fn the_last_join_fills_the_lobby_and_begins_the_match() {
    assert_eq!(PLAYER_LIMIT, 10);
    let mut controller = MatchController::new(1);
    for client_id in 0..9u64 {
        let messages = connect(&mut controller, 500 + client_id);
        assert_eq!(messages.len(), 2);
        assert_eq!(controller.game_state.stage, Stage::PreGame);
    }
    let messages = connect(&mut controller, 509);
    assert_eq!(messages.len(), 3);
    assert_eq!(controller.game_state.stage, Stage::InGame);
    assert_eq!(controller.game_state.players.len(), 10);
    assert!(controller.game_state.spawn_positions.is_empty());
    assert_eq!(
        messages[2],
        Outgoing {
            to: Recipient::All,
            event: GameEvent::BeginGame { player_list: controller.game_state.players.clone() },
        }
    );
    assert_eq!(
        controller.game_state.history.last(),
        Some(&GameEvent::BeginGame { player_list: controller.game_state.players.clone() })
    );
    let late = controller.on_client_connected(510, "late".to_string());
    assert_eq!(
        late,
        Ok(vec![Outgoing { to: Recipient::Only(510), event: GameEvent::AccessForbidden }])
    );
    assert_eq!(controller.game_state.players.len(), 10);
}

#[test]
fn join_without_a_spawn_point_is_rejected() {
    let mut controller = MatchController { game_state: GameState::default(), count_sec: 20 };
    assert_eq!(controller.join_error(), Some(JoinError::NoSpawnLeft));
    let result = controller.on_client_connected(1, "a".to_string());
    assert_eq!(result, Err(JoinError::NoSpawnLeft));
    assert_eq!(controller.game_state, GameState::default());

    let mut drained = MatchController::new(1);
    for client_id in 0..5u64 {
        connect(&mut drained, client_id);
    }
    for client_id in 0..5u64 {
        drained.on_client_disconnected(client_id);
    }
    for client_id in 5..10u64 {
        connect(&mut drained, client_id);
    }
    assert_eq!(drained.game_state.stage, Stage::PreGame);
    assert_eq!(drained.game_state.players.len(), 5);
    let before = drained.game_state.clone();
    assert_eq!(drained.on_client_connected(11, "b".to_string()), Err(JoinError::NoSpawnLeft));
    assert_eq!(drained.game_state, before);
}

#[test]
fn join_without_an_id_left_is_rejected() {
    let mut controller = MatchController::new(1);
    controller.game_state.id_counter = 254;
    connect(&mut controller, 1);
    assert_eq!(controller.game_state.id_counter, 255);
    assert!(controller.game_state.players.contains_key(&254));
    let before = controller.game_state.clone();
    assert_eq!(controller.join_error(), Some(JoinError::NoIdLeft));
    assert_eq!(controller.on_client_connected(2, "b".to_string()), Err(JoinError::NoIdLeft));
    assert_eq!(controller.game_state, before);
}

#[test]
fn join_on_a_taken_id_is_rejected() {
    let mut controller = MatchController::new(1);
    let forged = GameEvent::PlayerJoined {
        player_id: 0,
        name: "ghost".to_string(),
        position: Position::new(0, 0, 0),
        client_id: 66,
    };
    assert_eq!(controller.on_message(&forged, 66, &vec![66]).len(), 1);
    assert_eq!(controller.game_state.id_counter, 0);
    let before = controller.game_state.clone();
    assert_eq!(controller.join_error(), Some(JoinError::IdTaken));
    assert_eq!(controller.on_client_connected(2, "b".to_string()), Err(JoinError::IdTaken));
    assert_eq!(controller.game_state, before);
}

#[test]
fn disconnect_in_the_lobby_tells_all() {
    let mut controller = lobby_with(&[1, 2, 3]);
    let messages = controller.on_client_disconnected(2);
    assert_eq!(
        messages,
        vec![Outgoing {
            to: Recipient::All,
            event: GameEvent::PlayerDisconnected { player_id: 1 },
        }]
    );
    assert_eq!(controller.game_state.players.len(), 2);
    assert!(!controller.game_state.players.contains_key(&1));
    assert_eq!(controller.game_state.stage, Stage::PreGame);
}

#[test]
fn disconnect_of_an_unknown_session_changes_nothing() {
    let mut controller = running_with(&[1, 2]);
    let before = controller.game_state.clone();
    assert_eq!(controller.on_client_disconnected(3), vec![]);
    assert_eq!(controller.game_state, before);
    assert_eq!(controller.on_client_disconnected(1).len(), 2);
    let after = controller.game_state.clone();
    assert_eq!(controller.on_client_disconnected(1), vec![]);
    assert_eq!(controller.game_state, after);
}

#[test]
fn disconnect_that_leaves_one_player_ends_the_match() {
    let mut controller = running_with(&[1, 2, 3]);
    let first = controller.on_client_disconnected(1);
    assert_eq!(first.len(), 1);
    assert_eq!(controller.game_state.stage, Stage::InGame);
    let second = controller.on_client_disconnected(3);
    assert_eq!(
        second,
        vec![
            Outgoing { to: Recipient::All, event: GameEvent::PlayerDisconnected { player_id: 2 } },
            Outgoing { to: Recipient::All, event: GameEvent::EndGame },
        ]
    );
    assert_eq!(controller.game_state.stage, Stage::Ended);
    assert_eq!(controller.game_state.players.len(), 1);
    assert!(controller.game_state.players.contains_key(&1));
    let history = &controller.game_state.history;
    assert_eq!(history[history.len() - 1], GameEvent::EndGame);
    assert_eq!(history[history.len() - 2], GameEvent::PlayerDisconnected { player_id: 2 });
}

#[test]
fn disconnect_in_the_lobby_never_ends_the_match() {
    let mut controller = lobby_with(&[1, 2]);
    let messages = controller.on_client_disconnected(1);
    assert_eq!(messages.len(), 1);
    assert_eq!(controller.game_state.players.len(), 1);
    assert_eq!(controller.game_state.stage, Stage::PreGame);
}

#[test]
fn rejected_message_is_dropped() {
    let mut controller = running_with(&[1, 2]);
    let before = controller.game_state.clone();
    let sessions = vec![1, 2];
    let rejected = vec![
        (GameEvent::BeginGame { player_list: HashMap::new() }, 1u64),
        (GameEvent::Timer { duration: 1 }, 1),
        (GameEvent::AccessForbidden, 2),
        (GameEvent::PlayerDisconnected { player_id: 9 }, 1),
        (GameEvent::Impact { id: 9 }, 1),
        (GameEvent::Death { player_id: 9 }, 1),
        (
            GameEvent::PlayerMove {
                player_id: 0,
                at: Position::new(1, 1, 1),
                player_list: HashMap::new(),
                vision: (0, 0),
            },
            3,
        ),
        (GameEvent::Spawn { player_id: 0, position: Position::new(0, 0, 0), lvl: 1 }, 1),
    ];
    for (event, client_id) in rejected {
        assert_eq!(controller.on_message(&event, client_id, &sessions), vec![]);
        assert_eq!(controller.game_state, before);
    }
}

#[test]
fn move_goes_to_every_other_session_with_its_own_list() {
    let mut controller = running_with(&[1, 2, 3]);
    let sessions = vec![3, 1, 2, 8];
    let step = GameEvent::PlayerMove {
        player_id: 2,
        at: Position::new(41, 42, 43),
        player_list: HashMap::new(),
        vision: (5, 6),
    };
    let messages = controller.on_message(&step, 1, &sessions);
    let players = controller.game_state.players.clone();
    assert_eq!(players[&0].position, Position::new(41, 42, 43));
    assert_eq!(players[&0].vision, (5, 6));
    assert_eq!(players[&2].vision, (0, 0));
    let shown = |to: u64, own: Option<u8>| Outgoing {
        to: Recipient::Only(to),
        event: GameEvent::PlayerMove {
            player_id: u8::MAX,
            at: Position::default(),
            player_list: all_but(&players, own),
            vision: (0, 0),
        },
    };
    assert_eq!(messages, vec![shown(3, Some(2)), shown(2, Some(1)), shown(8, None)]);
    for message in &messages {
        assert_ne!(message.to, Recipient::Only(1));
    }
}

#[test]
fn impact_goes_to_the_victim_alone() {
    let mut controller = running_with(&[10, 20, 30]);
    let hit = GameEvent::Impact { id: 2 };
    let messages = controller.on_message(&hit, 10, &vec![10, 20, 30]);
    assert_eq!(messages, vec![Outgoing { to: Recipient::Only(30), event: hit }]);
    assert_eq!(controller.game_state.players[&2].lives, 2);
    assert_eq!(controller.game_state.players[&0].lives, 3);
}

#[test]
fn impact_on_a_player_without_lives_is_dropped() {
    let mut controller = running_with(&[10, 20, 30]);
    let hit = GameEvent::Impact { id: 1 };
    for _ in 0..3 {
        assert_eq!(controller.on_message(&hit, 10, &vec![10, 20, 30]).len(), 1);
    }
    assert_eq!(controller.game_state.players[&1].lives, 0);
    let before = controller.game_state.clone();
    assert_eq!(controller.on_message(&hit, 10, &vec![10, 20, 30]), vec![]);
    assert_eq!(controller.game_state, before);
}

#[test]
fn death_goes_to_all_and_the_last_one_standing_wins() {
    let mut controller = running_with(&[10, 20, 30]);
    let sessions = vec![10, 20, 30];
    let first = GameEvent::Death { player_id: 0 };
    assert_eq!(
        controller.on_message(&first, 10, &sessions),
        vec![Outgoing { to: Recipient::All, event: first }]
    );
    assert_eq!(controller.game_state.stage, Stage::InGame);
    let second = GameEvent::Death { player_id: 2 };
    assert_eq!(
        controller.on_message(&second, 30, &sessions),
        vec![
            Outgoing { to: Recipient::All, event: second },
            Outgoing { to: Recipient::All, event: GameEvent::EndGame },
        ]
    );
    assert_eq!(controller.game_state.stage, Stage::Ended);
    assert_eq!(controller.game_state.determine_winner(), None);
    assert_eq!(controller.game_state.history.last(), Some(&GameEvent::EndGame));
    assert!(controller.game_state.players.contains_key(&1));
}

#[test]
fn other_accepted_messages_go_to_all() {
    let mut controller = lobby_with(&[1, 2]);
    let sessions = vec![1, 2];
    let spawn = GameEvent::Spawn { player_id: 1, position: Position::new(1, 2, 3), lvl: 1 };
    assert_eq!(
        controller.on_message(&spawn, 1, &sessions),
        vec![Outgoing { to: Recipient::All, event: spawn }]
    );
    let begin = GameEvent::BeginGame { player_list: HashMap::new() };
    assert_eq!(
        controller.on_message(&begin, 2, &sessions),
        vec![Outgoing { to: Recipient::All, event: begin }]
    );
    assert_eq!(controller.game_state.stage, Stage::InGame);
    let leave = GameEvent::PlayerDisconnected { player_id: 0 };
    assert_eq!(
        controller.on_message(&leave, 2, &sessions),
        vec![
            Outgoing { to: Recipient::All, event: leave },
            Outgoing { to: Recipient::All, event: GameEvent::EndGame },
        ]
    );
    assert_eq!(controller.game_state.stage, Stage::Ended);
}

#[test]
fn countdown_waits_for_two_players() {
    let mut controller = lobby_with(&[1]);
    for _ in 0..5 {
        let tick = controller.on_tick(true, &vec![1]);
        assert_eq!(tick, Tick { messages: vec![], restart_timer: false });
    }
    assert_eq!(controller.count_sec, 20);
    assert_eq!(controller.game_state.stage, Stage::PreGame);
}

#[test]
fn countdown_waits_for_the_second_to_pass() {
    let mut controller = lobby_with(&[1, 2]);
    let tick = controller.on_tick(false, &vec![1, 2]);
    assert_eq!(tick, Tick { messages: vec![], restart_timer: false });
    assert_eq!(controller.count_sec, 20);
}

#[test]
fn countdown_runs_from_twenty_and_begins_the_match() {
    let mut controller = lobby_with(&[1, 2, 3]);
    let sessions = vec![2, 1, 3, 4];
    let history = controller.game_state.history.len();
    for left in (2..=20u8).rev() {
        let tick = controller.on_tick(true, &sessions);
        assert_eq!(
            tick,
            Tick {
                messages: vec![Outgoing {
                    to: Recipient::All,
                    event: GameEvent::Timer { duration: left },
                }],
                restart_timer: true,
            }
        );
        assert_eq!(controller.count_sec, left - 1);
        assert_eq!(controller.game_state.stage, Stage::PreGame);
        let idle = controller.on_tick(false, &sessions);
        assert_eq!(idle, Tick { messages: vec![], restart_timer: false });
    }
    assert_eq!(controller.count_sec, 1);
    let players = controller.game_state.players.clone();
    let tick = controller.on_tick(true, &sessions);
    let begin = |to: u64, own: Option<u8>| Outgoing {
        to: Recipient::Only(to),
        event: GameEvent::BeginGame { player_list: all_but(&players, own) },
    };
    assert!(tick.restart_timer);
    assert_eq!(
        tick.messages,
        vec![
            Outgoing { to: Recipient::All, event: GameEvent::Timer { duration: 1 } },
            begin(2, Some(1)),
            begin(1, Some(0)),
            begin(3, Some(2)),
            begin(4, None),
        ]
    );
    assert_eq!(controller.count_sec, 0);
    assert_eq!(controller.game_state.stage, Stage::InGame);
    assert_eq!(controller.game_state.players, players);
    assert_eq!(controller.game_state.history.len(), history + 1);
    assert_eq!(
        controller.game_state.history.last(),
        Some(&GameEvent::BeginGame { player_list: players })
    );
    let after = controller.on_tick(true, &sessions);
    assert_eq!(after, Tick { messages: vec![], restart_timer: false });
    assert_eq!(controller.game_state.stage, Stage::InGame);
}

#[test]
fn countdown_at_zero_begins_the_match_at_once() {
    let mut controller = lobby_with(&[1]);
    controller.count_sec = 0;
    let tick = controller.on_tick(false, &vec![1]);
    assert!(!tick.restart_timer);
    assert_eq!(
        tick.messages,
        vec![Outgoing {
            to: Recipient::Only(1),
            event: GameEvent::BeginGame { player_list: HashMap::new() },
        }]
    );
    assert_eq!(controller.game_state.stage, Stage::InGame);
}

#[test]
fn tick_outside_the_lobby_does_nothing() {
    let mut controller = running_with(&[1, 2]);
    let before = controller.game_state.clone();
    let tick = controller.on_tick(true, &vec![1, 2]);
    assert_eq!(tick, Tick { messages: vec![], restart_timer: false });
    assert_eq!(controller.game_state, before);
    assert_eq!(controller.count_sec, 20);
}

#[test]
fn controller_keeps_player_ids_below_the_counter() {
    let mut controller = MatchController::new(1);
    let sessions = vec![1, 2, 3, 4];
    let sound = |state: &GameState| {
        state.players.iter().all(|(id, record)| *id < state.id_counter && record.id == *id)
    };
    for client_id in 1..=4u64 {
        connect(&mut controller, client_id);
        assert!(sound(&controller.game_state));
    }
    controller.on_client_disconnected(2);
    assert!(sound(&controller.game_state));
    connect(&mut controller, 2);
    assert!(sound(&controller.game_state));
    assert_eq!(controller.game_state.get_player_id(2), 4);
    controller.count_sec = 1;
    controller.on_tick(true, &sessions);
    assert!(sound(&controller.game_state));
    assert_eq!(controller.game_state.stage, Stage::InGame);
    for event in [
        GameEvent::Impact { id: 0 },
        GameEvent::Death { player_id: 0 },
        GameEvent::Death { player_id: 2 },
        GameEvent::Death { player_id: 3 },
    ] {
        controller.on_message(&event, 1, &sessions);
        assert!(sound(&controller.game_state));
    }
    assert_eq!(controller.game_state.stage, Stage::Ended);
    assert_eq!(controller.game_state.id_counter, 5);
}
