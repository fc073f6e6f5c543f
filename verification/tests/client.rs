use std::collections::HashMap;

use maze_wars::client::{
    ClientAction, ClientSession, Counter, Enemy, EnnemyCreated, GameState, GameTimer,
    LifeCounter, ListPlayer, PlayerSpawnInfo, PositionInitial, TimerDisplay,
};
use maze_wars::{GameEvent, Players, Position, NBR_OF_LIVES};

#[test]
fn life_counter_starts_full_and_reduces_by_one() {
    let mut lives = LifeCounter::new();
    assert_eq!(lives.val, NBR_OF_LIVES);
    assert_eq!(lives.val, 3);
    lives.reduce();
    assert_eq!(lives.val, 2);
    lives.reduce();
    lives.reduce();
    assert_eq!(lives.val, 0);
}

#[test]
fn client_defaults_are_zero() {
    assert_eq!(LifeCounter::default().val, 0);
    assert_eq!(Counter::default().val, 0);
    assert_eq!(GameTimer::default().sec, 0);
    assert_eq!(PositionInitial::default(), PositionInitial { x: 0, y: 0, z: 0 });
    assert!(ListPlayer::default().list.is_empty());
    assert!(EnnemyCreated { val: true }.val);
}

#[test]
fn client_game_state_has_one_flag_set() {
    let mut state = GameState::new();
    assert_eq!(state, GameState { is_waiting: true, has_started: false, has_ended: false });
    state.start_game();
    assert_eq!(state, GameState { is_waiting: false, has_started: true, has_ended: false });
    state.end_game();
    assert_eq!(state, GameState { is_waiting: false, has_started: false, has_ended: true });
    state.start_game();
    assert_eq!(state, GameState { is_waiting: false, has_started: true, has_ended: false });
}

#[test]
fn fresh_session_waits_with_full_lives() {
    let session = ClientSession::new();
    assert_eq!(session.lives.val, 3);
    assert_eq!(session.location, PositionInitial { x: 0, y: 0, z: 0 });
    assert_eq!(session.spawn_info, PlayerSpawnInfo { player_id: None, position: None });
    assert!(session.liste_player.list.is_empty());
    assert_eq!(session.game_state, GameState::new());
    assert_eq!(session.game_timer.sec, i32::MAX);
}

#[test]
fn spawn_places_the_player_and_asks_for_the_maze() {
    let mut session = ClientSession::new();
    let action = session.handle_server_event(GameEvent::Spawn {
        player_id: 4,
        position: Position::new(7, 8, 9),
        lvl: 2,
    });
    assert_eq!(action, ClientAction::CreateMaze { lvl: 2 });
    assert_eq!(session.location, PositionInitial { x: 7, y: 8, z: 9 });
    assert_eq!(
        session.spawn_info,
        PlayerSpawnInfo { player_id: Some(4), position: Some(Position::new(7, 8, 9)) }
    );
    assert_eq!(session.lives.val, 3);
    assert_eq!(session.game_state, GameState::new());
}

#[test]
fn move_replaces_the_list_of_players() {
    let mut session = ClientSession::new();
    let mut list = HashMap::new();
    list.insert(2u8, Players::new("two".to_string(), 2, Position::new(1, 1, 1), (0, 0), 22));
    let action = session.handle_server_event(GameEvent::PlayerMove {
        player_id: u8::MAX,
        at: Position::default(),
        player_list: list.clone(),
        vision: (0, 0),
    });
    assert_eq!(action, ClientAction::Nothing);
    assert_eq!(session.liste_player.list, list);
    let action = session.handle_server_event(GameEvent::PlayerMove {
        player_id: u8::MAX,
        at: Position::default(),
        player_list: HashMap::new(),
        vision: (0, 0),
    });
    assert_eq!(action, ClientAction::Nothing);
    assert!(session.liste_player.list.is_empty());
}

#[test]
fn timer_and_begin_game_update_the_session() {
    let mut session = ClientSession::new();
    assert_eq!(session.handle_server_event(GameEvent::Timer { duration: 17 }), ClientAction::Nothing);
    assert_eq!(session.game_timer.sec, 17);
    assert_eq!(session.handle_server_event(GameEvent::Timer { duration: 255 }), ClientAction::Nothing);
    assert_eq!(session.game_timer.sec, 255);
    let action = session.handle_server_event(GameEvent::BeginGame { player_list: HashMap::new() });
    assert_eq!(action, ClientAction::Nothing);
    assert!(session.game_state.has_started);
    assert!(!session.game_state.is_waiting);
    assert!(!session.game_state.has_ended);
}

#[test]
fn access_forbidden_and_end_game_ask_for_an_action() {
    let mut session = ClientSession::new();
    let before = ClientSession::new();
    assert_eq!(session.handle_server_event(GameEvent::AccessForbidden), ClientAction::Quit);
    assert_eq!(session, before);
    assert_eq!(session.handle_server_event(GameEvent::EndGame), ClientAction::Victory);
    assert_eq!(session, before);
}

#[test]
fn the_third_impact_is_the_defeat() {
    let mut session = ClientSession::new();
    session.handle_server_event(GameEvent::BeginGame { player_list: HashMap::new() });
    assert_eq!(session.handle_server_event(GameEvent::Impact { id: 6 }), ClientAction::Nothing);
    assert_eq!(session.lives.val, 2);
    assert_eq!(session.handle_server_event(GameEvent::Impact { id: 6 }), ClientAction::Nothing);
    assert_eq!(session.lives.val, 1);
    assert!(session.game_state.has_started);
    assert_eq!(
        session.handle_server_event(GameEvent::Impact { id: 6 }),
        ClientAction::Defeat { farewell: GameEvent::Death { player_id: 6 } }
    );
    assert_eq!(session.lives.val, 0);
    assert!(session.game_state.has_ended);
    assert!(!session.game_state.has_started);
    let before_more = session.game_state;
    assert_eq!(session.handle_server_event(GameEvent::Impact { id: 6 }), ClientAction::Nothing);
    assert_eq!(session.lives.val, 0);
    assert_eq!(session.game_state, before_more);
}

#[test]
fn news_of_other_players_change_nothing() {
    let mut session = ClientSession::new();
    let before = ClientSession::new();
    let events = vec![
        GameEvent::PlayerJoined {
            player_id: 1,
            name: "x".to_string(),
            position: Position::new(1, 2, 3),
            client_id: 5,
        },
        GameEvent::PlayerDisconnected { player_id: 1 },
        GameEvent::Death { player_id: 1 },
    ];
    for event in events {
        assert_eq!(session.handle_server_event(event), ClientAction::Nothing);
        assert_eq!(session, before);
    }
}

#[test]
fn counter_knows_the_first_frame() {
    let mut counter = Counter::default();
    assert!(counter.count());
    assert_eq!(counter.val, 1);
    assert!(!counter.count());
    assert!(!counter.count());
    assert_eq!(counter.val, 3);
    let mut early = Counter { val: -2 };
    assert!(early.count());
    assert!(early.count());
    assert!(early.count());
    assert!(!early.count());
    assert_eq!(early.val, 2);
    let mut late = Counter { val: i32::MAX - 1 };
    assert!(!late.count());
    assert_eq!(late.val, i32::MAX);
}

#[test]
fn enemies_are_created_once_the_match_has_started() {
    let mut pending = EnnemyCreated { val: true };
    let mut state = GameState::new();
    assert!(!pending.create_now(&state));
    assert!(pending.val);
    state.start_game();
    assert!(pending.create_now(&state));
    assert!(!pending.val);
    assert!(!pending.create_now(&state));
    assert!(!pending.val);
    let mut ended = GameState::new();
    ended.end_game();
    let mut fresh = EnnemyCreated { val: true };
    assert!(!fresh.create_now(&ended));
    assert!(fresh.val);
}

#[test]
fn timer_display_follows_the_phase() {
    let waiting = GameState::new();
    let mut started = GameState::new();
    started.start_game();
    let mut ended = GameState::new();
    ended.end_game();
    assert_eq!(GameTimer::UNKNOWN, i32::MAX);
    assert_eq!(GameTimer { sec: i32::MAX }.display(&waiting), TimerDisplay::Unchanged);
    assert_eq!(
        GameTimer { sec: 20 }.display(&waiting),
        TimerDisplay::Show { seconds: 20, urgent: false }
    );
    assert_eq!(
        GameTimer { sec: 11 }.display(&waiting),
        TimerDisplay::Show { seconds: 11, urgent: false }
    );
    assert_eq!(
        GameTimer { sec: 10 }.display(&waiting),
        TimerDisplay::Show { seconds: 10, urgent: true }
    );
    assert_eq!(
        GameTimer { sec: 0 }.display(&waiting),
        TimerDisplay::Show { seconds: 0, urgent: true }
    );
    assert_eq!(GameTimer { sec: 5 }.display(&started), TimerDisplay::Hide);
    assert_eq!(GameTimer { sec: i32::MAX }.display(&started), TimerDisplay::Hide);
    assert_eq!(GameTimer { sec: 5 }.display(&ended), TimerDisplay::Unchanged);
}

#[test]
fn enemy_follows_its_player() {
    let mut enemy = Enemy::new(2, "Enemy_2".to_string(), Position::new(1, 1, 1));
    assert_eq!(
        enemy,
        Enemy { id: 2, name: "Enemy_2".to_string(), position: Position::new(1, 1, 1), lives: 3 }
    );
    let mut list = ListPlayer::default();
    assert_eq!(enemy.follow(&list), None);
    assert_eq!(enemy.position, Position::new(1, 1, 1));
    let mut two = Players::new("two".to_string(), 2, Position::new(7, 8, 9), (30, 40), 22);
    two.lives = 1;
    list.list.insert(2, two);
    list.list.insert(3, Players::new("three".to_string(), 3, Position::new(5, 5, 5), (1, 2), 23));
    assert_eq!(enemy.follow(&list), Some(30));
    assert_eq!(
        enemy,
        Enemy { id: 2, name: "Enemy_2".to_string(), position: Position::new(7, 8, 9), lives: 3 }
    );
    list.list.remove(&2);
    assert_eq!(enemy.follow(&list), None);
    assert_eq!(enemy.position, Position::new(7, 8, 9));
}
