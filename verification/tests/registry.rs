use match_server::game::entity::card::{Card, CardRef};
use match_server::game::entity::deck::Deck;
use match_server::game::game::{GameInstance, LoadedPlayer};
use match_server::game::script_manager::ScriptManager;
use match_server::models::exit_code::ExitCode;
use match_server::models::http_response::PreloadedPlayer;
use match_server::tcp::client::TemporaryClient;
use match_server::tcp::header::HeaderType;
use match_server::tcp::packet::Packet;
use match_server::tcp::protocol::Protocol;
use match_server::tcp::server::{ServerInstance, UninitializedServer};
use match_server::utils::errors::{
    GameInstanceError, PlayerConnectionError, ServerInstanceError,
};

fn card(id: &str) -> Card {
    Card {
        id: id.to_string(),
        name: format!("card {id}"),
        description: String::new(),
        play_cost: 1,
        attack: 2,
        health: 3,
        rarity: 0,
        on_play: Vec::new(),
        on_draw: Vec::new(),
        on_attack: Vec::new(),
        on_hit: Vec::new(),
        on_turn_start: Vec::new(),
        on_turn_end: Vec::new(),
        on_death: Vec::new(),
        on_ally_death: Vec::new(),
        on_enemy_death: Vec::new(),
    }
}

fn loaded(id: &str) -> LoadedPlayer {
    LoadedPlayer {
        profile: PreloadedPlayer { id: id.to_string(), level: 1, username: format!("user {id}") },
        deck: Deck {
            id: format!("deck {id}"),
            player_id: id.to_string(),
            name: "deck".to_string(),
            cards: vec![CardRef { id: "c1".to_string(), amount: 2 }],
        },
        cards: vec![card("c1")],
    }
}

fn server() -> ServerInstance {
    let game =
        GameInstance::create_instance(ScriptManager::new_vm(), vec![loaded("p1"), loaded("p2")]);
    ServerInstance::init_server(UninitializedServer::create_instance(), game).unwrap()
}

fn temp(n: u64) -> TemporaryClient {
    TemporaryClient::new(n, n + 1, format!("10.0.0.{n}:9"))
}

fn ids(server: &ServerInstance) -> Vec<String> {
    server.connected_clients.iter().map(|c| c.player_id.clone()).collect()
}

#[test]
fn init_server_starts_listening_with_no_sessions() {
    let s = server();
    assert!(s.listening);
    assert!(s.listen());
    assert!(s.exit_status.is_none());
    assert!(s.connected_clients.is_empty());
    assert_eq!(s.game_instance.connected_players.len(), 2);
}

#[test]
fn init_server_reports_a_failed_match() {
    let r = ServerInstance::init_server(
        UninitializedServer::create_instance(),
        Err(GameInstanceError::PlaceHolderError),
    );
    match r {
        Err(ServerInstanceError::GameInstanceFail(text)) => {
            assert_eq!(text, "Placeholder error, make a specific one");
        }
        _ => panic!("a failed match keeps the server out"),
    }
}

#[test]
fn happy_path_handshake_registers_the_session() {
    let mut s = server();
    let protocol = Protocol::new();
    let r = protocol.handle_connect(&mut s, temp(10), &"p1".to_string());
    assert_eq!(r.unwrap(), 0);
    assert_eq!(ids(&s), vec!["p1"]);
    let c = &s.connected_clients[0];
    assert!(c.connected);
    assert_eq!(c.addr, "10.0.0.10:9");
    assert_eq!(c.read_stream, 10);
    assert_eq!(c.write_stream, 11);
    assert!(c.missed_packets.is_empty());
}

#[test]
fn players_outside_the_roster_are_refused() {
    let mut s = server();
    let r = Protocol::new().handle_connect(&mut s, temp(10), &"p3".to_string());
    assert!(matches!(r, Err(PlayerConnectionError::PlayerNotConnected)));
    assert!(s.connected_clients.is_empty());
}

#[test]
fn registry_never_holds_two_sessions_of_one_player() {
    let mut s = server();
    let protocol = Protocol::new();
    assert_eq!(protocol.handle_connect(&mut s, temp(10), &"p1".to_string()).unwrap(), 0);
    assert_eq!(protocol.handle_connect(&mut s, temp(20), &"p2".to_string()).unwrap(), 1);
    let again = protocol.handle_connect(&mut s, temp(30), &"p1".to_string());
    assert!(matches!(again, Err(PlayerConnectionError::AlreadyConnected)));
    assert_eq!(ids(&s), vec!["p1", "p2"]);
    assert_eq!(s.connected_clients[0].read_stream, 10);
    s.connected_clients[0].disconnect();
    s.connected_clients[0].listen_to_game_state(Packet::new(HeaderType::GameState, b"x"));
    assert_eq!(protocol.handle_connect(&mut s, temp(40), &"p1".to_string()).unwrap(), 0);
    assert_eq!(ids(&s), vec!["p1", "p2"]);
    assert_eq!(s.connected_clients[0].read_stream, 40);
    assert!(s.connected_clients[0].connected);
    assert!(s.connected_clients[0].missed_packets.is_empty());
    assert_eq!(s.connected_clients[1].read_stream, 20);
}

#[test]
fn reconnect_moves_the_session_and_keeps_identity_and_queue() {
    let mut s = server();
    let protocol = Protocol::new();
    protocol.handle_connect(&mut s, temp(10), &"p1".to_string()).unwrap();
    protocol.handle_connect(&mut s, temp(20), &"p2".to_string()).unwrap();
    s.connected_clients[1].disconnect();
    for n in 0..3u8 {
        s.connected_clients[1].listen_to_game_state(Packet::new(HeaderType::GameState, &[n]));
    }
    let r = protocol.handle_reconnect(&mut s, temp(50), &"p2".to_string());
    assert_eq!(r.unwrap(), 1);
    assert_eq!(ids(&s), vec!["p1", "p2"]);
    let c = &s.connected_clients[1];
    assert!(c.connected);
    assert_eq!(c.player_id, "p2");
    assert_eq!(c.addr, "10.0.0.50:9");
    assert_eq!(c.read_stream, 50);
    assert_eq!(c.write_stream, 51);
    assert_eq!(c.missed_packets.len(), 3);
    assert_eq!(s.connected_clients[0].read_stream, 10);
    assert_eq!(s.find_client(&"p2".to_string()), Some(1));
    assert_eq!(s.find_client(&"p9".to_string()), None);
}

#[test]
fn reconnect_without_a_session_is_refused() {
    let mut s = server();
    let r = Protocol::new().handle_reconnect(&mut s, temp(50), &"p2".to_string());
    assert!(matches!(r, Err(PlayerConnectionError::PlayerNotConnected)));
    assert!(s.connected_clients.is_empty());
}

#[test]
fn close_server_records_the_exit_status() {
    let mut s = server();
    s.close_server(ExitCode::CardRequestFailed, "cards".to_string());
    assert!(!s.listening);
    assert!(!s.listen());
    let status = s.exit_status.as_ref().unwrap();
    assert_eq!(status.code, 10);
    assert_eq!(status.reason, "cards");
    assert_eq!(ExitCode::MatchEnded.code(), 0);
    assert_eq!(ExitCode::CardRequestFailed.code(), 10);
}

#[test]
fn broadcasts_reach_sessions_through_the_registry() {
    let mut s = server();
    let protocol = Protocol::new();
    protocol.handle_connect(&mut s, temp(10), &"p1".to_string()).unwrap();
    protocol.handle_connect(&mut s, temp(20), &"p2".to_string()).unwrap();
    assert!(s.check());
    s.disconnect(1);
    assert!(!s.connected_clients[1].connected);
    assert!(s.connected_clients[0].connected);
    for n in 0..3u8 {
        let out0 = s.deliver(0, Packet::new(HeaderType::GameState, &[n]));
        let out1 = s.deliver(1, Packet::new(HeaderType::GameState, &[n]));
        assert_eq!(out0.len(), 1);
        assert_eq!(out0[0].payload, vec![n]);
        assert!(out1.is_empty());
    }
    assert_eq!(s.connected_clients[1].missed_packets.len(), 3);
    protocol.handle_reconnect(&mut s, temp(30), &"p2".to_string()).unwrap();
    let out1 = s.deliver(1, Packet::new(HeaderType::GameState, &[3]));
    let tags: Vec<u8> = out1.iter().map(|p| p.payload[0]).collect();
    assert_eq!(tags, vec![0, 1, 2, 3]);
    assert_eq!(ids(&s), vec!["p1", "p2"]);
    assert!(s.check());
}

#[test]
fn answers_close_sessions_as_the_dispatcher_says() {
    let mut s = server();
    let protocol = Protocol::new();
    protocol.handle_connect(&mut s, temp(10), &"p1".to_string()).unwrap();
    s.after_reply(0, false, true);
    assert!(s.connected_clients[0].connected);
    s.after_reply(0, false, false);
    assert!(!s.connected_clients[0].connected);
    protocol.handle_reconnect(&mut s, temp(11), &"p1".to_string()).unwrap();
    s.after_reply(0, true, true);
    assert!(!s.connected_clients[0].connected);
    assert_eq!(s.connected_clients[0].player_id, "p1");
    assert_eq!(s.connected_clients[0].read_stream, 11);
}

#[test]
fn check_finds_broken_invariants() {
    let mut s = server();
    let protocol = Protocol::new();
    protocol.handle_connect(&mut s, temp(10), &"p1".to_string()).unwrap();
    protocol.handle_connect(&mut s, temp(20), &"p2".to_string()).unwrap();
    assert!(s.check());
    s.connected_clients[1].player_id = "p1".to_string();
    assert!(!s.check());
    s.connected_clients[1].player_id = "p2".to_string();
    assert!(s.check());
    for n in 0..31u8 {
        s.connected_clients[0].missed_packets.push(Packet::new(HeaderType::GameState, &[n]));
    }
    assert!(!s.connected_clients[0].check());
    assert!(!s.check());
    s.connected_clients[0].missed_packets.clear();
    assert!(s.check());
    s.game_instance.game_state.player_views[0].hand_size = 1;
    assert!(!s.game_instance.game_state.player_views[0].check());
    assert!(!s.game_instance.game_state.check());
    assert!(!s.check());
}
