use match_server::game::entity::card::{Card, CardRef, CardView};
use match_server::game::entity::deck::Deck;
use match_server::game::entity::player::Player;
use match_server::models::client_requests::{ConnectionRequest, ReconnectionRequest};
use match_server::models::http_response::{
    text_or_default, AuthenticatedPlayer, HttpOutcome, PartialPlayerProfile, PreloadedPlayer,
    SelectedCardsResponse,
};
use match_server::utils::errors::{CardRequestError, PlayerConnectionError};

fn card(id: &str) -> Card {
    Card {
        id: id.to_string(),
        name: "n".to_string(),
        description: "d".to_string(),
        play_cost: 1,
        attack: -2,
        health: 3,
        rarity: 4,
        on_play: vec!["core:log".to_string()],
        on_draw: Vec::new(),
        on_attack: Vec::new(),
        on_hit: Vec::new(),
        on_turn_start: Vec::new(),
        on_turn_end: Vec::new(),
        on_death: Vec::new(),
        on_ally_death: Vec::new(),
        on_enemy_death: Vec::new(),
    }
}

fn deck() -> Deck {
    Deck {
        id: "d1".to_string(),
        player_id: "p1".to_string(),
        name: "first".to_string(),
        cards: vec![CardRef { id: "c1".to_string(), amount: 2 }],
    }
}

fn response<T>(status: u16, record: Result<T, String>, text: Option<&str>) -> HttpOutcome<T> {
    HttpOutcome::Response { status, record, text: text.map(|t| t.to_string()) }
}

fn auth(id: &str, banned: bool) -> AuthenticatedPlayer {
    AuthenticatedPlayer { player_id: id.to_string(), username: "alice".to_string(), is_banned: banned }
}

#[test]
fn unreadable_bodies_have_a_stand_in_text() {
    assert_eq!(text_or_default(None), "NO MESSAGE");
    assert_eq!(text_or_default(Some("oops".to_string())), "oops");
}

#[test]
fn request_card_judges_the_answer() {
    let ok = Card::request_card("c1", response(200, Ok(card("c1")), None)).unwrap();
    assert_eq!(ok.id, "c1");
    assert_eq!(ok.attack, -2);
    match Card::request_card("c1", response(404, Err("x".to_string()), Some("gone"))) {
        Err(e) => assert_eq!(e.to_string(), "Card not found: `c1`"),
        Ok(_) => panic!("404 is not a card"),
    }
    match Card::request_card("c1", response(200, Err("bad json".to_string()), None)) {
        Err(CardRequestError::UnexpectedCardRequestError(t)) => assert_eq!(t, "bad json"),
        _ => panic!("a body that does not decode is an error"),
    }
    match Card::request_card("c1", response(500, Ok(card("c1")), Some("boom"))) {
        Err(e) => assert_eq!(e.to_string(), "Unexpected card error: boom"),
        Ok(_) => panic!("500 is not a card"),
    }
    match Card::request_card("c1", response(500, Ok(card("c1")), None)) {
        Err(CardRequestError::UnexpectedCardRequestError(t)) => assert_eq!(t, "NO MESSAGE"),
        _ => panic!("500 is not a card"),
    }
    match Card::request_card("c1", HttpOutcome::Failed("timeout".to_string())) {
        Err(CardRequestError::UnexpectedCardRequestError(t)) => assert_eq!(t, "timeout"),
        _ => panic!("no response is an error"),
    }
}

#[test]
fn request_cards_judges_the_answer() {
    let selected = |not_found: usize, invalid: usize| SelectedCardsResponse {
        cards: vec![card("c1"), card("c2")],
        invalid_card_guid: vec!["x".to_string(); invalid],
        cards_not_found: vec!["y".to_string(); not_found],
    };
    let ok = Card::request_cards(response(200, Ok(selected(0, 0)), None)).unwrap();
    assert_eq!(ok.len(), 2);
    assert_eq!(ok[1].id, "c2");
    match Card::request_cards(response(200, Ok(selected(12, 0)), None)) {
        Err(e) => assert_eq!(
            e.to_string(),
            "Failed to get cards data: Not found: 12, Invalid cards: 0"
        ),
        Ok(_) => panic!("missing cards are an error"),
    }
    match Card::request_cards(response(200, Ok(selected(0, 3)), None)) {
        Err(CardRequestError::MissingCardData(t)) => {
            assert_eq!(t, "Not found: 0, Invalid cards: 3");
        }
        _ => panic!("invalid cards are an error"),
    }
    assert!(matches!(
        Card::request_cards(response(200, Err("bad".to_string()), None)),
        Err(CardRequestError::SelectedCardsParseError)
    ));
    match Card::request_cards(response(503, Ok(selected(0, 0)), Some("down"))) {
        Err(CardRequestError::UnexpectedCardRequestError(t)) => assert_eq!(t, "down"),
        _ => panic!("503 is an error"),
    }
    match Card::request_cards(HttpOutcome::Failed("refused".to_string())) {
        Err(CardRequestError::UnexpectedCardRequestError(t)) => assert_eq!(t, "refused"),
        _ => panic!("no response is an error"),
    }
}

#[test]
fn deck_answers_are_judged() {
    assert_eq!(Player::get_player_deck(response(200, Ok(deck()), None)).unwrap().id, "d1");
    assert_eq!(Player::preload_player_deck(response(200, Ok(deck()), None)).unwrap().name, "first");
    assert!(matches!(
        Player::get_player_deck(response(404, Ok(deck()), None)),
        Err(PlayerConnectionError::DeckNotFound)
    ));
    assert!(matches!(
        Player::get_player_deck(response(401, Ok(deck()), None)),
        Err(PlayerConnectionError::UnauthorizedDeckError)
    ));
    assert!(matches!(
        Player::get_player_deck(response(200, Err("bad".to_string()), None)),
        Err(PlayerConnectionError::InvalidDeckFormat)
    ));
    match Player::get_player_deck(response(500, Ok(deck()), Some("boom"))) {
        Err(e) => assert_eq!(e.to_string(), "Deck error: boom"),
        Ok(_) => panic!("500 is not a deck"),
    }
    match Player::get_player_deck(HttpOutcome::Failed("timeout".to_string())) {
        Err(PlayerConnectionError::UnexpectedDeckError(t)) => assert_eq!(t, "timeout"),
        _ => panic!("no response is an error"),
    }
}

#[test]
fn tokens_are_verified() {
    let ok = Player::verify_authentication(response(200, Ok(auth("p1", false)), None)).unwrap();
    assert_eq!(ok.player_id, "p1");
    match Player::verify_authentication(response(200, Ok(auth("p1", true)), None)) {
        Err(e) => assert_eq!(e.to_string(), "`alice` is banned"),
        Ok(_) => panic!("banned players are refused"),
    }
    assert!(matches!(
        Player::verify_authentication(response(401, Ok(auth("p1", false)), None)),
        Err(PlayerConnectionError::UnauthorizedPlayerError)
    ));
    match Player::verify_authentication(response(200, Err("bad".to_string()), None)) {
        Err(PlayerConnectionError::InvalidResponseBody(t)) => assert_eq!(t, "AuthenticatedPlayer"),
        _ => panic!("a body that does not decode is an error"),
    }
    match Player::verify_authentication(response(404, Ok(auth("p1", false)), None)) {
        Err(e) => assert_eq!(
            e.to_string(),
            "Unexpected player error: Unexpected authentication response status: 404"
        ),
        Ok(_) => panic!("404 is an error"),
    }
    match Player::verify_authentication(HttpOutcome::Failed("dns".to_string())) {
        Err(PlayerConnectionError::UnexpectedPlayerError(t)) => assert_eq!(t, "dns"),
        _ => panic!("no response is an error"),
    }
}

#[test]
fn reconnection_needs_the_token_of_the_named_player() {
    let request = ReconnectionRequest { player_id: "p2".to_string(), auth_token: "tok2".to_string() };
    let ok = Player::reconnection(&request, response(200, Ok(auth("p2", false)), None)).unwrap();
    assert_eq!(ok.username, "alice");
    assert!(matches!(
        Player::reconnection(&request, response(200, Ok(auth("p1", false)), None)),
        Err(PlayerConnectionError::PlayerDiscrepancy)
    ));
    assert!(matches!(
        Player::reconnection(&request, response(200, Ok(auth("p1", true)), None)),
        Err(PlayerConnectionError::BannedPlayer(_))
    ));
    assert!(matches!(
        Player::reconnection(&request, response(401, Ok(auth("p2", false)), None)),
        Err(PlayerConnectionError::UnauthorizedPlayerError)
    ));
    match Player::invalid_payload("eof".to_string()) {
        PlayerConnectionError::InvalidPlayerPayload(t) => assert_eq!(t, "eof"),
        _ => panic!("a payload that does not decode has its own error"),
    }
}

#[test]
fn profiles_are_judged() {
    let profile = || PartialPlayerProfile { id: "p1".to_string(), level: 7, username: "alice".to_string() };
    assert_eq!(Player::get_player_profile(response(200, Ok(profile()), None)).unwrap().level, 7);
    assert!(matches!(
        Player::get_player_profile(response(401, Ok(profile()), None)),
        Err(PlayerConnectionError::UnauthorizedPlayerError)
    ));
    match Player::get_player_profile(response(200, Err("bad".to_string()), None)) {
        Err(PlayerConnectionError::InvalidPlayerPayload(t)) => assert_eq!(t, "bad"),
        _ => panic!("a body that does not decode is an error"),
    }
    match Player::get_player_profile(response(404, Ok(profile()), None)) {
        Err(PlayerConnectionError::UnexpectedDeckError(t)) => assert_eq!(t, "NO MESSAGE"),
        _ => panic!("404 is an error"),
    }
    let pre = || PreloadedPlayer { id: "p1".to_string(), level: 2, username: "bob".to_string() };
    assert_eq!(Player::preload_player_profile(response(204, Ok(pre()), None)).unwrap().level, 2);
    match Player::preload_player_profile(response(200, Err("bad".to_string()), None)) {
        Err(e) => assert_eq!(e.to_string(), "Player connection error: bad"),
        Ok(_) => panic!("a body that does not decode is an error"),
    }
    match Player::preload_player_profile(HttpOutcome::Failed("down".to_string())) {
        Err(PlayerConnectionError::UnexpectedDeckError(t)) => assert_eq!(t, "down"),
        _ => panic!("no response is an error"),
    }
}

#[test]
fn handshake_takes_identity_from_the_request() {
    let c = Player::new_connection(
        ConnectionRequest {
            player_id: "p1".to_string(),
            auth_token: "tok1".to_string(),
            current_deck_id: "d1".to_string(),
        },
        PartialPlayerProfile { id: "other".to_string(), level: 7, username: "alice".to_string() },
        deck(),
    );
    assert_eq!(c.player_id, "p1");
    assert_eq!(c.player_token, "tok1");
    assert_eq!(c.current_deck_id, "d1");
    assert_eq!(c.level, 7);
    assert_eq!(c.username, "alice");
    assert_eq!(c.current_deck.cards.len(), 1);
}

#[test]
fn card_views_start_outside_every_zone() {
    let v = CardView::create_view(&card("c1"), "p1".to_string());
    assert_eq!(v.id, "c1");
    assert_eq!(v.name, "n");
    assert_eq!(v.attack, -2);
    assert_eq!(v.health, 3);
    assert_eq!(v.play_cost, 1);
    assert_eq!(v.owner_id, "p1");
    assert!(v.effects.is_empty());
    assert!(v.position.is_none());
    assert!(!v.in_deck && !v.in_hand && !v.in_board && !v.in_graveyard && !v.is_exhausted);
}

#[test]
fn deck_views_hold_each_card_once() {
    let d = Deck {
        id: "d1".to_string(),
        player_id: "p1".to_string(),
        name: "first".to_string(),
        cards: ["c2", "c1", "c2", "c3", "c1"]
            .iter()
            .map(|c| CardRef { id: c.to_string(), amount: 1 })
            .collect(),
    };
    let catalog = vec![card("c1"), card("c2"), card("c3"), card("c4")];
    assert!(d.is_covered_by(&catalog));
    assert!(!d.is_covered_by(&catalog[..2].iter().map(|c| card(&c.id)).collect()));
    let view = d.create_view(&catalog, "p1");
    let ids: Vec<&str> = view.card_views.iter().map(|c| c.id.as_str()).collect();
    assert_eq!(ids, vec!["c2", "c1", "c3"]);
    assert_eq!(view.id, "d1");
    assert_eq!(view.player_id, "p1");
    assert_eq!(view.name, "first");
    assert!(view.card_views.iter().all(|c| c.owner_id == "p1" && c.health == 3));
}
