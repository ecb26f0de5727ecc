use match_server::utils::errors::{
    CardRequestError, GameInstanceError, GameLogicError, NetworkError, PlayerConnectionError,
    ProtocolError, ServerInstanceError,
};
use match_server::utils::logger::Logger;
use match_server::utils::text::{contains, decimal, find_char, has_at, same_text};

#[test]
fn decimal_numerals() {
    assert_eq!(decimal(0), "0");
    assert_eq!(decimal(7), "7");
    assert_eq!(decimal(10), "10");
    assert_eq!(decimal(404), "404");
    assert_eq!(decimal(65535), "65535");
    assert_eq!(decimal(1234567890), "1234567890");
    assert_eq!(decimal(usize::MAX), usize::MAX.to_string());
}

#[test]
fn text_search() {
    assert!(contains("my_core_file", "core"));
    assert!(contains("core", "core"));
    assert!(contains("abc", ""));
    assert!(contains("", ""));
    assert!(!contains("cor", "core"));
    assert!(!contains("", "a"));
    assert!(contains("ab\u{e9}core", "core"));
    assert!(has_at("hand:4", ":4", 4));
    assert!(!has_at("hand:4", ":4", 3));
    assert!(!has_at("hand:4", ":4", 5));
    assert!(has_at("abc", "", 3));
    assert!(!has_at("abc", "", 4));
    assert_eq!(find_char("core:test", ':'), 4);
    assert_eq!(find_char("a:b:c", ':'), 1);
    assert_eq!(find_char("none", ':'), 4);
    assert_eq!(find_char("", ':'), 0);
    assert!(same_text("core", "core"));
    assert!(!same_text("core", "cores"));
    assert!(!same_text("core", "corf"));
    assert!(same_text("", ""));
}

#[test]
fn player_connection_error_texts() {
    let s = |t: &str| t.to_string();
    let cases: Vec<(PlayerConnectionError, &str)> = vec![
        (PlayerConnectionError::InvalidResponseBody(s("body")), "body"),
        (PlayerConnectionError::BannedPlayer(s("bob")), "`bob` is banned"),
        (PlayerConnectionError::InvalidPlayerPayload(s("x")), "Player connection error: x"),
        (
            PlayerConnectionError::PlayerDiscrepancy,
            "Player's identification does not match with profile",
        ),
        (PlayerConnectionError::PlayerNotConnected, "Player is not connected to the match"),
        (PlayerConnectionError::UnauthorizedPlayerError, "Player token was not authorized"),
        (PlayerConnectionError::UnexpectedPlayerError(s("y")), "Unexpected player error: y"),
        (PlayerConnectionError::DeckNotFound, "Deck was not found"),
        (PlayerConnectionError::InvalidDeckFormat, "Deck format invalid"),
        (PlayerConnectionError::UnexpectedDeckError(s("z")), "Deck error: z"),
        (
            PlayerConnectionError::UnauthorizedDeckError,
            "Player does not have permission to access deck",
        ),
        (PlayerConnectionError::InternalError(s("inner")), "inner"),
        (PlayerConnectionError::AlreadyConnected, "Player is already connected"),
    ];
    for (error, text) in cases {
        assert_eq!(error.to_string(), text);
    }
}

#[test]
fn game_logic_error_texts() {
    let s = |t: &str| t.to_string();
    let cases: Vec<(GameLogicError, &str)> = vec![
        (GameLogicError::CardPlayedIsNotInHand, "Card played is not in hand"),
        (GameLogicError::UnableToGetCardDetails, "Unable to get card details"),
        (GameLogicError::PlayerIdDoesNotMatch, "Player ID does not match with request's"),
        (GameLogicError::PlayerNotFound, "Player was not found in Hashmap"),
        (
            GameLogicError::FunctionNotFound(s("core:x"), s("c1")),
            "Function `core:x` was not found for card `c1`",
        ),
        (GameLogicError::FunctionNotCallable(s("core:x")), "Unable to call Lua function `core:x`"),
        (GameLogicError::InvalidGameActions, "Invalid GameAction return"),
        (GameLogicError::NotPlayerTurn, "Not player's turn"),
    ];
    for (error, text) in cases {
        assert_eq!(error.to_string(), text);
    }
}

#[test]
fn other_error_texts() {
    let s = |t: &str| t.to_string();
    assert_eq!(
        ProtocolError::InvalidHeaderError(s("h")).to_string(),
        "Could not successfully parse protocol header: h"
    );
    assert_eq!(ProtocolError::InvalidPacketError(s("p")).to_string(), "Invalid packet: p");
    assert_eq!(NetworkError::PackageWriteError(s("w")).to_string(), "Could not send package: w");
    assert_eq!(CardRequestError::CardNotFound(s("c")).to_string(), "Card not found: `c`");
    assert_eq!(
        CardRequestError::UnexpectedCardRequestError(s("u")).to_string(),
        "Unexpected card error: u"
    );
    assert_eq!(
        CardRequestError::FailedToGetFullCardsData.to_string(),
        "Failed to get full cards data from API"
    );
    assert_eq!(
        CardRequestError::MissingCardData(s("m")).to_string(),
        "Failed to get cards data: m"
    );
    assert_eq!(
        CardRequestError::SelectedCardsParseError.to_string(),
        "Failed to parse full cards response"
    );
    assert_eq!(
        GameInstanceError::PlaceHolderError.to_string(),
        "Placeholder error, make a specific one"
    );
    assert_eq!(
        ServerInstanceError::PlaceHolderError.to_string(),
        "Placeholder error, make a specific one"
    );
    assert_eq!(
        ServerInstanceError::AlreadyInitialized.to_string(),
        "Placeholder error, make a specific one"
    );
    assert_eq!(
        ServerInstanceError::GameInstanceFail(s("g")).to_string(),
        "Failed to create Game Instance: g"
    );
    assert_eq!(
        ServerInstanceError::UnwrapFailed.to_string(),
        "Unable to unwrap UninitializedServer"
    );
}

#[test]
fn log_lines_carry_level_and_time() {
    assert_eq!(
        Logger::info("27/10/2026 10:00:00", "started"),
        "[INFO ] [27/10/2026 10:00:00] started"
    );
    assert_eq!(Logger::debug("t", "m"), "[DEBUG] [t] m");
    assert_eq!(Logger::warn("t", "m"), "[WARN ] [t] m");
    assert_eq!(Logger::error("t", ""), "[ERROR] [t] ");
}

#[test]
fn errors_are_comparable() {
    assert_eq!(GameLogicError::NotPlayerTurn, GameLogicError::NotPlayerTurn);
    assert_ne!(GameLogicError::NotPlayerTurn, GameLogicError::PlayerNotFound);
    assert_eq!(
        ProtocolError::InvalidHeaderError("a".to_string()),
        ProtocolError::InvalidHeaderError("a".to_string())
    );
    assert_ne!(
        ProtocolError::InvalidHeaderError("a".to_string()),
        ProtocolError::InvalidPacketError("a".to_string())
    );
    assert_ne!(
        PlayerConnectionError::BannedPlayer("a".to_string()),
        PlayerConnectionError::BannedPlayer("b".to_string())
    );
}
