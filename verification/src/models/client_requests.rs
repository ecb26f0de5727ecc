use vstd::prelude::*;

verus! {

/// What a client sends to join the match.
#[derive(Debug, Default)]
pub struct ConnectionRequest {
    pub player_id: String,
    pub auth_token: String,
    pub current_deck_id: String,
}

/// What a client sends to take its session back on a new transport.
#[derive(Debug, Default)]
pub struct ReconnectionRequest {
    pub player_id: String,
    pub auth_token: String,
}

/// What a client sends to play a card from its hand.
#[derive(Debug, Default)]
pub struct PlayCardRequest {
    pub player_id: String,
    pub card_id: String,
    pub target_id: Option<String>,
    pub target_position: Option<String>,
}

} // verus!
