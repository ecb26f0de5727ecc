use crate::game::entity::card::Card;
use vstd::prelude::*;
use vstd::string::StringExecFns;

verus! {

/// The status of a response that carries what was asked for.
pub const STATUS_OK: u16 = 200;

/// The status of a response that refuses the bearer token.
pub const STATUS_UNAUTHORIZED: u16 = 401;

/// The status of a response for something that does not exist.
pub const STATUS_NOT_FOUND: u16 = 404;

/// What one HTTP exchange with a service came to, as plain values. `T` is the
/// record that the body is expected to hold.
#[derive(Debug)]
pub enum HttpOutcome<T> {
    /// No response arrived; the text says why.
    Failed(String),
    /// A response arrived.
    Response {
        /// The status code.
        status: u16,
        /// The record decoded from the body, or why it did not decode.
        record: Result<T, String>,
        /// The body read as text, if it could be read.
        text: Option<String>,
    },
}

/// The text that stands for a body that could not be read.
pub open spec fn body_text(text: Option<String>) -> Seq<char> {
    match text {
        Some(t) => t@,
        None => "NO MESSAGE"@,
    }
}

/// Gives the body text of a response, or the stand-in for an unreadable one.
pub fn text_or_default(text: Option<String>) -> (s: String)
    ensures
        s@ == body_text(text),
{
    match text {
        Some(t) => t,
        None => String::from_str("NO MESSAGE"),
    }
}

/// The account of the bearer of a token.
#[derive(Debug, Default)]
pub struct PartialPlayerProfile {
    pub id: String,
    pub level: u32,
    pub username: String,
}

/// The profile of a preregistered player, fetched before anyone connects.
#[derive(Debug, Default)]
pub struct PreloadedPlayer {
    pub id: String,
    pub level: u32,
    pub username: String,
}

/// Who a token belongs to, as the authentication service sees it.
#[derive(Debug, Default)]
pub struct AuthenticatedPlayer {
    pub player_id: String,
    pub username: String,
    pub is_banned: bool,
}

/// The card catalog's answer to a request for several cards.
#[derive(Debug)]
pub struct SelectedCardsResponse {
    pub cards: Vec<Card>,
    pub invalid_card_guid: Vec<String>,
    pub cards_not_found: Vec<String>,
}

} // verus!
