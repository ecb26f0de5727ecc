use vstd::prelude::*;
use vstd::string::StringExecFns;

verus! {

/// Why a player could not be connected or reconnected.
#[derive(Debug, PartialEq, Eq)]
pub enum PlayerConnectionError {
    InvalidResponseBody(String),
    BannedPlayer(String),
    InvalidPlayerPayload(String),
    PlayerDiscrepancy,
    PlayerNotConnected,
    UnauthorizedPlayerError,
    UnexpectedPlayerError(String),
    DeckNotFound,
    InvalidDeckFormat,
    UnexpectedDeckError(String),
    UnauthorizedDeckError,
    InternalError(String),
    AlreadyConnected,
}

impl PlayerConnectionError {
    /// The text of this error, as it is logged and sent to clients.
    pub open spec fn text(self) -> Seq<char> {
        match self {
            PlayerConnectionError::InvalidResponseBody(a) => a@,
            PlayerConnectionError::BannedPlayer(a) => "`"@ + a@ + "` is banned"@,
            PlayerConnectionError::InvalidPlayerPayload(a) => "Player connection error: "@ + a@,
            PlayerConnectionError::PlayerDiscrepancy => {
                "Player's identification does not match with profile"@
            },
            PlayerConnectionError::PlayerNotConnected => "Player is not connected to the match"@,
            PlayerConnectionError::UnauthorizedPlayerError => "Player token was not authorized"@,
            PlayerConnectionError::UnexpectedPlayerError(a) => "Unexpected player error: "@ + a@,
            PlayerConnectionError::DeckNotFound => "Deck was not found"@,
            PlayerConnectionError::InvalidDeckFormat => "Deck format invalid"@,
            PlayerConnectionError::UnexpectedDeckError(a) => "Deck error: "@ + a@,
            PlayerConnectionError::UnauthorizedDeckError => {
                "Player does not have permission to access deck"@
            },
            PlayerConnectionError::InternalError(a) => a@,
            PlayerConnectionError::AlreadyConnected => "Player is already connected"@,
        }
    }

    /// Renders the error as text.
    pub fn to_string(&self) -> (s: String)
        ensures
            s@ == self.text(),
    {
        match self {
            PlayerConnectionError::InvalidResponseBody(a) => a.clone(),
            PlayerConnectionError::BannedPlayer(a) => String::from_str("`")
                .concat(a.as_str())
                .concat("` is banned"),
            PlayerConnectionError::InvalidPlayerPayload(a) => String::from_str("Player connection error: ")
                .concat(a.as_str()),
            PlayerConnectionError::PlayerDiscrepancy => {
                String::from_str("Player's identification does not match with profile")
            },
            PlayerConnectionError::PlayerNotConnected => {
                String::from_str("Player is not connected to the match")
            },
            PlayerConnectionError::UnauthorizedPlayerError => {
                String::from_str("Player token was not authorized")
            },
            PlayerConnectionError::UnexpectedPlayerError(a) => String::from_str("Unexpected player error: ")
                .concat(a.as_str()),
            PlayerConnectionError::DeckNotFound => String::from_str("Deck was not found"),
            PlayerConnectionError::InvalidDeckFormat => String::from_str("Deck format invalid"),
            PlayerConnectionError::UnexpectedDeckError(a) => String::from_str("Deck error: ")
                .concat(a.as_str()),
            PlayerConnectionError::UnauthorizedDeckError => {
                String::from_str("Player does not have permission to access deck")
            },
            PlayerConnectionError::InternalError(a) => a.clone(),
            PlayerConnectionError::AlreadyConnected => {
                String::from_str("Player is already connected")
            },
        }
    }
}

/// Why a buffer is not a packet.
#[derive(Debug, PartialEq, Eq)]
pub enum ProtocolError {
    InvalidHeaderError(String),
    InvalidPacketError(String),
}

impl ProtocolError {
    /// The text of this error, as it is logged and sent to clients.
    pub open spec fn text(self) -> Seq<char> {
        match self {
            ProtocolError::InvalidHeaderError(a) => {
                "Could not successfully parse protocol header: "@ + a@
            },
            ProtocolError::InvalidPacketError(a) => "Invalid packet: "@ + a@,
        }
    }

    /// Renders the error as text.
    pub fn to_string(&self) -> (s: String)
        ensures
            s@ == self.text(),
    {
        match self {
            ProtocolError::InvalidHeaderError(a) => String::from_str("Could not successfully parse protocol header: ")
                .concat(a.as_str()),
            ProtocolError::InvalidPacketError(a) => String::from_str("Invalid packet: ")
                .concat(a.as_str()),
        }
    }
}

/// Why a packet could not be written.
#[derive(Debug, PartialEq, Eq)]
pub enum NetworkError {
    PackageWriteError(String),
}

impl NetworkError {
    /// The text of this error, as it is logged and sent to clients.
    pub open spec fn text(self) -> Seq<char> {
        match self {
            NetworkError::PackageWriteError(a) => "Could not send package: "@ + a@,
        }
    }

    /// Renders the error as text.
    pub fn to_string(&self) -> (s: String)
        ensures
            s@ == self.text(),
    {
        match self {
            NetworkError::PackageWriteError(a) => String::from_str("Could not send package: ")
                .concat(a.as_str()),
        }
    }
}

/// Why a play was refused.
#[derive(Debug, PartialEq, Eq)]
pub enum GameLogicError {
    CardPlayedIsNotInHand,
    UnableToGetCardDetails,
    PlayerIdDoesNotMatch,
    PlayerNotFound,
    FunctionNotFound(String, String),
    FunctionNotCallable(String),
    InvalidGameActions,
    NotPlayerTurn,
}

impl GameLogicError {
    /// The text of this error, as it is logged and sent to clients.
    pub open spec fn text(self) -> Seq<char> {
        match self {
            GameLogicError::CardPlayedIsNotInHand => "Card played is not in hand"@,
            GameLogicError::UnableToGetCardDetails => "Unable to get card details"@,
            GameLogicError::PlayerIdDoesNotMatch => "Player ID does not match with request's"@,
            GameLogicError::PlayerNotFound => "Player was not found in Hashmap"@,
            GameLogicError::FunctionNotFound(a, b) => {
                "Function `"@ + a@ + "` was not found for card `"@ + b@ + "`"@
            },
            GameLogicError::FunctionNotCallable(a) => "Unable to call Lua function `"@ + a@ + "`"@,
            GameLogicError::InvalidGameActions => "Invalid GameAction return"@,
            GameLogicError::NotPlayerTurn => "Not player's turn"@,
        }
    }

    /// Renders the error as text.
    pub fn to_string(&self) -> (s: String)
        ensures
            s@ == self.text(),
    {
        match self {
            GameLogicError::CardPlayedIsNotInHand => String::from_str("Card played is not in hand"),
            GameLogicError::UnableToGetCardDetails => {
                String::from_str("Unable to get card details")
            },
            GameLogicError::PlayerIdDoesNotMatch => {
                String::from_str("Player ID does not match with request's")
            },
            GameLogicError::PlayerNotFound => String::from_str("Player was not found in Hashmap"),
            GameLogicError::FunctionNotFound(a, b) => String::from_str("Function `")
                .concat(a.as_str())
                .concat("` was not found for card `")
                .concat(b.as_str())
                .concat("`"),
            GameLogicError::FunctionNotCallable(a) => String::from_str("Unable to call Lua function `")
                .concat(a.as_str())
                .concat("`"),
            GameLogicError::InvalidGameActions => String::from_str("Invalid GameAction return"),
            GameLogicError::NotPlayerTurn => String::from_str("Not player's turn"),
        }
    }
}

/// Why card records could not be obtained.
#[derive(Debug, PartialEq, Eq)]
pub enum CardRequestError {
    CardNotFound(String),
    UnexpectedCardRequestError(String),
    FailedToGetFullCardsData,
    MissingCardData(String),
    SelectedCardsParseError,
}

impl CardRequestError {
    /// The text of this error, as it is logged and sent to clients.
    pub open spec fn text(self) -> Seq<char> {
        match self {
            CardRequestError::CardNotFound(a) => "Card not found: `"@ + a@ + "`"@,
            CardRequestError::UnexpectedCardRequestError(a) => "Unexpected card error: "@ + a@,
            CardRequestError::FailedToGetFullCardsData => "Failed to get full cards data from API"@,
            CardRequestError::MissingCardData(a) => "Failed to get cards data: "@ + a@,
            CardRequestError::SelectedCardsParseError => "Failed to parse full cards response"@,
        }
    }

    /// Renders the error as text.
    pub fn to_string(&self) -> (s: String)
        ensures
            s@ == self.text(),
    {
        match self {
            CardRequestError::CardNotFound(a) => String::from_str("Card not found: `")
                .concat(a.as_str())
                .concat("`"),
            CardRequestError::UnexpectedCardRequestError(a) => String::from_str("Unexpected card error: ")
                .concat(a.as_str()),
            CardRequestError::FailedToGetFullCardsData => {
                String::from_str("Failed to get full cards data from API")
            },
            CardRequestError::MissingCardData(a) => String::from_str("Failed to get cards data: ")
                .concat(a.as_str()),
            CardRequestError::SelectedCardsParseError => {
                String::from_str("Failed to parse full cards response")
            },
        }
    }
}

/// Why a game instance could not be built.
#[derive(Debug, PartialEq, Eq)]
pub enum GameInstanceError {
    PlaceHolderError,
}

impl GameInstanceError {
    /// The text of this error, as it is logged and sent to clients.
    pub open spec fn text(self) -> Seq<char> {
        match self {
            GameInstanceError::PlaceHolderError => "Placeholder error, make a specific one"@,
        }
    }

    /// Renders the error as text.
    pub fn to_string(&self) -> (s: String)
        ensures
            s@ == self.text(),
    {
        match self {
            GameInstanceError::PlaceHolderError => {
                String::from_str("Placeholder error, make a specific one")
            },
        }
    }
}

/// Why the server could not leave its first phase.
#[derive(Debug, PartialEq, Eq)]
pub enum ServerInstanceError {
    PlaceHolderError,
    AlreadyInitialized,
    GameInstanceFail(String),
    UnwrapFailed,
}

impl ServerInstanceError {
    /// The text of this error, as it is logged and sent to clients.
    pub open spec fn text(self) -> Seq<char> {
        match self {
            ServerInstanceError::PlaceHolderError => "Placeholder error, make a specific one"@,
            ServerInstanceError::AlreadyInitialized => "Placeholder error, make a specific one"@,
            ServerInstanceError::GameInstanceFail(a) => "Failed to create Game Instance: "@ + a@,
            ServerInstanceError::UnwrapFailed => "Unable to unwrap UninitializedServer"@,
        }
    }

    /// Renders the error as text.
    pub fn to_string(&self) -> (s: String)
        ensures
            s@ == self.text(),
    {
        match self {
            ServerInstanceError::PlaceHolderError => {
                String::from_str("Placeholder error, make a specific one")
            },
            ServerInstanceError::AlreadyInitialized => {
                String::from_str("Placeholder error, make a specific one")
            },
            ServerInstanceError::GameInstanceFail(a) => String::from_str("Failed to create Game Instance: ")
                .concat(a.as_str()),
            ServerInstanceError::UnwrapFailed => {
                String::from_str("Unable to unwrap UninitializedServer")
            },
        }
    }
}

} // verus!
