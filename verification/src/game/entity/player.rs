use crate::game::entity::board::{BoardView, GraveyardView};
use crate::game::entity::card::{clone_slot, same_slot, CardView};
use crate::game::entity::deck::{Deck, DeckView};
use crate::models::client_requests::{ConnectionRequest, ReconnectionRequest};
use crate::models::http_response::{
    body_text, text_or_default, AuthenticatedPlayer, HttpOutcome, PartialPlayerProfile,
    PreloadedPlayer, STATUS_NOT_FOUND, STATUS_OK, STATUS_UNAUTHORIZED,
};
use crate::utils::errors::PlayerConnectionError;
use crate::utils::text::{decimal, decimal_text};
use vstd::prelude::*;
use vstd::string::StringExecFns;

verus! {

/// The number of slots of a hand.
pub const HAND_SLOTS: usize = 10;

/// The health a player starts with, and the most a player can be healed to.
pub const PLAYER_HEALTH: i32 = 30;

/// The mana a player starts with.
pub const PLAYER_MANA: i32 = 1;

/// A player of the match: profile, deck and the deck's match view.
#[derive(Debug)]
pub struct Player {
    pub id: String,
    pub level: u32,
    pub username: String,
    pub current_deck: Deck,
    pub deck_view: DeckView,
    pub current_deck_id: String,
}

/// What a handshake establishes about a connecting player.
#[derive(Debug)]
pub struct PlayerConnection {
    pub player_id: String,
    pub level: u32,
    pub username: String,
    pub player_token: String,
    pub current_deck: Deck,
    pub current_deck_id: String,
}

/// What fetching a preregistered player's profile comes to.
pub open spec fn preload_profile_result(
    outcome: HttpOutcome<PreloadedPlayer>,
    r: Result<PreloadedPlayer, PlayerConnectionError>,
) -> bool {
    match outcome {
        HttpOutcome::Failed(why) => r matches Err(PlayerConnectionError::UnexpectedDeckError(t))
            && t@ == why@,
        HttpOutcome::Response { status, record, text } => match record {
            Ok(profile) => r == Ok::<PreloadedPlayer, PlayerConnectionError>(profile),
            Err(why) => r matches Err(PlayerConnectionError::InvalidPlayerPayload(t)) && t@
                == why@,
        },
    }
}

/// What fetching a deck comes to.
pub open spec fn deck_result(outcome: HttpOutcome<Deck>, r: Result<Deck, PlayerConnectionError>) -> bool {
    match outcome {
        HttpOutcome::Failed(why) => r matches Err(PlayerConnectionError::UnexpectedDeckError(t))
            && t@ == why@,
        HttpOutcome::Response { status, record, text } => if status == STATUS_UNAUTHORIZED {
            r matches Err(PlayerConnectionError::UnauthorizedDeckError)
        } else if status == STATUS_NOT_FOUND {
            r matches Err(PlayerConnectionError::DeckNotFound)
        } else if status == STATUS_OK {
            match record {
                Ok(deck) => r == Ok::<Deck, PlayerConnectionError>(deck),
                Err(_) => r matches Err(PlayerConnectionError::InvalidDeckFormat),
            }
        } else {
            r matches Err(PlayerConnectionError::UnexpectedDeckError(t)) && t@ == body_text(text)
        },
    }
}

/// The text of the error for an authentication answer with an unexpected status.
pub open spec fn unexpected_status_text(status: u16) -> Seq<char> {
    "Unexpected authentication response status: "@ + decimal_text(status as nat)
}

/// What verifying a token comes to.
pub open spec fn verify_result(
    outcome: HttpOutcome<AuthenticatedPlayer>,
    r: Result<AuthenticatedPlayer, PlayerConnectionError>,
) -> bool {
    match outcome {
        HttpOutcome::Failed(why) => r matches Err(
            PlayerConnectionError::UnexpectedPlayerError(t),
        ) && t@ == why@,
        HttpOutcome::Response { status, record, text } => if status == STATUS_OK {
            match record {
                Err(_) => r matches Err(PlayerConnectionError::InvalidResponseBody(t)) && t@
                    == "AuthenticatedPlayer"@,
                Ok(player) => if player.is_banned {
                    r matches Err(PlayerConnectionError::BannedPlayer(t)) && t@
                        == player.username@
                } else {
                    r == Ok::<AuthenticatedPlayer, PlayerConnectionError>(player)
                },
            }
        } else if status == STATUS_UNAUTHORIZED {
            r matches Err(PlayerConnectionError::UnauthorizedPlayerError)
        } else {
            r matches Err(PlayerConnectionError::UnexpectedPlayerError(t)) && t@
                == unexpected_status_text(status)
        },
    }
}

/// What fetching the account of a token's bearer comes to.
pub open spec fn profile_result(
    outcome: HttpOutcome<PartialPlayerProfile>,
    r: Result<PartialPlayerProfile, PlayerConnectionError>,
) -> bool {
    match outcome {
        HttpOutcome::Failed(why) => r matches Err(PlayerConnectionError::UnexpectedDeckError(t))
            && t@ == why@,
        HttpOutcome::Response { status, record, text } => if status == STATUS_UNAUTHORIZED {
            r matches Err(PlayerConnectionError::UnauthorizedPlayerError)
        } else if status == STATUS_OK {
            match record {
                Ok(profile) => r == Ok::<PartialPlayerProfile, PlayerConnectionError>(profile),
                Err(why) => r matches Err(PlayerConnectionError::InvalidPlayerPayload(t)) && t@
                    == why@,
            }
        } else {
            r matches Err(PlayerConnectionError::UnexpectedDeckError(t)) && t@ == body_text(text)
        },
    }
}

/// What a reconnection request comes to, once the token has been verified.
pub open spec fn reconnection_result(
    request: ReconnectionRequest,
    outcome: HttpOutcome<AuthenticatedPlayer>,
    r: Result<AuthenticatedPlayer, PlayerConnectionError>,
) -> bool {
    match outcome {
        HttpOutcome::Response { status, record: Ok(player), text } => if status == STATUS_OK
            && !player.is_banned && player.player_id@ != request.player_id@ {
            r matches Err(PlayerConnectionError::PlayerDiscrepancy)
        } else {
            verify_result(outcome, r)
        },
        _ => verify_result(outcome, r),
    }
}

impl Player {
    /// Puts a preregistered player together from profile, deck and deck view.
    pub fn preload_player(profile: PreloadedPlayer, deck: Deck, deck_view: DeckView) -> (player:
        Player)
        ensures
            player.id == profile.id,
            player.level == profile.level,
            player.username == profile.username,
            player.current_deck == deck,
            player.deck_view == deck_view,
            player.current_deck_id@ == deck.id@,
    {
        Player {
            deck_view,
            id: profile.id,
            level: profile.level,
            username: profile.username,
            current_deck_id: deck.id.clone(),
            current_deck: deck,
        }
    }

    /// Judges the answer to the request for a preregistered player's
    /// profile: whatever the status, a body that decodes is the profile.
    pub fn preload_player_profile(outcome: HttpOutcome<PreloadedPlayer>) -> (r: Result<
        PreloadedPlayer,
        PlayerConnectionError,
    >)
        ensures
            preload_profile_result(outcome, r),
    {
        match outcome {
            HttpOutcome::Failed(why) => Err(PlayerConnectionError::UnexpectedDeckError(why)),
            HttpOutcome::Response { status, record, text } => match record {
                Ok(profile) => Ok(profile),
                Err(why) => Err(PlayerConnectionError::InvalidPlayerPayload(why)),
            },
        }
    }

    /// Judges the answer to the request for a preregistered player's deck.
    pub fn preload_player_deck(outcome: HttpOutcome<Deck>) -> (r: Result<
        Deck,
        PlayerConnectionError,
    >)
        ensures
            deck_result(outcome, r),
    {
        Player::get_player_deck(outcome)
    }

    /// Judges the deck service's answer: the deck on status 200 with a body
    /// that decodes; distinct errors for 401, 404 and a body that does not
    /// decode; an unexpected-error with the body text otherwise.
    pub fn get_player_deck(outcome: HttpOutcome<Deck>) -> (r: Result<Deck, PlayerConnectionError>)
        ensures
            deck_result(outcome, r),
    {
        match outcome {
            HttpOutcome::Failed(why) => Err(PlayerConnectionError::UnexpectedDeckError(why)),
            HttpOutcome::Response { status, record, text } => {
                if status == STATUS_UNAUTHORIZED {
                    Err(PlayerConnectionError::UnauthorizedDeckError)
                } else if status == STATUS_NOT_FOUND {
                    Err(PlayerConnectionError::DeckNotFound)
                } else if status == STATUS_OK {
                    match record {
                        Ok(deck) => Ok(deck),
                        Err(_) => Err(PlayerConnectionError::InvalidDeckFormat),
                    }
                } else {
                    Err(PlayerConnectionError::UnexpectedDeckError(text_or_default(text)))
                }
            },
        }
    }

    /// Judges the authentication service's answer to a token: the player on
    /// status 200, unless banned; "unauthorized" on 401; an unexpected-error
    /// naming the status otherwise.
    pub fn verify_authentication(outcome: HttpOutcome<AuthenticatedPlayer>) -> (r: Result<
        AuthenticatedPlayer,
        PlayerConnectionError,
    >)
        ensures
            verify_result(outcome, r),
    {
        match outcome {
            HttpOutcome::Failed(why) => Err(PlayerConnectionError::UnexpectedPlayerError(why)),
            HttpOutcome::Response { status, record, text } => {
                if status == STATUS_OK {
                    match record {
                        Err(_) => Err(
                            PlayerConnectionError::InvalidResponseBody(
                                String::from_str("AuthenticatedPlayer"),
                            ),
                        ),
                        Ok(player) => {
                            if player.is_banned {
                                Err(PlayerConnectionError::BannedPlayer(player.username))
                            } else {
                                Ok(player)
                            }
                        },
                    }
                } else if status == STATUS_UNAUTHORIZED {
                    Err(PlayerConnectionError::UnauthorizedPlayerError)
                } else {
                    let message = String::from_str(
                        "Unexpected authentication response status: ",
                    ).concat(decimal(status as usize).as_str());
                    Err(PlayerConnectionError::UnexpectedPlayerError(message))
                }
            },
        }
    }

    /// Judges the authentication service's answer to the request for the
    /// account behind a token.
    pub fn get_player_profile(outcome: HttpOutcome<PartialPlayerProfile>) -> (r: Result<
        PartialPlayerProfile,
        PlayerConnectionError,
    >)
        ensures
            profile_result(outcome, r),
    {
        match outcome {
            HttpOutcome::Failed(why) => Err(PlayerConnectionError::UnexpectedDeckError(why)),
            HttpOutcome::Response { status, record, text } => {
                if status == STATUS_UNAUTHORIZED {
                    Err(PlayerConnectionError::UnauthorizedPlayerError)
                } else if status == STATUS_OK {
                    match record {
                        Ok(profile) => Ok(profile),
                        Err(why) => Err(PlayerConnectionError::InvalidPlayerPayload(why)),
                    }
                } else {
                    Err(PlayerConnectionError::UnexpectedDeckError(text_or_default(text)))
                }
            },
        }
    }

    /// The error for a request payload that does not decode; `reason` says why.
    pub fn invalid_payload(reason: String) -> (e: PlayerConnectionError)
        ensures
            e matches PlayerConnectionError::InvalidPlayerPayload(t) && t == reason,
    {
        PlayerConnectionError::InvalidPlayerPayload(reason)
    }

    /// Completes a reconnection request: the token must verify, and the
    /// player it belongs to must be the one that the request names.
    pub fn reconnection(request: &ReconnectionRequest, outcome: HttpOutcome<AuthenticatedPlayer>) -> (r:
        Result<AuthenticatedPlayer, PlayerConnectionError>)
        ensures
            reconnection_result(*request, outcome, r),
    {
        match Player::verify_authentication(outcome) {
            Err(e) => Err(e),
            Ok(player_profile) => {
                if player_profile.player_id != request.player_id {
                    Err(PlayerConnectionError::PlayerDiscrepancy)
                } else {
                    Ok(player_profile)
                }
            },
        }
    }

    /// Completes a handshake from the request and the two records fetched
    /// for it: the identity and token come from the request, level and name
    /// from the profile.
    pub fn new_connection(
        request: ConnectionRequest,
        player_profile: PartialPlayerProfile,
        player_deck: Deck,
    ) -> (connection: PlayerConnection)
        ensures
            connection.player_id == request.player_id,
            connection.player_token == request.auth_token,
            connection.current_deck_id == request.current_deck_id,
            connection.level == player_profile.level,
            connection.username == player_profile.username,
            connection.current_deck == player_deck,
    {
        PlayerConnection {
            player_id: request.player_id,
            current_deck: player_deck,
            player_token: request.auth_token,
            level: player_profile.level,
            username: player_profile.username,
            current_deck_id: request.current_deck_id,
        }
    }
}

/// What a player sees of their own side: numbers, hand, board and graveyard.
#[derive(Debug)]
pub struct PlayerView {
    pub id: String,
    pub mana: i32,
    pub health: i32,
    pub hand_size: usize,
    pub deck_size: usize,
    pub current_hand: [Option<CardView>; 10],
    pub board: BoardView,
    pub graveyard_size: usize,
    pub graveyard: GraveyardView,
}

/// The number of occupied slots of a hand.
pub open spec fn occupied(hand: Seq<Option<CardView>>) -> nat
    decreases hand.len(),
{
    if hand.len() == 0 {
        0
    } else {
        occupied(hand.drop_last()) + if hand.last() is Some {
            1nat
        } else {
            0nat
        }
    }
}

/// Filling an empty slot of a hand raises the number of occupied slots by one.
pub proof fn lemma_occupied_after_fill(hand: Seq<Option<CardView>>, slot: int, card: CardView)
    requires
        0 <= slot < hand.len(),
        hand[slot] is None,
    ensures
        occupied(hand.update(slot, Some(card))) == occupied(hand) + 1,
    decreases hand.len(),
{
    let filled = hand.update(slot, Some(card));
    if slot == hand.len() - 1 {
        assert(filled.drop_last() =~= hand.drop_last());
    } else {
        assert(filled.drop_last() =~= hand.drop_last().update(slot, Some(card)));
        lemma_occupied_after_fill(hand.drop_last(), slot, card);
    }
}

/// No more slots of a hand are occupied than it has.
pub proof fn lemma_occupied_bound(hand: Seq<Option<CardView>>)
    ensures
        occupied(hand) <= hand.len(),
    decreases hand.len(),
{
    if hand.len() > 0 {
        lemma_occupied_bound(hand.drop_last());
    }
}

/// A hand without a card has no occupied slot.
pub proof fn lemma_occupied_none(hand: Seq<Option<CardView>>)
    requires
        forall|i: int| 0 <= i < hand.len() ==> hand[i] is None,
    ensures
        occupied(hand) == 0,
    decreases hand.len(),
{
    if hand.len() > 0 {
        lemma_occupied_none(hand.drop_last());
    }
}

impl Clone for PlayerView {
    fn clone(&self) -> (copy: PlayerView)
        ensures
            self.same(copy),
    {
        PlayerView {
            id: self.id.clone(),
            mana: self.mana,
            health: self.health,
            hand_size: self.hand_size,
            deck_size: self.deck_size,
            current_hand: [
                clone_slot(&self.current_hand[0]),
                clone_slot(&self.current_hand[1]),
                clone_slot(&self.current_hand[2]),
                clone_slot(&self.current_hand[3]),
                clone_slot(&self.current_hand[4]),
                clone_slot(&self.current_hand[5]),
                clone_slot(&self.current_hand[6]),
                clone_slot(&self.current_hand[7]),
                clone_slot(&self.current_hand[8]),
                clone_slot(&self.current_hand[9]),
            ],
            board: self.board.clone(),
            graveyard_size: self.graveyard_size,
            graveyard: self.graveyard.clone(),
        }
    }
}

impl PlayerView {
    /// Whether `other` holds what this view holds, field by field and slot
    /// by slot.
    pub open spec fn same(self, other: PlayerView) -> bool {
        &&& other.id == self.id
        &&& other.mana == self.mana
        &&& other.health == self.health
        &&& other.hand_size == self.hand_size
        &&& other.deck_size == self.deck_size
        &&& other.graveyard_size == self.graveyard_size
        &&& forall|s: int| 0 <= s < 10 ==> same_slot(self.current_hand@[s], other.current_hand@[s])
        &&& other.board.creatures@ == self.board.creatures@
        &&& other.board.artifacts@ == self.board.artifacts@
        &&& other.board.enchantments@ == self.board.enchantments@
        &&& other.graveyard.creatures@ == self.graveyard.creatures@
        &&& other.graveyard.artifacts@ == self.graveyard.artifacts@
        &&& other.graveyard.enchantments@ == self.graveyard.enchantments@
    }

    /// Tells whether the view is well formed.
    pub fn check(&self) -> (ok: bool)
        ensures
            ok == self.wf(),
    {
        let mut count: usize = 0;
        let mut s: usize = 0;
        while s < 10
            invariant
                0 <= s <= 10,
                count <= s,
                self.current_hand@.len() == 10,
                count == occupied(self.current_hand@.subrange(0, s as int)),
            decreases 10 - s,
        {
            proof {
                let next = self.current_hand@.subrange(0, s + 1);
                assert(next.drop_last() =~= self.current_hand@.subrange(0, s as int));
                assert(next.last() == self.current_hand@[s as int]);
            }
            if self.current_hand[s].is_some() {
                count = count + 1;
            }
            s = s + 1;
        }
        proof {
            assert(self.current_hand@.subrange(0, 10) =~= self.current_hand@);
        }
        self.hand_size == count
    }

    /// What the opponent may see of this view: everything but the cards in
    /// hand.
    pub fn public_view(&self) -> (public: PublicPlayerView)
        ensures
            public.id == self.id,
            public.health == self.health,
            public.mana == self.mana,
            public.hand_size == self.hand_size,
            public.deck_size == self.deck_size,
            public.graveyard_size == self.graveyard_size,
            public.board.creatures@ == self.board.creatures@,
            public.board.artifacts@ == self.board.artifacts@,
            public.board.enchantments@ == self.board.enchantments@,
    {
        PublicPlayerView {
            id: self.id.clone(),
            health: self.health,
            mana: self.mana,
            hand_size: self.hand_size,
            deck_size: self.deck_size,
            graveyard_size: self.graveyard_size,
            board: self.board.clone(),
        }
    }

    /// A player view is well formed when `hand_size` counts the cards in hand.
    pub open spec fn wf(self) -> bool {
        self.hand_size == occupied(self.current_hand@)
    }

    /// The view a player starts the match with: 30 health, 1 mana, an empty
    /// hand, board and graveyard, and the whole deck to draw from.
    pub fn from_player(player: &Player) -> (view: PlayerView)
        ensures
            view.wf(),
            view.id@ == player.id@,
            view.mana == 1,
            view.health == 30,
            view.hand_size == 0,
            view.graveyard_size == 0,
            view.deck_size == player.current_deck.cards@.len(),
            forall|i: int| 0 <= i < 10 ==> view.current_hand@[i] is None,
            view.board.is_empty(),
            view.graveyard.is_empty(),
    {
        let view = PlayerView {
            mana: PLAYER_MANA,
            health: PLAYER_HEALTH,
            id: player.id.clone(),
            hand_size: 0,
            graveyard_size: 0,
            board: BoardView::default(),
            graveyard: GraveyardView::default(),
            deck_size: player.current_deck.cards.len(),
            current_hand: [None, None, None, None, None, None, None, None, None, None],
        };
        proof {
            lemma_occupied_none(view.current_hand@);
        }
        view
    }
}

/// What the opponent sees of a player: everything but the cards in hand.
#[derive(Debug)]
pub struct PublicPlayerView {
    pub id: String,
    pub health: i32,
    pub mana: i32,
    pub hand_size: usize,
    pub deck_size: usize,
    pub graveyard_size: usize,
    pub board: BoardView,
}

} // verus!
