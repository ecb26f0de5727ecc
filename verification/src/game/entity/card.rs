use crate::models::http_response::{
    text_or_default, body_text, HttpOutcome, SelectedCardsResponse, STATUS_NOT_FOUND, STATUS_OK,
};
use crate::utils::errors::CardRequestError;
use crate::utils::text::{decimal, decimal_text, first_index_of, lemma_first_index_is};
use vstd::prelude::*;
use vstd::string::StringExecFns;

verus! {

/// A reference into a deck list: a card and how many copies of it.
#[derive(Debug)]
pub struct CardRef {
    pub id: String,
    pub amount: u32,
}

/// The full, static record of a card: identity, numbers, and for each of the
/// nine triggers the qualified names of the scripts to run, in order.
#[derive(Debug)]
pub struct Card {
    pub id: String,
    pub name: String,
    pub description: String,
    pub play_cost: i32,
    pub attack: i32,
    pub health: i32,
    pub rarity: i16,
    pub on_play: Vec<String>,
    pub on_draw: Vec<String>,
    pub on_attack: Vec<String>,
    pub on_hit: Vec<String>,
    pub on_turn_start: Vec<String>,
    pub on_turn_end: Vec<String>,
    pub on_death: Vec<String>,
    pub on_ally_death: Vec<String>,
    pub on_enemy_death: Vec<String>,
}

impl Clone for CardRef {
    fn clone(&self) -> (copy: CardRef)
        ensures
            copy == *self,
    {
        CardRef { id: self.id.clone(), amount: self.amount }
    }
}

/// Copies a list of texts.
pub fn clone_texts(texts: &Vec<String>) -> (copy: Vec<String>)
    ensures
        copy@ == texts@,
{
    let mut copy: Vec<String> = Vec::new();
    let mut i: usize = 0;
    while i < texts.len()
        invariant
            0 <= i <= texts@.len(),
            copy@ == texts@.subrange(0, i as int),
        decreases texts@.len() - i,
    {
        copy.push(texts[i].clone());
        proof {
            assert(copy@ =~= texts@.subrange(0, i + 1));
        }
        i = i + 1;
    }
    proof {
        assert(texts@.subrange(0, i as int) =~= texts@);
    }
    copy
}

/// The identifiers of a list of cards, in order.
pub open spec fn card_ids(cards: Seq<Card>) -> Seq<Seq<char>> {
    cards.map_values(|c: Card| c.id@)
}

/// Finds the first card with the given identifier.
pub fn find_card(cards: &Vec<Card>, id: &String) -> (found: Option<usize>)
    ensures
        match found {
            Some(i) => i < cards@.len() && i == first_index_of(card_ids(cards@), id@),
            None => first_index_of(card_ids(cards@), id@) == cards@.len(),
        },
{
    let mut i: usize = 0;
    while i < cards.len()
        invariant
            0 <= i <= cards@.len(),
            forall|j: int| 0 <= j < i ==> card_ids(cards@)[j] != id@,
        decreases cards@.len() - i,
    {
        if cards[i].id == *id {
            proof {
                lemma_first_index_is(card_ids(cards@), id@, i as int);
            }
            return Some(i);
        }
        i = i + 1;
    }
    proof {
        lemma_first_index_is(card_ids(cards@), id@, i as int);
    }
    None
}

/// The text of the error for a catalog answer that leaves cards out.
pub open spec fn missing_cards_text(not_found: nat, invalid: nat) -> Seq<char> {
    "Not found: "@ + decimal_text(not_found) + ", Invalid cards: "@ + decimal_text(invalid)
}

/// What a request for one card comes to.
pub open spec fn request_card_result(
    card_id: Seq<char>,
    outcome: HttpOutcome<Card>,
    r: Result<Card, CardRequestError>,
) -> bool {
    match outcome {
        HttpOutcome::Failed(why) => r matches Err(
            CardRequestError::UnexpectedCardRequestError(t),
        ) && t@ == why@,
        HttpOutcome::Response { status, record, text } => if status == STATUS_NOT_FOUND {
            r matches Err(CardRequestError::CardNotFound(t)) && t@ == card_id
        } else if status == STATUS_OK {
            match record {
                Ok(card) => r == Ok::<Card, CardRequestError>(card),
                Err(why) => r matches Err(CardRequestError::UnexpectedCardRequestError(t)) && t@
                    == why@,
            }
        } else {
            r matches Err(CardRequestError::UnexpectedCardRequestError(t)) && t@ == body_text(text)
        },
    }
}

/// What a request for several cards comes to.
pub open spec fn request_cards_result(
    outcome: HttpOutcome<SelectedCardsResponse>,
    r: Result<Vec<Card>, CardRequestError>,
) -> bool {
    match outcome {
        HttpOutcome::Failed(why) => r matches Err(
            CardRequestError::UnexpectedCardRequestError(t),
        ) && t@ == why@,
        HttpOutcome::Response { status, record, text } => if status == STATUS_OK {
            match record {
                Err(_) => r matches Err(CardRequestError::SelectedCardsParseError),
                Ok(selected) => if selected.cards_not_found@.len() != 0
                    || selected.invalid_card_guid@.len() != 0 {
                    r matches Err(CardRequestError::MissingCardData(t)) && t@
                        == missing_cards_text(
                        selected.cards_not_found@.len(),
                        selected.invalid_card_guid@.len(),
                    )
                } else {
                    r == Ok::<Vec<Card>, CardRequestError>(selected.cards)
                },
            }
        } else {
            r matches Err(CardRequestError::UnexpectedCardRequestError(t)) && t@ == body_text(text)
        },
    }
}

impl Card {
    /// Judges the card service's answer to a request for the card `card_id`:
    /// the card on status 200 with a body that decodes, "not found" on 404,
    /// an unexpected-error otherwise, carrying the reason.
    pub fn request_card(card_id: &str, outcome: HttpOutcome<Card>) -> (r: Result<
        Card,
        CardRequestError,
    >)
        ensures
            request_card_result(card_id@, outcome, r),
    {
        match outcome {
            HttpOutcome::Failed(why) => Err(CardRequestError::UnexpectedCardRequestError(why)),
            HttpOutcome::Response { status, record, text } => {
                if status == STATUS_NOT_FOUND {
                    Err(CardRequestError::CardNotFound(String::from_str(card_id)))
                } else if status == STATUS_OK {
                    match record {
                        Ok(card) => Ok(card),
                        Err(why) => Err(CardRequestError::UnexpectedCardRequestError(why)),
                    }
                } else {
                    Err(CardRequestError::UnexpectedCardRequestError(text_or_default(text)))
                }
            },
        }
    }

    /// Judges the card service's answer to a request for several cards: the
    /// cards on status 200 when none is reported missing or invalid; an error
    /// with both counts when some are; a parse error for a body that does not
    /// decode; an unexpected-error otherwise.
    pub fn request_cards(outcome: HttpOutcome<SelectedCardsResponse>) -> (r: Result<
        Vec<Card>,
        CardRequestError,
    >)
        ensures
            request_cards_result(outcome, r),
    {
        match outcome {
            HttpOutcome::Failed(why) => Err(CardRequestError::UnexpectedCardRequestError(why)),
            HttpOutcome::Response { status, record, text } => {
                if status == STATUS_OK {
                    match record {
                        Err(_) => Err(CardRequestError::SelectedCardsParseError),
                        Ok(selected) => {
                            let not_found = selected.cards_not_found.len();
                            let invalid = selected.invalid_card_guid.len();
                            if not_found != 0 || invalid != 0 {
                                let message = String::from_str("Not found: ").concat(
                                    decimal(not_found).as_str(),
                                ).concat(", Invalid cards: ").concat(decimal(invalid).as_str());
                                Err(CardRequestError::MissingCardData(message))
                            } else {
                                Ok(selected.cards)
                            }
                        },
                    }
                } else {
                    Err(CardRequestError::UnexpectedCardRequestError(text_or_default(text)))
                }
            },
        }
    }
}

/// A card as it exists in one match: the numbers it currently has, who owns
/// it and where it is.
#[derive(Debug)]
pub struct CardView {
    pub id: String,
    pub name: String,
    pub attack: i32,
    pub health: i32,
    pub play_cost: i32,
    pub owner_id: String,
    pub effects: Vec<String>,
    pub position: Option<String>,
    pub in_deck: bool,
    pub in_hand: bool,
    pub in_board: bool,
    pub in_graveyard: bool,
    pub is_exhausted: bool,
}

impl Clone for CardView {
    fn clone(&self) -> (copy: CardView)
        ensures
            self.same(copy),
    {
        CardView {
            id: self.id.clone(),
            name: self.name.clone(),
            attack: self.attack,
            health: self.health,
            play_cost: self.play_cost,
            owner_id: self.owner_id.clone(),
            effects: clone_texts(&self.effects),
            position: match &self.position {
                Some(p) => Some(p.clone()),
                None => None,
            },
            in_deck: self.in_deck,
            in_hand: self.in_hand,
            in_board: self.in_board,
            in_graveyard: self.in_graveyard,
            is_exhausted: self.is_exhausted,
        }
    }
}

/// Whether two hand slots hold the same: nothing, or a card and its copy.
pub open spec fn same_slot(a: Option<CardView>, b: Option<CardView>) -> bool {
    match (a, b) {
        (Some(x), Some(y)) => x.same(y),
        (None, None) => true,
        _ => false,
    }
}

/// Copies what a hand slot holds.
pub fn clone_slot(slot: &Option<CardView>) -> (copy: Option<CardView>)
    ensures
        same_slot(*slot, copy),
{
    match slot {
        Some(card) => Some(card.clone()),
        None => None,
    }
}

impl CardView {
    /// Whether `other` holds what this card instance holds, field by field.
    pub open spec fn same(self, other: CardView) -> bool {
        &&& other.id == self.id
        &&& other.name == self.name
        &&& other.attack == self.attack
        &&& other.health == self.health
        &&& other.play_cost == self.play_cost
        &&& other.owner_id == self.owner_id
        &&& other.effects@ == self.effects@
        &&& other.position == self.position
        &&& other.in_deck == self.in_deck
        &&& other.in_hand == self.in_hand
        &&& other.in_board == self.in_board
        &&& other.in_graveyard == self.in_graveyard
        &&& other.is_exhausted == self.is_exhausted
    }

    /// Whether this is the fresh match instance of `card` for `owner_id`:
    /// the card's identity and numbers, no effects, no position, in no zone.
    pub open spec fn is_fresh_view_of(self, card: Card, owner_id: Seq<char>) -> bool {
        &&& self.id@ == card.id@
        &&& self.name@ == card.name@
        &&& self.attack == card.attack
        &&& self.health == card.health
        &&& self.play_cost == card.play_cost
        &&& self.owner_id@ == owner_id
        &&& self.effects@.len() == 0
        &&& self.position is None
        &&& !self.in_deck
        &&& !self.in_hand
        &&& !self.in_board
        &&& !self.in_graveyard
        &&& !self.is_exhausted
    }

    /// Makes the match instance of a card for its owner.
    pub fn create_view(card: &Card, owner_id: String) -> (view: CardView)
        ensures
            view.is_fresh_view_of(*card, owner_id@),
    {
        CardView {
            position: None,
            owner_id,
            is_exhausted: false,
            id: card.id.clone(),
            effects: Vec::new(),
            name: card.name.clone(),
            attack: card.attack,
            health: card.health,
            play_cost: card.play_cost,
            in_deck: false,
            in_hand: false,
            in_board: false,
            in_graveyard: false,
        }
    }
}

} // verus!
