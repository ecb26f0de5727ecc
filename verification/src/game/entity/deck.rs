use crate::game::entity::card::{card_ids, find_card, Card, CardRef, CardView};
use crate::utils::text::{first_index_of, lemma_first_index_is, lemma_first_index_of};
use vstd::prelude::*;

verus! {

/// A player's deck as the deck service stores it.
#[derive(Debug)]
pub struct Deck {
    pub id: String,
    pub player_id: String,
    pub name: String,
    pub cards: Vec<CardRef>,
}

/// A deck in a match: one card instance for each distinct card of the deck,
/// in the order in which the deck first names them.
#[derive(Debug)]
pub struct DeckView {
    pub id: String,
    pub player_id: String,
    pub name: String,
    pub card_views: Vec<CardView>,
}

/// The card identifiers of a deck list, in order.
pub open spec fn ref_ids(refs: Seq<CardRef>) -> Seq<Seq<char>> {
    refs.map_values(|r: CardRef| r.id@)
}

/// The card identifiers of a list of card instances, in order.
pub open spec fn view_ids(views: Seq<CardView>) -> Seq<Seq<char>> {
    views.map_values(|v: CardView| v.id@)
}

/// `ids` without repetitions: each identifier once, at its first occurrence.
pub open spec fn distinct(ids: Seq<Seq<char>>) -> Seq<Seq<char>>
    decreases ids.len(),
{
    if ids.len() == 0 {
        Seq::empty()
    } else {
        let before = distinct(ids.drop_last());
        if first_index_of(before, ids.last()) < before.len() {
            before
        } else {
            before.push(ids.last())
        }
    }
}

/// Finds the first card instance with the given identifier.
pub fn find_view(views: &Vec<CardView>, id: &String) -> (found: Option<usize>)
    ensures
        match found {
            Some(i) => i < views@.len() && i == first_index_of(view_ids(views@), id@),
            None => first_index_of(view_ids(views@), id@) == views@.len(),
        },
{
    let mut i: usize = 0;
    while i < views.len()
        invariant
            0 <= i <= views@.len(),
            forall|j: int| 0 <= j < i ==> view_ids(views@)[j] != id@,
        decreases views@.len() - i,
    {
        if views[i].id == *id {
            proof {
                lemma_first_index_is(view_ids(views@), id@, i as int);
            }
            return Some(i);
        }
        i = i + 1;
    }
    proof {
        lemma_first_index_is(view_ids(views@), id@, i as int);
    }
    None
}

impl Deck {
    /// Whether the catalog `cards` holds every card that the deck names.
    pub open spec fn covered_by(self, cards: Seq<Card>) -> bool {
        forall|i: int|
            0 <= i < self.cards@.len() ==> first_index_of(
                card_ids(cards),
                #[trigger] self.cards@[i].id@,
            ) < cards.len()
    }

    /// Tells whether the catalog holds every card that the deck names.
    pub fn is_covered_by(&self, cards: &Vec<Card>) -> (covered: bool)
        ensures
            covered == self.covered_by(cards@),
    {
        let mut i: usize = 0;
        while i < self.cards.len()
            invariant
                0 <= i <= self.cards@.len(),
                forall|j: int|
                    0 <= j < i ==> first_index_of(card_ids(cards@), #[trigger] self.cards@[j].id@)
                        < cards@.len(),
            decreases self.cards@.len() - i,
        {
            if find_card(cards, &self.cards[i].id).is_none() {
                return false;
            }
            i = i + 1;
        }
        true
    }

    /// Makes the match view of the deck for `owner_id`: a fresh instance of
    /// each distinct card of the deck, taken from the catalog `cards`, which
    /// must hold them all.
    pub fn create_view(&self, cards: &Vec<Card>, owner_id: &str) -> (view: DeckView)
        requires
            self.covered_by(cards@),
        ensures
            view.id@ == self.id@,
            view.name@ == self.name@,
            view.player_id@ == self.player_id@,
            view_ids(view.card_views@) == distinct(ref_ids(self.cards@)),
            forall|k: int|
                0 <= k < view.card_views@.len() ==> {
                    let at = first_index_of(card_ids(cards@), #[trigger] view.card_views@[k].id@);
                    0 <= at < cards@.len() && view.card_views@[k].is_fresh_view_of(
                        cards@[at],
                        owner_id@,
                    )
                },
    {
        let mut card_views: Vec<CardView> = Vec::new();
        let mut i: usize = 0;
        while i < self.cards.len()
            invariant
                0 <= i <= self.cards@.len(),
                self.covered_by(cards@),
                view_ids(card_views@) == distinct(ref_ids(self.cards@).subrange(0, i as int)),
                forall|k: int|
                    0 <= k < card_views@.len() ==> {
                        let at = first_index_of(card_ids(cards@), #[trigger] card_views@[k].id@);
                        0 <= at < cards@.len() && card_views@[k].is_fresh_view_of(
                            cards@[at],
                            owner_id@,
                        )
                    },
            decreases self.cards@.len() - i,
        {
            let ghost before = view_ids(card_views@);
            let ghost prefix = ref_ids(self.cards@).subrange(0, i + 1);
            proof {
                assert(prefix.drop_last() =~= ref_ids(self.cards@).subrange(0, i as int));
                assert(prefix.last() == self.cards@[i as int].id@);
            }
            let card = &self.cards[i];
            if find_view(&card_views, &card.id).is_none() {
                match find_card(cards, &card.id) {
                    Some(at) => {
                        let view = CardView::create_view(&cards[at], owner_id.to_owned());
                        card_views.push(view);
                        proof {
                            lemma_first_index_of(card_ids(cards@), card.id@);
                            assert(card_ids(cards@)[at as int] == cards@[at as int].id@);
                            assert(view_ids(card_views@) =~= before.push(card.id@));
                        }
                    },
                    None => {
                        proof {
                            assert(first_index_of(card_ids(cards@), self.cards@[i as int].id@)
                                < cards@.len());
                        }
                    },
                }
            }
            i = i + 1;
        }
        proof {
            assert(ref_ids(self.cards@).subrange(0, i as int) =~= ref_ids(self.cards@));
        }
        DeckView {
            card_views,
            id: self.id.clone(),
            name: self.name.clone(),
            player_id: self.player_id.clone(),
        }
    }
}

} // verus!
