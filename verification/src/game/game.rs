use crate::game::entity::card::{card_ids, find_card, Card};
use crate::game::entity::deck::{distinct, ref_ids, view_ids, Deck};
use crate::game::entity::player::{Player, PlayerView};
use crate::game::game_state::{
    actions_applied, find_in_hand, find_player, hand_slot_of, player_ids, GameState,
};
use crate::game::script_manager::{ScriptManager, ScriptOutcome};
use crate::models::client_requests::PlayCardRequest;
use crate::models::http_response::PreloadedPlayer;
use crate::utils::errors::{CardRequestError, GameInstanceError, GameLogicError};
use crate::utils::text::first_index_of;
use vstd::prelude::*;

verus! {

/// A match: its state, its script index, its card catalog and its roster.
#[derive(Debug)]
pub struct GameInstance {
    pub game_state: GameState,
    pub script_manager: ScriptManager,
    /// The card catalog: each card once, found by its identifier.
    pub full_cards: Vec<Card>,
    /// The preregistered players, in roster order.
    pub connected_players: Vec<Player>,
}

/// What was fetched for one player of the roster before the match starts.
#[derive(Debug)]
pub struct LoadedPlayer {
    pub profile: PreloadedPlayer,
    pub deck: Deck,
    /// The full records of the deck's cards.
    pub cards: Vec<Card>,
}

/// A play that has passed every check: who plays, from which hand slot, and
/// where the card's record is in the catalog, if the catalog has it.
#[derive(Debug, Clone, Copy, PartialEq, Eq, Structural)]
pub struct CardPlay {
    pub player: usize,
    pub slot: usize,
    pub card: Option<usize>,
}

/// The catalog after `card` is stored: in the place of the card with the same
/// identifier if there is one, at the end otherwise.
pub open spec fn put_card(catalog: Seq<Card>, card: Card) -> Seq<Card> {
    let at = first_index_of(card_ids(catalog), card.id@);
    if at < catalog.len() {
        catalog.update(at, card)
    } else {
        catalog.push(card)
    }
}

/// The catalog after the first `n` of `cards` are stored, one after the other.
pub open spec fn put_cards(catalog: Seq<Card>, cards: Seq<Card>, n: int) -> Seq<Card>
    decreases n,
{
    if n <= 0 {
        catalog
    } else {
        put_card(put_cards(catalog, cards, n - 1), cards[n - 1])
    }
}

/// The catalog after the cards of the first `n` players are stored.
pub open spec fn catalog_after(loaded: Seq<LoadedPlayer>, n: int) -> Seq<Card>
    decreases n,
{
    if n <= 0 {
        Seq::empty()
    } else {
        put_cards(catalog_after(loaded, n - 1), loaded[n - 1].cards@, loaded[n - 1].cards@.len() as int)
    }
}

/// Whether each of the first `n` players' decks names only cards that the
/// catalog holds once that player's cards are stored.
pub open spec fn decks_covered(loaded: Seq<LoadedPlayer>, n: int) -> bool {
    forall|i: int| 0 <= i < n ==> (#[trigger] loaded[i]).deck.covered_by(catalog_after(loaded, i + 1))
}

/// Whether `player` and `view` are what a match starts with for `loaded`,
/// `catalog` being the catalog once that player's cards are stored.
pub open spec fn starts_as(
    player: Player,
    view: PlayerView,
    loaded: LoadedPlayer,
    catalog: Seq<Card>,
) -> bool {
    &&& player.id == loaded.profile.id
    &&& player.level == loaded.profile.level
    &&& player.username == loaded.profile.username
    &&& player.current_deck == loaded.deck
    &&& player.current_deck_id@ == loaded.deck.id@
    &&& player.deck_view.id@ == loaded.deck.id@
    &&& player.deck_view.name@ == loaded.deck.name@
    &&& player.deck_view.player_id@ == loaded.deck.player_id@
    &&& view_ids(player.deck_view.card_views@) == distinct(ref_ids(loaded.deck.cards@))
    &&& forall|k: int|
        0 <= k < player.deck_view.card_views@.len() ==> {
            let at = first_index_of(
                card_ids(catalog),
                #[trigger] player.deck_view.card_views@[k].id@,
            );
            0 <= at < catalog.len() && player.deck_view.card_views@[k].is_fresh_view_of(
                catalog[at],
                loaded.profile.id@,
            )
        }
    &&& view.wf()
    &&& view.id@ == loaded.profile.id@
    &&& view.health == 30
    &&& view.mana == 1
    &&& view.hand_size == 0
    &&& view.deck_size == loaded.deck.cards@.len()
    &&& view.board.is_empty()
    &&& view.graveyard.is_empty()
    &&& forall|s: int| 0 <= s < 10 ==> view.current_hand@[s] is None
}

/// Stores a card in a catalog, replacing the card with the same identifier.
pub fn store_card(catalog: &mut Vec<Card>, card: Card)
    ensures
        final(catalog)@ == put_card(old(catalog)@, card),
{
    match find_card(catalog, &card.id) {
        Some(at) => {
            catalog[at] = card;
        },
        None => {
            catalog.push(card);
        },
    }
}

impl GameInstance {
    /// A game instance is well formed when its state is.
    pub open spec fn wf(self) -> bool {
        self.game_state.wf()
    }

    /// Builds the match from what was fetched for the roster. Player by
    /// player, the cards are stored in the catalog and the deck's match view
    /// is made from it; a deck that names a card which the catalog then lacks
    /// fails the whole instance.
    pub fn create_instance(script_manager: ScriptManager, loaded: Vec<LoadedPlayer>) -> (r: Result<
        GameInstance,
        GameInstanceError,
    >)
        ensures
            r is Ok <==> decks_covered(loaded@, loaded@.len() as int),
            r matches Ok(game) ==> {
                &&& game.wf()
                &&& game.script_manager == script_manager
                &&& game.full_cards@ == catalog_after(loaded@, loaded@.len() as int)
                &&& game.connected_players@.len() == loaded@.len()
                &&& game.game_state.player_views@.len() == loaded@.len()
                &&& forall|i: int|
                    0 <= i < loaded@.len() ==> starts_as(
                        #[trigger] game.connected_players@[i],
                        game.game_state.player_views@[i],
                        loaded@[i],
                        catalog_after(loaded@, i + 1),
                    )
                &&& game.game_state.rounds == 0
                &&& game.game_state.red_first
                &&& game.game_state.ongoing
            },
    {
        let mut full_cards: Vec<Card> = Vec::new();
        let mut connected_players: Vec<Player> = Vec::new();
        let mut player_views: Vec<PlayerView> = Vec::new();
        let ghost all = loaded@;
        let mut rest = loaded;
        let mut done: usize = 0;
        let total = rest.len();
        while done < total
            invariant
                0 <= done <= total,
                total == all.len(),
                all == loaded@,
                rest@ == all.subrange(done as int, total as int),
                full_cards@ == catalog_after(all, done as int),
                decks_covered(all, done as int),
                connected_players@.len() == done,
                player_views@.len() == done,
                forall|i: int|
                    0 <= i < done ==> starts_as(
                        #[trigger] connected_players@[i],
                        player_views@[i],
                        all[i],
                        catalog_after(all, i + 1),
                    ),
            decreases total - done,
        {
            let entry = rest.remove(0);
            proof {
                assert(entry == all[done as int]);
                assert(rest@ =~= all.subrange(done + 1, total as int));
            }
            let LoadedPlayer { profile, deck, cards } = entry;
            let ghost before = full_cards@;
            let mut cards = cards;
            let ghost these = cards@;
            let mut stored: usize = 0;
            let count = cards.len();
            while stored < count
                invariant
                    0 <= stored <= count,
                    count == these.len(),
                    cards@ == these.subrange(stored as int, count as int),
                    full_cards@ == put_cards(before, these, stored as int),
                decreases count - stored,
            {
                let card = cards.remove(0);
                proof {
                    assert(card == these[stored as int]);
                    assert(cards@ =~= these.subrange(stored + 1, count as int));
                }
                store_card(&mut full_cards, card);
                stored = stored + 1;
            }
            proof {
                assert(full_cards@ == catalog_after(all, done + 1));
            }
            if !deck.is_covered_by(&full_cards) {
                proof {
                    assert(!all[done as int].deck.covered_by(catalog_after(all, done + 1)));
                }
                return Err(GameInstanceError::PlaceHolderError);
            }
            let deck_view = deck.create_view(&full_cards, profile.id.as_str());
            let player = Player::preload_player(profile, deck, deck_view);
            let view = PlayerView::from_player(&player);
            connected_players.push(player);
            player_views.push(view);
            done = done + 1;
        }
        proof {
            assert forall|i: int| 0 <= i < player_views@.len() implies player_views@[i].wf() by {
                assert(starts_as(
                    connected_players@[i],
                    player_views@[i],
                    all[i],
                    catalog_after(all, i + 1),
                ));
            }
        }
        let game_state = GameState::new_game(player_views);
        Ok(GameInstance { game_state, script_manager, full_cards, connected_players })
    }

    /// What the checks of a play come to, in their order: the player that
    /// the request names must be in the match, must be the player of the
    /// session that sent it, must have the turn, and must hold the card.
    pub open spec fn play_result(
        self,
        client_player: Seq<char>,
        request: PlayCardRequest,
        r: Result<CardPlay, GameLogicError>,
    ) -> bool {
        let views = self.game_state.player_views@;
        let p = first_index_of(player_ids(views), request.player_id@);
        let slot = hand_slot_of(views[p].current_hand@, request.card_id@);
        let c = first_index_of(card_ids(self.full_cards@), request.card_id@);
        if p >= views.len() {
            r matches Err(GameLogicError::PlayerNotFound)
        } else if client_player != request.player_id@ {
            r matches Err(GameLogicError::PlayerIdDoesNotMatch)
        } else if self.game_state.turn_owner() != request.player_id@ {
            r matches Err(GameLogicError::NotPlayerTurn)
        } else if slot >= 10 {
            r matches Err(GameLogicError::CardPlayedIsNotInHand)
        } else {
            r == Ok::<CardPlay, GameLogicError>(
                CardPlay {
                    player: p as usize,
                    slot: slot as usize,
                    card: if c < self.full_cards@.len() {
                        Some(c as usize)
                    } else {
                        None
                    },
                },
            )
        }
    }

    /// Checks a request to play a card, sent by the session of the player
    /// `client_player`. A play that passes says where the card's record is
    /// in the catalog; if the catalog lacks it, the record has to be
    /// fetched and handed to `resolve_card` first.
    pub fn play_card(&self, client_player: &String, request: &PlayCardRequest) -> (r: Result<
        CardPlay,
        GameLogicError,
    >)
        ensures
            self.play_result(client_player@, *request, r),
    {
        let player = match find_player(&self.game_state.player_views, &request.player_id) {
            Some(p) => p,
            None => {
                return Err(GameLogicError::PlayerNotFound);
            },
        };
        if *client_player != request.player_id {
            return Err(GameLogicError::PlayerIdDoesNotMatch);
        }
        if !self.game_state.is_turn_of(&request.player_id) {
            return Err(GameLogicError::NotPlayerTurn);
        }
        let slot = match find_in_hand(
            &self.game_state.player_views[player].current_hand,
            &request.card_id,
        ) {
            Some(s) => s,
            None => {
                return Err(GameLogicError::CardPlayedIsNotInHand);
            },
        };
        let card = find_card(&self.full_cards, &request.card_id);
        Ok(CardPlay { player, slot, card })
    }

    /// Stores a card in the catalog, in the place of the card with the same
    /// identifier if there is one.
    pub fn add_card(&mut self, card: Card)
        ensures
            final(self).full_cards@ == put_card(old(self).full_cards@, card),
            final(self).game_state == old(self).game_state,
            final(self).script_manager == old(self).script_manager,
            final(self).connected_players == old(self).connected_players,
    {
        store_card(&mut self.full_cards, card);
    }

    /// Takes the answer to the request for the record of the card `card_id`
    /// that the catalog lacked. A record is stored; the result is the place
    /// of the card `card_id` in the catalog. A failed request, or a record
    /// of another card, gives `UnableToGetCardDetails`.
    pub fn resolve_card(&mut self, card_id: &String, fetched: Result<Card, CardRequestError>) -> (r:
        Result<usize, GameLogicError>)
        ensures
            final(self).game_state == old(self).game_state,
            final(self).script_manager == old(self).script_manager,
            final(self).connected_players == old(self).connected_players,
            match fetched {
                Err(_) => r matches Err(GameLogicError::UnableToGetCardDetails)
                    && final(self).full_cards@ == old(self).full_cards@,
                Ok(card) => {
                    let at = first_index_of(card_ids(final(self).full_cards@), card_id@);
                    &&& final(self).full_cards@ == put_card(old(self).full_cards@, card)
                    &&& if at < final(self).full_cards@.len() {
                        r == Ok::<usize, GameLogicError>(at as usize)
                    } else {
                        r matches Err(GameLogicError::UnableToGetCardDetails)
                    }
                },
            },
    {
        match fetched {
            Err(_) => Err(GameLogicError::UnableToGetCardDetails),
            Ok(card) => {
                self.add_card(card);
                match find_card(&self.full_cards, card_id) {
                    Some(at) => Ok(at),
                    None => Err(GameLogicError::UnableToGetCardDetails),
                }
            },
        }
    }

    /// Takes what one script of a card's trigger list came to, for a card
    /// played by the player `owner_id`: the actions of a successful call are
    /// carried out in order; a script that cannot be found or called, or that
    /// returned something else than actions, stops the play and leaves the
    /// state as it is.
    pub fn apply_trigger(
        &mut self,
        action: &str,
        actor_id: &str,
        owner_id: &String,
        outcome: ScriptOutcome,
    ) -> (r: Result<(), GameLogicError>)
        requires
            old(self).wf(),
        ensures
            final(self).wf(),
            final(self).full_cards == old(self).full_cards,
            final(self).script_manager == old(self).script_manager,
            final(self).connected_players == old(self).connected_players,
            match r {
                Err(e) => old(self).script_manager.call_result(
                    action@,
                    actor_id@,
                    outcome,
                    Err::<Vec<crate::models::game_action::GameAction>, GameLogicError>(e),
                ) && final(self).game_state == old(self).game_state,
                Ok(()) => {
                    &&& old(self).script_manager.resolved(action@) is Some
                    &&& outcome is Actions
                    &&& exists|states: Seq<GameState>|
                        {
                            &&& actions_applied(
                                states,
                                outcome->Actions_0@,
                                owner_id@,
                                old(self).full_cards@,
                            )
                            &&& states[0] == old(self).game_state
                            &&& states[outcome->Actions_0@.len() as int] == final(self).game_state
                        }
                },
            },
    {
        match self.script_manager.call_function_ctx(action, actor_id, outcome) {
            Err(e) => Err(e),
            Ok(actions) => {
                self.game_state.apply_actions(actions, owner_id, &self.full_cards);
                Ok(())
            },
        }
    }
}

} // verus!
