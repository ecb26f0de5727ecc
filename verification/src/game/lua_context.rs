use crate::game::entity::card::CardView;
use crate::game::game_state::{GameState, PrivateGameStateView};
use vstd::prelude::*;

verus! {

/// What a script is called with: the event, the script's own name, the card
/// that acts, the card it acts on if any, and a snapshot of the match.
#[derive(Debug)]
pub struct LuaContext {
    pub event: String,
    pub action_name: String,
    pub actor_id: String,
    pub actor_view: CardView,
    pub target_id: Option<String>,
    pub target_view: Option<CardView>,
    pub game_state: PrivateGameStateView,
}

impl LuaContext {
    /// Whether this is the context of the script `action`, run on `event`
    /// for the card `actor` and the target `target`, with `state` as it is:
    /// the first player's view as red, the second's as blue.
    pub open spec fn is_snapshot_of(
        self,
        state: GameState,
        actor: CardView,
        target: Option<CardView>,
        event: String,
        action: String,
    ) -> bool {
        &&& self.event == event
        &&& self.action_name == action
        &&& self.actor_id == actor.id
        &&& actor.same(self.actor_view)
        &&& self.target_view == target
        &&& match target {
            Some(t) => self.target_id == Some(t.id),
            None => self.target_id is None,
        }
        &&& self.game_state.turn == state.rounds
        &&& state.player_views@[0].same(self.game_state.red_player)
        &&& state.player_views@[1].same(self.game_state.blue_player)
    }

    /// Takes the snapshot that a script is called with. A match with fewer
    /// than two players has none.
    pub fn new(
        game_state: &GameState,
        actor: &CardView,
        target: Option<CardView>,
        event: String,
        action: String,
    ) -> (context: Option<LuaContext>)
        ensures
            context is Some <==> game_state.player_views@.len() >= 2,
            context matches Some(c) ==> c.is_snapshot_of(
                *game_state,
                *actor,
                target,
                event,
                action,
            ),
    {
        if game_state.player_views.len() < 2 {
            return None;
        }
        let red_player = game_state.player_views[0].clone();
        let blue_player = game_state.player_views[1].clone();
        let private_game_state = PrivateGameStateView {
            red_player,
            blue_player,
            turn: game_state.rounds,
        };
        let target_id = match &target {
            Some(t) => Some(t.id.clone()),
            None => None,
        };
        Some(
            LuaContext {
                event,
                game_state: private_game_state,
                action_name: action,
                actor_view: actor.clone(),
                actor_id: actor.id.clone(),
                target_id,
                target_view: target,
            },
        )
    }
}

} // verus!
