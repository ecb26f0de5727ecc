use vstd::prelude::*;

verus! {

/// One atomic change to the game state, as a script returns it.
#[derive(Debug)]
pub enum GameAction {
    DealDamage { target: String, amount: u32 },
    Heal { target: String, amount: u32 },
    Summon { id: String, position: String },
}

} // verus!
