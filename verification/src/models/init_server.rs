use vstd::prelude::*;

verus! {

/// The request that takes the server out of its first phase.
#[derive(Debug)]
pub struct InitServerRequest {
    pub match_id: String,
    pub match_type: String,
    pub players: Vec<PreloadPlayer>,
}

/// One player of the roster, with the deck they bring.
#[derive(Debug)]
pub struct PreloadPlayer {
    pub id: String,
    pub deck_id: String,
}

} // verus!
