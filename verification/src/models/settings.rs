use vstd::prelude::*;

verus! {

/// Base addresses of the services the server depends on.
#[derive(Debug)]
pub struct Settings {
    pub auth_server: String,
    pub card_server: String,
    pub deck_server: String,
}

} // verus!
