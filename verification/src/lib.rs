//! Core of a dedicated match server for a two-player, turn-based card game.
//!
//! - `tcp`: the wire codec (header, packet), the session of a player with
//!   its missed-packet queue, the session registry of the server's two
//!   phases, and the dispatcher that decides what each inbound packet
//!   leads to.
//! - `game`: the records of a match, the mutations that scripts ask for,
//!   the checks of a play, and the script host.
//! - `models`: the requests and responses exchanged with clients and
//!   services, as plain records.
//! - `utils`: the checksum, the error kinds with their texts, and text
//!   helpers.
//!
//! The library decides and computes; sockets, clocks, files and the
//! encodings of records are the caller's. Every function carries a contract
//! that Verus proves of its body.

pub mod game;
pub mod models;
pub mod tcp;
pub mod utils;
