pub mod board;
pub mod card;
pub mod deck;
pub mod player;
