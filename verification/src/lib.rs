//! Bookkeeping for a commodity-trading board game: a market of bounded
//! prices, the players' holdings, and the actions that move both.

pub mod comodity;
pub mod game;
pub mod laws;
pub mod parse;
pub mod player;
pub mod price;
pub mod setup;
pub mod turn;
