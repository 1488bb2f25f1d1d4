//! Riot ID parsing, Riot API routing and URL building, and the Riot API data shapes.
pub mod account;
pub mod match_v5;
pub mod routing;
