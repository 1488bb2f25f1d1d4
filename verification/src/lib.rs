//! In-house League of Legends game tracking for Discord guilds: game ids and
//! modes, the game state machine, team shuffling and rotation, command parsing,
//! Riot routing and match bookkeeping.
pub mod cron;
pub mod discord;
pub mod domain;
pub mod handlers;
pub mod riot;
pub mod storage;
pub mod text;
pub mod worker;
