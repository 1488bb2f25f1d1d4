//! Game ids, modes, the game state machine, team shuffling and player records.
pub mod ids;
pub mod match_id;
pub mod modes;
pub mod shuffle;
pub mod state;
pub mod stats;
