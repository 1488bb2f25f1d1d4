//! Command handling: responses, cards, team rotation, match bookkeeping and the decisions that
//! each command makes.
pub mod flow;
pub mod format;
pub mod matches;
pub mod report;
pub mod rotation;
pub mod sync;
pub mod types;
