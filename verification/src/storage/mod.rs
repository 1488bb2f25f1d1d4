//! Storage row shapes and storage errors.
pub mod models;
pub mod rating;
pub mod claims;
pub mod lookup;
