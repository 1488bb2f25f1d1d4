//! Discord interactions: the request shapes, slash-command parsing, responses and request
//! signature checks.
pub mod command;
pub mod interaction;
pub mod manifest;
pub mod response;
pub mod verify;
