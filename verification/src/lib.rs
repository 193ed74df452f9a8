//! Verified decision logic of the orchestrator's explorer conversations.
pub mod locations;
pub mod messages;
pub mod text;
pub mod errors;
pub mod galaxy;
pub mod states;
pub mod conversation;
pub mod step;
pub mod laws;
