//! The campaign/scenario simulator: its navigation state, the decisions it
//! takes on each message, and its own (campaign) database.

pub mod db;
pub mod handlers;
pub mod state;
pub mod types;
