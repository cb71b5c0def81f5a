//! The card editor: its state, and the decision it takes on each message.

pub mod types;
pub mod state;
pub mod forms;
pub mod lists;
pub mod effects;
pub mod update;
pub mod tasks;
pub mod tasks_hex;
pub mod tasks_mods;
pub mod tasks_cards;
pub mod tasks_actions;
pub mod dispatch;
pub mod matching;
pub mod canvas;
pub mod choices;
pub mod laws;
