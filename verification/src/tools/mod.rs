//! The card editor ("tools"): form parsing, the editor state and the
//! decisions it takes on each message.

pub mod cli;
pub mod form_parsing;
pub mod gui;
