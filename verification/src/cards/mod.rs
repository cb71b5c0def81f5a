//! Card domain modules: the card types, their validation, and their storage.
//!
//! Each card type lives in its own module.

pub mod action;
pub mod armor_modifier;
pub mod attack;
pub mod interaction;
pub mod item;
pub mod level;
pub mod outcome;
pub mod unit;
pub mod stat_modifier;
