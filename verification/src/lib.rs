//! Tabletop: card data model, validation, SQLite persistence and the
//! decision logic of the simulator and the tools editor.

pub mod text;
pub mod migrations;
pub mod num;
pub mod shared;
pub mod db;
pub mod cards;
pub mod hex_grids;
pub mod simulator;
pub mod tools;
