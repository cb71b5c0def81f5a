//! The arguments of the tools command line: where the tabletop folder, the
//! database and the migrations live, and an optional card command.

use vstd::prelude::*;
use std::path::PathBuf;

verus! {

/// Tabletop tools: initializes and migrates the local SQLite database.
#[derive(Debug)]
pub struct Args {
    /// Path to the tabletop folder (`..` by default, so that running from
    /// `tabletop/tools` targets the project root).
    pub tabletop_dir: PathBuf,
    /// Path to the SQLite database file (relative to `tabletop_dir` unless
    /// absolute; `tabletop.sqlite3` by default).
    pub db_path: PathBuf,
    /// Directory containing `.sql` migration files (relative to
    /// `tabletop_dir` unless absolute; `migrations` by default).
    pub migrations_dir: PathBuf,
    /// Optional command to run (if omitted, runs init + migrations only).
    pub command: Option<Command>,
}

#[derive(Debug, Clone, PartialEq, Eq)]
pub enum Command {
    /// Unit CRUD (by name)
    Unit { command: UnitCommand },
    /// Item CRUD (by name)
    Item { command: ItemCommand },
}

#[derive(Debug, Clone, PartialEq, Eq)]
pub enum UnitCommand {
    /// Save (upsert) a unit by name
    Save {
        name: String,
        strength: i64,
        focus: i64,
        intelligence: i64,
        agility: i64,
        knowledge: i64,
    },
    /// Get a unit by name
    Get { name: String },
    /// List all units
    List,
}

#[derive(Debug, Clone, PartialEq, Eq)]
pub enum ItemCommand {
    /// Save (upsert) an item by name
    Save { name: String },
    /// Get an item by name
    Get { name: String },
    /// List all items
    List,
}

} // verus!
