//! The simulator's own database: campaigns.
//!
//! This database is separate from the core tabletop database and holds
//! simulator-only state.

use vstd::prelude::*;
use crate::db::{
    answered, db_failure, bad_row, col_i64, col_text, fetch_all, read_i64, read_text, run, SqlParam,
    SqlStatement, SqlValue,
};
use crate::shared::{
    concat3, fails_only_in_db, is_error, non_empty_msg, require_non_empty_trimmed, DataError,
    ErrorKind,
};
use crate::text::{is_blank_spec, trim_spec};
use crate::migrations::apply_embedded_migrations;

verus! {

/// The file of the simulator database.
pub const SIMULATOR_DB_PATH: &'static str = "simulator.sqlite3";

/// The migrations of the simulator database, by file name, in order.
pub const CAMPAIGNS_MIGRATION_FILE: &'static str = "0001_campaigns.sql";

/// The text of the campaigns migration.
pub const CAMPAIGNS_MIGRATION_SQL: &'static str = "CREATE TABLE IF NOT EXISTS campaigns (id INTEGER PRIMARY KEY AUTOINCREMENT, hero_unit_name TEXT NOT NULL, created_at TEXT NOT NULL DEFAULT (strftime('%Y-%m-%dT%H:%M:%fZ', 'now')));";

/// Applies the simulator's migrations that are not recorded yet.
pub fn apply_migrations(conn: &mut rusqlite::Connection) -> (r: Result<(), DataError>)
    ensures
        fails_only_in_db(r),
{
    let migrations = vec![(CAMPAIGNS_MIGRATION_FILE.to_owned(), CAMPAIGNS_MIGRATION_SQL.to_owned())];
    apply_embedded_migrations(conn, &migrations)
}

/// A minimal summary of a stored campaign.
#[derive(Debug, Clone, PartialEq, Eq)]
pub struct CampaignSummary {
    pub id: i64,
    pub hero_unit_name: String,
    pub created_at: String,
}

/// The statement that stores a new campaign for hero `hero_unit_name`.
pub fn campaign_insert_statement(hero_unit_name: &str) -> (r: SqlStatement)
    ensures
        r.sql@ == "INSERT INTO campaigns (hero_unit_name) VALUES (?1)"@,
        r.params@.len() == 1,
        r.params@[0] matches SqlParam::Text(t) && t@ == hero_unit_name@,
{
    SqlStatement {
        sql: "INSERT INTO campaigns (hero_unit_name) VALUES (?1)",
        params: vec![SqlParam::Text(hero_unit_name.to_owned())],
    }
}

/// Inserts a new campaign for the (trimmed) hero unit name.
pub fn create_campaign(conn: &rusqlite::Connection, hero_unit_name: &str) -> (r: Result<
    (),
    DataError,
>)
    ensures
        is_blank_spec(hero_unit_name@) ==> (r matches Err(e) && is_error(
            e,
            ErrorKind::Invalid,
            non_empty_msg("hero_unit_name"@),
        )),
        !is_blank_spec(hero_unit_name@) ==> fails_only_in_db(r),
        !is_blank_spec(hero_unit_name@) ==> (r matches Err(e) ==> e.message@
            == "insert campaign for hero `"@ + trim_spec(hero_unit_name@) + "`"@),
{
    let hero_unit_name = require_non_empty_trimmed("hero_unit_name", hero_unit_name)?;
    let st = campaign_insert_statement(hero_unit_name);
    match run(conn, &st) {
        Ok(_) => Ok(()),
        Err(e) => Err(db_failure(concat3("insert campaign for hero `", hero_unit_name, "`"), e)),
    }
}

/// The campaign a row `id, hero_unit_name, created_at` holds.
pub open spec fn campaign_of_row(row: Seq<SqlValue>) -> Option<CampaignSummary> {
    match (col_i64(row[0]), col_text(row[1]), col_text(row[2])) {
        (Some(id), Some(hero_unit_name), Some(created_at)) => Some(
            CampaignSummary { id, hero_unit_name, created_at },
        ),
        _ => None,
    }
}

pub open spec fn campaigns_of_rows(rows: Seq<Vec<SqlValue>>, out: Seq<CampaignSummary>) -> bool {
    &&& out.len() == rows.len()
    &&& forall|i: int| 0 <= i < rows.len() ==> campaign_of_row(#[trigger] rows[i]@) == Some(out[i])
}

/// Reads campaigns from rows `id, hero_unit_name, created_at`, in row order.
pub fn campaigns_from_rows(rows: &Vec<Vec<SqlValue>>) -> (r: Result<
    Vec<CampaignSummary>,
    DataError,
>)
    requires
        forall|i: int| 0 <= i < rows@.len() ==> #[trigger] rows@[i]@.len() == 3,
    ensures
        match r {
            Ok(v) => campaigns_of_rows(rows@, v@),
            Err(e) => e.kind == ErrorKind::Db && exists|i: int|
                0 <= i < rows@.len() && campaign_of_row(#[trigger] rows@[i]@) is None,
        },
{
    let mut out: Vec<CampaignSummary> = Vec::new();
    let mut i: usize = 0;
    while i < rows.len()
        invariant
            i <= rows@.len(),
            forall|k: int| 0 <= k < rows@.len() ==> #[trigger] rows@[k]@.len() == 3,
            campaigns_of_rows(rows@.subrange(0, i as int), out@),
        decreases rows@.len() - i,
    {
        let row = &rows[i];
        let id = match read_i64(&row[0]) {
            Some(v) => v,
            None => return Err(bad_row("campaigns.id")),
        };
        let hero_unit_name = match read_text(&row[1]) {
            Some(v) => v,
            None => return Err(bad_row("campaigns.hero_unit_name")),
        };
        let created_at = match read_text(&row[2]) {
            Some(v) => v,
            None => return Err(bad_row("campaigns.created_at")),
        };
        out.push(CampaignSummary { id, hero_unit_name, created_at });
        i = i + 1;
        assert forall|k: int| 0 <= k < i implies campaign_of_row(
            #[trigger] rows@.subrange(0, i as int)[k]@,
        ) == Some(out@[k]) by {
            if k < i - 1 {
                assert(rows@.subrange(0, i as int)[k] == rows@.subrange(0, i - 1)[k]);
            }
        }
    }
    assert(rows@.subrange(0, i as int) =~= rows@);
    Ok(out)
}

/// The text of the query that reads every campaign, newest first.
pub open spec fn campaigns_sql() -> Seq<char> {
    "SELECT id, hero_unit_name, created_at FROM campaigns ORDER BY datetime(created_at) DESC, id DESC"@
}

/// The query that reads every campaign, newest first.
pub fn campaigns_select_statement() -> (r: SqlStatement)
    ensures
        r.sql@ == "SELECT id, hero_unit_name, created_at FROM campaigns ORDER BY datetime(created_at) DESC, id DESC"@,
        r.params@.len() == 0,
{
    SqlStatement {
        sql: "SELECT id, hero_unit_name, created_at FROM campaigns ORDER BY datetime(created_at) DESC, id DESC",
        params: Vec::new(),
    }
}

/// Lists stored campaigns, newest first.
pub fn list_campaigns(conn: &rusqlite::Connection) -> (r: Result<Vec<CampaignSummary>, DataError>)
    ensures
        r matches Ok(v) ==> exists|rows: Seq<Vec<SqlValue>>| #[trigger] campaigns_of_rows(rows, v@),
        r matches Ok(v) ==> exists|rows: Seq<Vec<SqlValue>>| answered(campaigns_sql(), seq![], 3, rows)
            && #[trigger] campaigns_of_rows(rows, v@),
        fails_only_in_db(r),
{
    let st = campaigns_select_statement();
    let found = fetch_all(conn, &st, 3);
    proof {
        if let Ok(rows) = &found {
            assert(st.params@ =~= seq![]);
            assert(answered(campaigns_sql(), seq![], 3, rows@));
        }
    }
    match found {
        Ok(rows) => campaigns_from_rows(&rows),
        Err(e) => Err(db_failure("query campaigns".to_owned(), e)),
    }
}

} // verus!
