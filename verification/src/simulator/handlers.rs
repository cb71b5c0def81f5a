//! The simulator's effects: loads from the core database, campaign writes to
//! the simulator database, and how their outcomes land in the state.
//!
//! Opening a database file and applying migrations are done by the host;
//! these functions take what came of it (a connection, or the text of the
//! failure).

use vstd::prelude::*;
use crate::cards::unit::{
    list_cards as list_units, select_all_sql as unit_select_all_sql, units_of_rows, Unit,
};
use crate::db::{
    answered, bad_row, col_i64, col_text, db_error, fetch_all, first_answered, read_i64, read_text,
    SqlParam, SqlStatement, SqlValue,
};
use crate::hex_grids::{
    grid_of_row, grid_query_sql, tiles_of_rows, tiles_query_sql, HexGrid, HexTile,
};
use crate::num::decimal_spec;
use crate::shared::{concat2, fails_only_in_db, is_error, DataError, ErrorKind};
use crate::simulator::db::{
    campaigns_of_rows, campaigns_sql, create_campaign, list_campaigns, CampaignSummary,
};
use crate::simulator::state::{HexGridSummary, Simulator, SimulatorView};
use crate::text::opt_text;

verus! {

/// `"Failed to apply simulator migrations: <e>"`.
pub open spec fn migrations_failed_msg(e: Seq<char>) -> Seq<char> {
    "Failed to apply simulator migrations: "@ + e
}

/// The banner shown once a campaign is stored.
pub open spec fn campaign_saved_msg() -> Seq<char> {
    "Campaign created and saved to simulator database."@
}

/// Lands the outcome of loading units: the units, or the error text with no
/// units.
pub fn apply_units_result(app: &mut Simulator, result: Result<Vec<Unit>, String>)
    ensures
        match result {
            Ok(units) => final(app)@ == (SimulatorView {
                units: units@,
                load_error: None,
                ..old(app)@
            }),
            Err(msg) => final(app)@ == (SimulatorView {
                units: Seq::empty(),
                load_error: Some(msg@),
                ..old(app)@
            }),
        },
{
    app.load_error = None;
    app.units.clear();
    match result {
        Ok(units) => {
            app.units = units;
        },
        Err(msg) => {
            app.load_error = Some(msg);
        },
    }
}

/// The state once a hex grid list (or the error text) has landed.
pub open spec fn hex_grids_landed(v: SimulatorView, res: Result<Vec<HexGridSummary>, String>) -> SimulatorView {
    match res {
        Ok(grids) => SimulatorView {
            scenario_hex_grids: grids@,
            selected_scenario_hex_grid_id: None,
            load_error: None,
            ..v
        },
        Err(msg) => SimulatorView {
            scenario_hex_grids: Seq::empty(),
            selected_scenario_hex_grid_id: None,
            load_error: Some(msg@),
            ..v
        },
    }
}

/// Lands the outcome of loading the hex grid list: the grids with no
/// selection, or the error text with no grids.
pub fn apply_hex_grids_result(app: &mut Simulator, result: Result<Vec<HexGridSummary>, String>)
    ensures
        final(app)@ == hex_grids_landed(old(app)@, result),
{
    app.load_error = None;
    app.scenario_hex_grids.clear();
    app.selected_scenario_hex_grid_id = None;
    match result {
        Ok(grids) => {
            app.scenario_hex_grids = grids;
        },
        Err(msg) => {
            app.load_error = Some(msg);
        },
    }
}

/// The state once a scenario grid with its tiles (or the error text) has
/// landed.
pub open spec fn scenario_landed(v: SimulatorView, res: Result<(HexGrid, Vec<HexTile>), String>) -> SimulatorView {
    match res {
        Ok((grid, tiles)) => SimulatorView {
            scenario_test_hex_grid: Some(grid),
            scenario_test_tiles: tiles@,
            load_error: None,
            ..v
        },
        Err(msg) => SimulatorView {
            scenario_test_hex_grid: None,
            scenario_test_tiles: Seq::empty(),
            load_error: Some(msg@),
            ..v
        },
    }
}

/// Lands the outcome of loading the scenario grid: the grid and its tiles,
/// or the error text with neither.
pub fn apply_scenario_result(app: &mut Simulator, result: Result<(HexGrid, Vec<HexTile>), String>)
    ensures
        final(app)@ == scenario_landed(old(app)@, result),
{
    app.load_error = None;
    app.scenario_test_hex_grid = None;
    app.scenario_test_tiles.clear();
    match result {
        Ok((grid, tiles)) => {
            app.scenario_test_hex_grid = Some(grid);
            app.scenario_test_tiles = tiles;
        },
        Err(msg) => {
            app.load_error = Some(msg);
        },
    }
}

/// The state once a campaign list (or the error text) has landed.
pub open spec fn campaigns_landed(v: SimulatorView, res: Result<Vec<CampaignSummary>, String>) -> SimulatorView {
    match res {
        Ok(campaigns) => SimulatorView { campaigns: campaigns@, load_error: None, ..v },
        Err(msg) => SimulatorView { campaigns: Seq::empty(), load_error: Some(msg@), ..v },
    }
}

/// Lands the outcome of loading the stored campaigns.
pub fn apply_campaigns_result(app: &mut Simulator, result: Result<Vec<CampaignSummary>, String>)
    ensures
        final(app)@ == campaigns_landed(old(app)@, result),
{
    app.load_error = None;
    app.campaigns.clear();
    match result {
        Ok(campaigns) => {
            app.campaigns = campaigns;
        },
        Err(msg) => {
            app.load_error = Some(msg);
        },
    }
}

/// The state once the outcome of storing a campaign has landed: the banner,
/// or `"Failed to create campaign: <why>"`.
pub open spec fn campaign_created_landed(v: SimulatorView, res: Result<(), String>) -> SimulatorView {
    match res {
        Ok(_) => SimulatorView { campaign_saved: Some(campaign_saved_msg()), load_error: None, ..v },
        Err(msg) => SimulatorView {
            campaign_saved: None,
            load_error: Some("Failed to create campaign: "@ + msg@),
            ..v
        },
    }
}

/// Lands the outcome of storing a campaign.
pub fn apply_campaign_created(app: &mut Simulator, result: Result<(), String>)
    ensures
        final(app)@ == campaign_created_landed(old(app)@, result),
{
    match result {
        Ok(()) => {
            app.load_error = None;
            app.campaign_saved = Some("Campaign created and saved to simulator database.".to_owned());
        },
        Err(msg) => {
            app.campaign_saved = None;
            app.load_error = Some(concat2("Failed to create campaign: ", msg.as_str()));
        },
    }
}

/// Loads the units of the core database into the state.
///
/// Only `units` and `load_error` change; a connection that could not be
/// opened leaves its error text and no units.
pub fn load_units_from_core_db(app: &mut Simulator, core_db: Result<rusqlite::Connection, String>)
    ensures
        final(app)@ == (SimulatorView {
            units: final(app)@.units,
            load_error: final(app)@.load_error,
            ..old(app)@
        }),
        (final(app)@.load_error is Some) ==> final(app)@.units.len() == 0,
        core_db matches Err(msg) ==> final(app)@.load_error == Some(msg@),
        final(app)@.load_error is None ==> exists|rows: Seq<Vec<SqlValue>>| answered(
            unit_select_all_sql(),
            seq![],
            6,
            rows,
        ) && #[trigger] units_of_rows(rows, final(app)@.units),
{
    let result = match core_db {
        Ok(conn) => match list_units(&conn) {
            Ok(units) => Ok(units),
            Err(e) => Err(e.message()),
        },
        Err(msg) => Err(msg),
    };
    apply_units_result(app, result);
}

/// The hex grid summary a row `id, name` holds.
pub open spec fn summary_of_row(row: Seq<SqlValue>) -> Option<HexGridSummary> {
    match (col_i64(row[0]), col_text(row[1])) {
        (Some(id), Some(name)) => Some(HexGridSummary { id, name }),
        _ => None,
    }
}

pub open spec fn summaries_of_rows(rows: Seq<Vec<SqlValue>>, out: Seq<HexGridSummary>) -> bool {
    &&& out.len() == rows.len()
    &&& forall|i: int| 0 <= i < rows.len() ==> summary_of_row(#[trigger] rows[i]@) == Some(out[i])
}

/// Reads hex grid summaries from rows `id, name`, in row order.
pub fn summaries_from_rows(rows: &Vec<Vec<SqlValue>>) -> (r: Result<
    Vec<HexGridSummary>,
    DataError,
>)
    requires
        forall|i: int| 0 <= i < rows@.len() ==> #[trigger] rows@[i]@.len() == 2,
    ensures
        match r {
            Ok(v) => summaries_of_rows(rows@, v@),
            Err(e) => e.kind == ErrorKind::Db && exists|i: int|
                0 <= i < rows@.len() && summary_of_row(#[trigger] rows@[i]@) is None,
        },
{
    let mut out: Vec<HexGridSummary> = Vec::new();
    let mut i: usize = 0;
    while i < rows.len()
        invariant
            i <= rows@.len(),
            forall|k: int| 0 <= k < rows@.len() ==> #[trigger] rows@[k]@.len() == 2,
            summaries_of_rows(rows@.subrange(0, i as int), out@),
        decreases rows@.len() - i,
    {
        let row = &rows[i];
        let id = match read_i64(&row[0]) {
            Some(v) => v,
            None => return Err(bad_row("hex_grids.id")),
        };
        let name = match read_text(&row[1]) {
            Some(v) => v,
            None => return Err(bad_row("hex_grids.name")),
        };
        out.push(HexGridSummary { id, name });
        i = i + 1;
        assert forall|k: int| 0 <= k < i implies summary_of_row(
            #[trigger] rows@.subrange(0, i as int)[k]@,
        ) == Some(out@[k]) by {
            if k < i - 1 {
                assert(rows@.subrange(0, i as int)[k] == rows@.subrange(0, i - 1)[k]);
            }
        }
    }
    assert(rows@.subrange(0, i as int) =~= rows@);
    Ok(out)
}

/// The text of the query that reads the id and name of every hex grid,
/// ordered by name.
pub open spec fn hex_grid_summaries_sql() -> Seq<char> {
    "SELECT id, name FROM hex_grids ORDER BY name ASC"@
}

/// The query that reads the id and name of every hex grid, ordered by name.
pub fn hex_grid_summaries_statement() -> (r: SqlStatement)
    ensures
        r.sql@ == "SELECT id, name FROM hex_grids ORDER BY name ASC"@,
        r.params@.len() == 0,
{
    SqlStatement { sql: "SELECT id, name FROM hex_grids ORDER BY name ASC", params: Vec::new() }
}

/// Lists the hex grids of the core database, ordered by name.
pub fn list_hex_grid_summaries(conn: &rusqlite::Connection) -> (r: Result<
    Vec<HexGridSummary>,
    DataError,
>)
    ensures
        r matches Ok(v) ==> exists|rows: Seq<Vec<SqlValue>>| #[trigger] summaries_of_rows(rows, v@),
        r matches Ok(v) ==> exists|rows: Seq<Vec<SqlValue>>| answered(hex_grid_summaries_sql(), seq![], 2, rows)
            && #[trigger] summaries_of_rows(rows, v@),
        fails_only_in_db(r),
{
    let st = hex_grid_summaries_statement();
    let found = fetch_all(conn, &st, 2);
    proof {
        if let Ok(rows) = &found {
            assert(st.params@ =~= seq![]);
            assert(answered(hex_grid_summaries_sql(), seq![], 2, rows@));
        }
    }
    match found {
        Ok(rows) => summaries_from_rows(&rows),
        Err(e) => Err(db_error(e)),
    }
}

/// Loads the hex grid maps of the core database into the state (for the
/// "Load Scenario" screen); the selection is cleared.
pub fn load_hex_grids_from_core_db(app: &mut Simulator, core_db: Result<rusqlite::Connection, String>)
    ensures
        final(app)@ == (SimulatorView {
            scenario_hex_grids: final(app)@.scenario_hex_grids,
            selected_scenario_hex_grid_id: None,
            load_error: final(app)@.load_error,
            ..old(app)@
        }),
        (final(app)@.load_error is Some) ==> final(app)@.scenario_hex_grids.len() == 0,
        core_db matches Err(msg) ==> final(app)@.load_error == Some(msg@),
        exists|res: Result<Vec<HexGridSummary>, String>| final(app)@ == #[trigger] hex_grids_landed(
            old(app)@,
            res,
        ),        final(app)@.load_error is None ==> exists|rows: Seq<Vec<SqlValue>>| answered(
            hex_grid_summaries_sql(),
            seq![],
            2,
            rows,
        ) && #[trigger] summaries_of_rows(rows, final(app)@.scenario_hex_grids),
{
    let result = match core_db {
        Ok(conn) => match list_hex_grid_summaries(&conn) {
            Ok(grids) => Ok(grids),
            Err(e) => Err(e.message()),
        },
        Err(msg) => Err(msg),
    };
    let ghost res = result;
    apply_hex_grids_result(app, result);
    assert(final(app)@ == hex_grids_landed(old(app)@, res));
}

/// `grid` is what the grid query for `hex_grid_id` gave, and `tiles` are
/// exactly what the tiles query for that grid gave, decoded row by row and
/// in the order of the rows (by `y`, then `x`).
pub open spec fn stored_scenario(hex_grid_id: i64, grid: HexGrid, tiles: Seq<HexTile>) -> bool {
    &&& exists|row: Vec<SqlValue>| first_answered(
        grid_query_sql(),
        seq![SqlParam::Integer(hex_grid_id)],
        4,
        Some(row),
    ) && #[trigger] grid_of_row(row@) == Some(grid)
    &&& grid.id matches Some(g) && exists|rows: Seq<Vec<SqlValue>>| answered(
        tiles_query_sql(),
        seq![SqlParam::Integer(g)],
        3,
        rows,
    ) && #[trigger] tiles_of_rows(rows, tiles)
}

/// Loads a grid and its tiles from the core database (both, or neither).
fn load_grid_and_tiles(conn: &rusqlite::Connection, hex_grid_id: i64) -> (r: Result<
    (HexGrid, Vec<HexTile>),
    DataError,
>)
    ensures
        r matches Ok((g, _)) ==> g.id is Some,
        r matches Ok((g, t)) ==> stored_scenario(hex_grid_id, g, t@),
        r matches Err(e) ==> (e.kind == ErrorKind::Db || is_error(
            e,
            ErrorKind::NotFound,
            "hex grid not found: id="@ + decimal_spec(hex_grid_id as int),
        )),
{
    let grid = HexGrid::load(conn, hex_grid_id)?;
    let tiles = grid.list_tiles(conn)?;
    Ok((grid, tiles))
}

/// Loads the selected hex grid and its tiles from the core database into
/// the state (for the "Scenario Test" view).
pub fn load_scenario_test_from_core_db(
    app: &mut Simulator,
    hex_grid_id: i64,
    core_db: Result<rusqlite::Connection, String>,
)
    ensures
        final(app)@ == (SimulatorView {
            scenario_test_hex_grid: final(app)@.scenario_test_hex_grid,
            scenario_test_tiles: final(app)@.scenario_test_tiles,
            load_error: final(app)@.load_error,
            ..old(app)@
        }),
        (final(app)@.load_error is Some) <==> (final(app)@.scenario_test_hex_grid is None),
        (final(app)@.load_error is Some) ==> final(app)@.scenario_test_tiles.len() == 0,
        core_db matches Err(msg) ==> final(app)@.load_error == Some(msg@),
        exists|res: Result<(HexGrid, Vec<HexTile>), String>| final(app)@ == #[trigger] scenario_landed(
            old(app)@,
            res,
        ),
        final(app)@.scenario_test_hex_grid matches Some(g) ==> g.id is Some,
        final(app)@.scenario_test_hex_grid matches Some(g) ==> stored_scenario(
            hex_grid_id,
            g,
            final(app)@.scenario_test_tiles,
        ),
{
    let result = match core_db {
        Ok(conn) => match load_grid_and_tiles(&conn, hex_grid_id) {
            Ok(pair) => Ok(pair),
            Err(e) => Err(e.message()),
        },
        Err(msg) => Err(msg),
    };
    assert(result matches Ok((g, t)) ==> stored_scenario(hex_grid_id, g, t@));
    let ghost res = result;
    apply_scenario_result(app, result);
    assert(final(app)@ == scenario_landed(old(app)@, res));
}

/// Lands the outcome of applying the simulator migrations: `true` when they
/// were applied; otherwise the error is recorded and the result is `false`.
pub fn ensure_simulator_db_ready(app: &mut Simulator, migrations: Result<(), String>) -> (r: bool)
    ensures
        r == (migrations is Ok),
        match migrations {
            Ok(_) => final(app)@ == old(app)@,
            Err(e) => final(app)@ == (SimulatorView {
                load_error: Some(migrations_failed_msg(e@)),
                ..old(app)@
            }),
        },
{
    match migrations {
        Ok(()) => true,
        Err(e) => {
            app.load_error = Some(concat2("Failed to apply simulator migrations: ", e.as_str()));
            false
        },
    }
}

/// Loads the stored campaigns of the simulator database into the state,
/// once its migrations are applied.
pub fn load_campaigns_from_simulator_db(
    app: &mut Simulator,
    migrations: Result<(), String>,
    simulator_db: Result<rusqlite::Connection, String>,
)
    ensures
        final(app)@ == (SimulatorView {
            campaigns: final(app)@.campaigns,
            load_error: final(app)@.load_error,
            ..old(app)@
        }),
        (final(app)@.load_error is Some) ==> final(app)@.campaigns.len() == 0,
        migrations matches Err(e) ==> final(app)@.load_error == Some(migrations_failed_msg(e@)),
        (migrations is Ok && simulator_db is Err) ==> final(app)@.load_error == opt_text(
            simulator_db.err(),
        ),
        migrations is Ok ==> exists|res: Result<Vec<CampaignSummary>, String>| final(app)@
            == #[trigger] campaigns_landed(old(app)@, res),        final(app)@.load_error is None ==> exists|rows: Seq<Vec<SqlValue>>| answered(
            campaigns_sql(),
            seq![],
            3,
            rows,
        ) && #[trigger] campaigns_of_rows(rows, final(app)@.campaigns),
{
    app.load_error = None;
    app.campaigns.clear();
    if !ensure_simulator_db_ready(app, migrations) {
        return;
    }
    let result = match simulator_db {
        Ok(conn) => match list_campaigns(&conn) {
            Ok(campaigns) => Ok(campaigns),
            Err(e) => Err(e.message()),
        },
        Err(msg) => Err(msg),
    };
    let ghost res = result;
    apply_campaigns_result(app, result);
    assert(final(app)@ == campaigns_landed(old(app)@, res));
}

/// Whether creating a campaign will touch the simulator database: only when
/// a hero is selected (otherwise the request is refused before any write).
pub fn campaign_needs_database(app: &Simulator) -> (r: bool)
    ensures
        r == (app.selected_hero is Some),
{
    app.selected_hero.is_some()
}

/// Stores a new campaign for the selected hero in the simulator database.
///
/// With no hero selected, the error `"No hero selected."` is recorded and
/// nothing is written.
pub fn create_campaign_from_selected_hero(
    app: &mut Simulator,
    migrations: Result<(), String>,
    simulator_db: Result<rusqlite::Connection, String>,
)
    ensures
        final(app)@ == (SimulatorView {
            campaign_saved: final(app)@.campaign_saved,
            load_error: final(app)@.load_error,
            ..old(app)@
        }),
        (final(app)@.campaign_saved is Some) ==> (final(app)@.campaign_saved == Some(
            campaign_saved_msg(),
        ) && (final(app)@.load_error is None)),
        (final(app)@.campaign_saved is None) ==> (final(app)@.load_error is Some),
        (old(app).selected_hero is None) ==> final(app)@.load_error == Some("No hero selected."@),
        (old(app).selected_hero is Some) ==> (migrations matches Err(e) ==> final(app)@.load_error
            == Some(migrations_failed_msg(e@))),
        (old(app).selected_hero is Some && migrations is Ok) ==> exists|res: Result<(), String>|
            final(app)@ == #[trigger] campaign_created_landed(old(app)@, res),
{
    app.load_error = None;
    app.campaign_saved = None;
    let hero_name = match &app.selected_hero {
        Some(name) => name.clone(),
        None => {
            app.load_error = Some("No hero selected.".to_owned());
            return;
        },
    };
    if !ensure_simulator_db_ready(app, migrations) {
        return;
    }
    let result = match simulator_db {
        Ok(conn) => match create_campaign(&conn, hero_name.as_str()) {
            Ok(()) => Ok(()),
            Err(e) => Err(e.message()),
        },
        Err(msg) => Err(msg),
    };
    let ghost res = result;
    apply_campaign_created(app, result);
    assert(final(app)@ == campaign_created_landed(old(app)@, res));
}

} // verus!
