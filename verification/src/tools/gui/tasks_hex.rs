//! The hex grid editor's database work.

use vstd::prelude::*;
use std::collections::BTreeSet;
use crate::cards::action::{card_id_statement, is_link_column};
use crate::db::{
    run, SqlStatement, begin_transaction, commit, db_error, fetch_all, fetch_first,
    last_insert_rowid, read_i32, read_i64, read_opt_i64, read_opt_text, read_text,
    transaction_connection, SqlParam,
};
use crate::num::{decimal_spec, i64_to_string};
use crate::shared::{error_text, concat2, concat3, is_error, DataError, ErrorKind};
use crate::text::{is_blank, is_blank_spec, trim};
use crate::tools::gui::effects::ToolsEffect;
use crate::tools::gui::lists::list_hex_grid_rows;
use crate::tools::gui::state::{ToolsGui, ToolsGuiView};
use crate::tools::gui::tasks::{conn_error, db_context, opened, status_only};
use crate::tools::gui::update::{chosen_count, hex_grid_form_spec, only_one_msg, selected};

verus! {

broadcast use vstd::laws_cmp::group_laws_cmp;

/// After "save hex grid": the form's problem, the failure to open the
/// database, any other failure, or the saved grid's id.
pub open spec fn save_grid_task_spec(
    pre: ToolsGuiView,
    conn_err: Option<Seq<char>>,
    post: ToolsGuiView,
    eff: ToolsEffect,
) -> bool {
    match hex_grid_form_spec(pre) {
        Err(m) => post == pre.with_status(m) && eff == ToolsEffect::Nothing,
        Ok(_) => match conn_err {
            Some(s) => post == pre.with_status(s) && eff == ToolsEffect::Nothing,
            None => (status_only(pre, post) && eff == ToolsEffect::Nothing) || (
            post.hex_grid_id is Some && post == (ToolsGuiView {
                hex_grid_id: post.hex_grid_id,
                ..pre
            }).with_status(
                "Hex grid saved (id="@ + decimal_spec(post.hex_grid_id.unwrap() as int) + ")"@,
            ) && eff == ToolsEffect::RefreshHexGrids),
        },
    }
}

/// After "load hex grid `id`": the failure, or the grid loaded into the
/// editor with no tile selected; every tile with data is a present tile.
pub open spec fn load_grid_task_spec(
    pre: ToolsGuiView,
    id: i64,
    conn_err: Option<Seq<char>>,
    post: ToolsGuiView,
) -> bool {
    match conn_err {
        Some(s) => post == pre.with_status(s),
        None => status_only(pre, post) || (post == (ToolsGuiView {
            hex_grid_id: Some(id),
            hex_grid_name: post.hex_grid_name,
            hex_grid_width: post.hex_grid_width,
            hex_grid_height: post.hex_grid_height,
            hex_grid_tiles_present: post.hex_grid_tiles_present,
            hex_grid_tiles_with_data: post.hex_grid_tiles_with_data,
            ..pre.selection_cleared()
        }) && post.hex_grid_tiles_with_data.subset_of(post.hex_grid_tiles_present)),
    }
}

/// The editor after its checks of "save tile associations", and the
/// message that stops it, if one does.
pub open spec fn tile_checks(pre: ToolsGuiView) -> (ToolsGuiView, Option<Seq<char>>) {
    match pre.hex_grid_id {
        None => (pre, Some("Save the hex grid first (no grid id yet)"@)),
        Some(_) => match selected(pre) {
            None => (pre, Some("Select a tile first"@)),
            Some(c) => {
                let ins = ToolsGuiView {
                    hex_grid_tiles_present: pre.hex_grid_tiles_present.insert(c),
                    ..pre
                };
                if chosen_count(pre) > 1 {
                    (ins, Some(only_one_msg()))
                } else {
                    (ins, None)
                }
            },
        },
    }
}

/// How many associations a tile holds.
pub open spec fn assoc_count(u: Option<i64>, i: Option<i64>, l: Option<i64>, t: Seq<char>) -> int {
    (if u is Some { 1int } else { 0int }) + (if i is Some { 1int } else { 0int }) + (if l is Some {
        1int
    } else {
        0int
    }) + (if is_blank_spec(t) { 0int } else { 1int })
}

/// The stored associations of the selected tile: at most one, an id only
/// for a filled-in name, and the tile marked as holding data exactly when
/// it holds one.
pub open spec fn tile_saved(mid: ToolsGuiView, post: ToolsGuiView) -> bool {
    let c = selected(mid).unwrap();
    let has = assoc_count(
        post.hex_tile_unit_id,
        post.hex_tile_item_id,
        post.hex_tile_level_id,
        mid.hex_tile_type,
    ) > 0;
    &&& post == (ToolsGuiView {
        hex_tile_unit_id: post.hex_tile_unit_id,
        hex_tile_item_id: post.hex_tile_item_id,
        hex_tile_level_id: post.hex_tile_level_id,
        hex_grid_tiles_with_data: if has {
            mid.hex_grid_tiles_with_data.insert(c)
        } else {
            mid.hex_grid_tiles_with_data.remove(c)
        },
        ..mid
    }).with_status("Hex tile associations saved"@)
    &&& assoc_count(
        post.hex_tile_unit_id,
        post.hex_tile_item_id,
        post.hex_tile_level_id,
        mid.hex_tile_type,
    ) <= 1
    &&& post.hex_tile_unit_id is Some ==> !is_blank_spec(mid.hex_tile_unit_query)
    &&& post.hex_tile_item_id is Some ==> !is_blank_spec(mid.hex_tile_item_query)
    &&& post.hex_tile_level_id is Some ==> !is_blank_spec(mid.hex_tile_level_query)
}

/// After "save tile associations".
pub open spec fn save_tile_task_spec(
    pre: ToolsGuiView,
    conn_err: Option<Seq<char>>,
    post: ToolsGuiView,
) -> bool {
    let (mid, stop) = tile_checks(pre);
    match stop {
        Some(m) => post == mid.with_status(m),
        None => match conn_err {
            Some(s) => post == mid.with_status(s),
            None => status_only(mid, post) || tile_saved(mid, post),
        },
    }
}

/// After loading the stored associations of a clicked tile: unchanged, or
/// the tile buffers showing the stored ids and type.
pub open spec fn load_tile_task_spec(pre: ToolsGuiView, post: ToolsGuiView) -> bool {
    post == pre || post == (ToolsGuiView {
        hex_tile_unit_id: post.hex_tile_unit_id,
        hex_tile_item_id: post.hex_tile_item_id,
        hex_tile_level_id: post.hex_tile_level_id,
        hex_tile_type: post.hex_tile_type,
        ..pre.tile_buffers_cleared()
    })
}

/// The id of the card, by the trimmed name `q`, that link column `fk_col`
/// refers to (the query of `card_id_statement`); none for a blank name, no
/// row, or a failed query.
fn lookup_id(c: &rusqlite::Connection, fk_col: &str, q: &str) -> (r: Option<i64>)
    requires
        is_link_column(fk_col@),
    ensures
        is_blank_spec(q@) ==> r is None,
{
    let t = trim(q);
    if t.is_empty() {
        return None;
    }
    let st = card_id_statement(fk_col, t);
    match fetch_first(c, &st, 1) {
        Ok(Some(row)) => read_i64(&row[0]),
        _ => None,
    }
}

/// The query that reads the id of the stored grid called `name`.
pub fn grid_id_by_name_statement(name: &str) -> (r: SqlStatement)
    ensures
        r.sql@ == "SELECT id FROM hex_grids WHERE name = ?1"@,
        r.params@.len() == 1,
        r.params@[0] matches SqlParam::Text(t) && t@ == name@,
{
    SqlStatement {
        sql: "SELECT id FROM hex_grids WHERE name = ?1",
        params: vec![SqlParam::Text(name.to_owned())],
    }
}

/// The query that reads the associations and type of tile `(x, y)` of grid
/// `grid_id`.
pub fn tile_associations_select_statement(grid_id: i64, x: i32, y: i32) -> (r: SqlStatement)
    ensures
        r.sql@ == "SELECT unit_id, item_id, level_id, type FROM hex_tiles WHERE hex_grid_id = ?1 AND x = ?2 AND y = ?3"@,
        r.params@ == seq![SqlParam::Integer(grid_id), SqlParam::Integer(x as i64), SqlParam::Integer(y as i64)],
{
    SqlStatement {
        sql: "SELECT unit_id, item_id, level_id, type FROM hex_tiles WHERE hex_grid_id = ?1 AND x = ?2 AND y = ?3",
        params: vec![SqlParam::Integer(grid_id), SqlParam::Integer(x as i64), SqlParam::Integer(y as i64)],
    }
}

/// The query that reads the name, width and height of grid `id`.
pub fn grid_form_select_statement(id: i64) -> (r: SqlStatement)
    ensures
        r.sql@ == "SELECT name, width, height FROM hex_grids WHERE id = ?1"@,
        r.params@ == seq![SqlParam::Integer(id)],
{
    SqlStatement {
        sql: "SELECT name, width, height FROM hex_grids WHERE id = ?1",
        params: vec![SqlParam::Integer(id)],
    }
}

/// The query that reads every stored tile of grid `id` with its
/// associations and type.
pub fn grid_tiles_select_statement(id: i64) -> (r: SqlStatement)
    ensures
        r.sql@ == "SELECT x, y, unit_id, item_id, level_id, type FROM hex_tiles WHERE hex_grid_id = ?1"@,
        r.params@ == seq![SqlParam::Integer(id)],
{
    SqlStatement {
        sql: "SELECT x, y, unit_id, item_id, level_id, type FROM hex_tiles WHERE hex_grid_id = ?1",
        params: vec![SqlParam::Integer(id)],
    }
}

/// Which grid row a save writes.
#[derive(Debug, Clone, Copy, PartialEq, Eq, Structural)]
pub enum GridWrite {
    /// Update the row the editor was loaded from (name, width, height).
    UpdateEditorGrid(i64),
    /// Update the size of the stored grid that has the same name.
    UpdateSameName(i64),
    /// Insert a new grid row.
    Insert,
}

/// Decides which grid row a save writes: the editor's grid if it has one,
/// else the stored grid with the same name, else a new row.
pub fn grid_write(editor_id: Option<i64>, same_name_id: Option<i64>) -> (r: GridWrite)
    ensures
        r == (match (editor_id, same_name_id) {
            (Some(id), _) => GridWrite::UpdateEditorGrid(id),
            (None, Some(id)) => GridWrite::UpdateSameName(id),
            (None, None) => GridWrite::Insert,
        }),
{
    match editor_id {
        Some(id) => GridWrite::UpdateEditorGrid(id),
        None => match same_name_id {
            Some(id) => GridWrite::UpdateSameName(id),
            None => GridWrite::Insert,
        },
    }
}

/// Whether `c` lies in a `width x height` grid.
pub open spec fn tile_in_bounds(c: (i32, i32), width: i32, height: i32) -> bool {
    0 <= c.0 && 0 <= c.1 && c.0 < width && c.1 < height
}

/// The tile rows a save writes for the editor's present tiles: every
/// in-bounds present tile is stored, and every in-bounds space without a
/// tile is cleared (row by row).
pub fn tile_plan(present: &BTreeSet<(i32, i32)>, width: i32, height: i32) -> (r: (
    Vec<(i32, i32)>,
    Vec<(i32, i32)>,
))
    ensures
        forall|c: (i32, i32)| #[trigger] r.0@.contains(c) <==> (tile_in_bounds(c, width, height)
            && present@.contains(c)),
        forall|c: (i32, i32)| #[trigger] r.1@.contains(c) <==> (tile_in_bounds(c, width, height)
            && !present@.contains(c)),
{
    let mut store: Vec<(i32, i32)> = Vec::new();
    let mut clear: Vec<(i32, i32)> = Vec::new();
    let mut y: i32 = 0;
    while y < height
        invariant
            0 <= y,
            height <= 0 ==> y == 0,
            height > 0 ==> y <= height,
            forall|c: (i32, i32)| #[trigger] store@.contains(c) <==> (tile_in_bounds(c, width, height)
                && c.1 < y && present@.contains(c)),
            forall|c: (i32, i32)| #[trigger] clear@.contains(c) <==> (tile_in_bounds(c, width, height)
                && c.1 < y && !present@.contains(c)),
        decreases height - y,
    {
        let mut x: i32 = 0;
        while x < width
            invariant
                0 <= y < height,
                0 <= x,
                width <= 0 ==> x == 0,
                width > 0 ==> x <= width,
                forall|c: (i32, i32)| #[trigger] store@.contains(c) <==> (tile_in_bounds(
                    c,
                    width,
                    height,
                ) && (c.1 < y || (c.1 == y && c.0 < x)) && present@.contains(c)),
                forall|c: (i32, i32)| #[trigger] clear@.contains(c) <==> (tile_in_bounds(
                    c,
                    width,
                    height,
                ) && (c.1 < y || (c.1 == y && c.0 < x)) && !present@.contains(c)),
            decreases width - x,
        {
            let ghost s0 = store@;
            let ghost c0 = clear@;
            let here = present.contains(&(x, y));
            if here {
                store.push((x, y));
            } else {
                clear.push((x, y));
            }
            proof {
                assert forall|c: (i32, i32)| #[trigger] store@.contains(c) <==> (s0.contains(c) || (here
                    && c == (x, y))) by {
                    if here {
                        if s0.contains(c) {
                            let k = choose|k: int| 0 <= k < s0.len() && s0[k] == c;
                            assert(store@[k] == c);
                        }
                        if c == (x, y) {
                            assert(store@[s0.len() as int] == c);
                        }
                        if store@.contains(c) {
                            let k = choose|k: int| 0 <= k < store@.len() && store@[k] == c;
                            if k < s0.len() {
                                assert(s0[k] == c);
                            }
                        }
                    }
                }
                assert forall|c: (i32, i32)| #[trigger] clear@.contains(c) <==> (c0.contains(c) || (!here
                    && c == (x, y))) by {
                    if !here {
                        if c0.contains(c) {
                            let k = choose|k: int| 0 <= k < c0.len() && c0[k] == c;
                            assert(clear@[k] == c);
                        }
                        if c == (x, y) {
                            assert(clear@[c0.len() as int] == c);
                        }
                        if clear@.contains(c) {
                            let k = choose|k: int| 0 <= k < clear@.len() && clear@[k] == c;
                            if k < c0.len() {
                                assert(c0[k] == c);
                            }
                        }
                    }
                }
            }
            x = x + 1;
        }
        y = y + 1;
    }
    (store, clear)
}

/// `st` is the statement that writes the grid row `w` chose for a grid
/// called `name` of size `width x height`.
pub open spec fn is_grid_write_statement(st: SqlStatement, w: GridWrite, name: Seq<char>, width: i32, height: i32) -> bool {
    match w {
        GridWrite::UpdateEditorGrid(id) => {
            &&& st.sql@ == "UPDATE hex_grids SET name = ?1, width = ?2, height = ?3, updated_at = (strftime('%Y-%m-%dT%H:%M:%fZ', 'now')) WHERE id = ?4"@
            &&& st.params@.len() == 4
            &&& st.params@[0] matches SqlParam::Text(t) && t@ == name
            &&& st.params@[1] == SqlParam::Integer(width as i64)
            &&& st.params@[2] == SqlParam::Integer(height as i64)
            &&& st.params@[3] == SqlParam::Integer(id)
        },
        GridWrite::UpdateSameName(id) => {
            &&& st.sql@ == "UPDATE hex_grids SET width = ?1, height = ?2, updated_at = (strftime('%Y-%m-%dT%H:%M:%fZ', 'now')) WHERE id = ?3"@
            &&& st.params@ == seq![
                SqlParam::Integer(width as i64),
                SqlParam::Integer(height as i64),
                SqlParam::Integer(id),
            ]
        },
        GridWrite::Insert => {
            &&& st.sql@ == "INSERT INTO hex_grids (name, width, height) VALUES (?1, ?2, ?3)"@
            &&& st.params@.len() == 3
            &&& st.params@[0] matches SqlParam::Text(t) && t@ == name
            &&& st.params@[1] == SqlParam::Integer(width as i64)
            &&& st.params@[2] == SqlParam::Integer(height as i64)
        },
    }
}

/// The statement that writes the grid row a save chose (`grid_write`): the
/// editor's grid gets the name and size, the grid with the same name gets
/// the size, and otherwise a new row is inserted.
pub fn grid_write_statement(w: GridWrite, name: &str, width: i32, height: i32) -> (r: SqlStatement)
    ensures
        is_grid_write_statement(r, w, name@, width, height),
{
    match w {
        GridWrite::UpdateEditorGrid(id) => SqlStatement {
            sql: "UPDATE hex_grids SET name = ?1, width = ?2, height = ?3, updated_at = (strftime('%Y-%m-%dT%H:%M:%fZ', 'now')) WHERE id = ?4",
            params: vec![
                SqlParam::Text(name.to_owned()),
                SqlParam::Integer(width as i64),
                SqlParam::Integer(height as i64),
                SqlParam::Integer(id),
            ],
        },
        GridWrite::UpdateSameName(id) => SqlStatement {
            sql: "UPDATE hex_grids SET width = ?1, height = ?2, updated_at = (strftime('%Y-%m-%dT%H:%M:%fZ', 'now')) WHERE id = ?3",
            params: vec![
                SqlParam::Integer(width as i64),
                SqlParam::Integer(height as i64),
                SqlParam::Integer(id),
            ],
        },
        GridWrite::Insert => SqlStatement {
            sql: "INSERT INTO hex_grids (name, width, height) VALUES (?1, ?2, ?3)",
            params: vec![
                SqlParam::Text(name.to_owned()),
                SqlParam::Integer(width as i64),
                SqlParam::Integer(height as i64),
            ],
        },
    }
}

/// `st` is the statement that removes the tiles of grid `grid_id` that lie
/// outside a `width x height` grid.
pub open spec fn is_out_of_bounds_statement(st: SqlStatement, grid_id: i64, width: i32, height: i32) -> bool {
    &&& st.sql@ == "DELETE FROM hex_tiles WHERE hex_grid_id = ?1 AND (x < 0 OR y < 0 OR x >= ?2 OR y >= ?3)"@
    &&& st.params@ == seq![
        SqlParam::Integer(grid_id),
        SqlParam::Integer(width as i64),
        SqlParam::Integer(height as i64),
    ]
}

/// The statement that deletes the stored tiles of grid `grid_id` that lie
/// outside `width x height`.
pub fn out_of_bounds_statement(grid_id: i64, width: i32, height: i32) -> (r: SqlStatement)
    ensures
        is_out_of_bounds_statement(r, grid_id, width, height),
{
    SqlStatement {
        sql: "DELETE FROM hex_tiles WHERE hex_grid_id = ?1 AND (x < 0 OR y < 0 OR x >= ?2 OR y >= ?3)",
        params: vec![
            SqlParam::Integer(grid_id),
            SqlParam::Integer(width as i64),
            SqlParam::Integer(height as i64),
        ],
    }
}

/// The statement that stores tile `c` of grid `grid_id` (an upsert that
/// keeps the tile's associations).
pub open spec fn is_tile_store(st: SqlStatement, grid_id: i64, c: (i32, i32)) -> bool {
    &&& st.sql@ == "INSERT INTO hex_tiles (hex_grid_id, x, y) VALUES (?1, ?2, ?3) ON CONFLICT(hex_grid_id, x, y) DO UPDATE SET updated_at = (strftime('%Y-%m-%dT%H:%M:%fZ', 'now'))"@
    &&& st.params@ == seq![SqlParam::Integer(grid_id), SqlParam::Integer(c.0 as i64), SqlParam::Integer(c.1 as i64)]
}

/// The statement that empties tile space `c` of grid `grid_id`.
pub open spec fn is_tile_clear(st: SqlStatement, grid_id: i64, c: (i32, i32)) -> bool {
    &&& st.sql@ == "DELETE FROM hex_tiles WHERE hex_grid_id = ?1 AND x = ?2 AND y = ?3"@
    &&& st.params@ == seq![SqlParam::Integer(grid_id), SqlParam::Integer(c.0 as i64), SqlParam::Integer(c.1 as i64)]
}

/// Builds the statement that stores tile `c` of grid `grid_id`.
pub fn tile_store_statement(grid_id: i64, c: (i32, i32)) -> (r: SqlStatement)
    ensures
        is_tile_store(r, grid_id, c),
{
    SqlStatement {
        sql: "INSERT INTO hex_tiles (hex_grid_id, x, y) VALUES (?1, ?2, ?3) ON CONFLICT(hex_grid_id, x, y) DO UPDATE SET updated_at = (strftime('%Y-%m-%dT%H:%M:%fZ', 'now'))",
        params: vec![
            SqlParam::Integer(grid_id),
            SqlParam::Integer(c.0 as i64),
            SqlParam::Integer(c.1 as i64),
        ],
    }
}

/// Builds the statement that empties tile space `c` of grid `grid_id`.
pub fn tile_clear_statement(grid_id: i64, c: (i32, i32)) -> (r: SqlStatement)
    ensures
        is_tile_clear(r, grid_id, c),
{
    SqlStatement {
        sql: "DELETE FROM hex_tiles WHERE hex_grid_id = ?1 AND x = ?2 AND y = ?3",
        params: vec![
            SqlParam::Integer(grid_id),
            SqlParam::Integer(c.0 as i64),
            SqlParam::Integer(c.1 as i64),
        ],
    }
}

/// The statements a save runs for its tile plan: one store for each tile
/// of `store`, then one clear for each space of `clear`, in order.
pub fn tile_statements(grid_id: i64, store: &Vec<(i32, i32)>, clear: &Vec<(i32, i32)>) -> (r: Vec<SqlStatement>)
    ensures
        r@.len() == store@.len() + clear@.len(),
        forall|i: int| 0 <= i < store@.len() ==> is_tile_store(#[trigger] r@[i], grid_id, store@[i]),
        forall|j: int| 0 <= j < clear@.len() ==> is_tile_clear(#[trigger] r@[store@.len() + j], grid_id, clear@[j]),
{
    let mut out: Vec<SqlStatement> = Vec::new();
    let mut i: usize = 0;
    while i < store.len()
        invariant
            i <= store@.len(),
            out@.len() == i,
            forall|k: int| 0 <= k < i ==> is_tile_store(#[trigger] out@[k], grid_id, store@[k]),
        decreases store@.len() - i,
    {
        out.push(tile_store_statement(grid_id, store[i]));
        i = i + 1;
    }
    let mut j: usize = 0;
    while j < clear.len()
        invariant
            j <= clear@.len(),
            out@.len() == store@.len() + j,
            forall|k: int| 0 <= k < store@.len() ==> is_tile_store(#[trigger] out@[k], grid_id, store@[k]),
            forall|k: int| 0 <= k < j ==> is_tile_clear(#[trigger] out@[store@.len() + k], grid_id, clear@[k]),
        decreases clear@.len() - j,
    {
        out.push(tile_clear_statement(grid_id, clear[j]));
        j = j + 1;
    }
    out
}

/// `st` is the statement that makes tile space `c` of grid `grid_id` match
/// the editor: a store where the editor has a tile, a clear where it has
/// none.
pub open spec fn syncs_tile(st: SqlStatement, grid_id: i64, present: Set<(i32, i32)>, c: (i32, i32)) -> bool {
    if present.contains(c) {
        is_tile_store(st, grid_id, c)
    } else {
        is_tile_clear(st, grid_id, c)
    }
}

/// `st` makes some in-bounds space of a `width x height` grid match
/// `present`.
pub open spec fn syncs_some_tile(st: SqlStatement, grid_id: i64, present: Set<(i32, i32)>, width: i32, height: i32) -> bool {
    exists|c: (i32, i32)| tile_in_bounds(c, width, height) && #[trigger] syncs_tile(st, grid_id, present, c)
}

/// `stmts` make the stored tiles of grid `grid_id` match `present` in a
/// `width x height` grid: each makes some in-bounds space match, and every
/// in-bounds space has one that does.
pub open spec fn syncs_tiles(
    stmts: Seq<SqlStatement>,
    grid_id: i64,
    present: Set<(i32, i32)>,
    width: i32,
    height: i32,
) -> bool {
    &&& forall|k: int| 0 <= k < stmts.len() ==> syncs_some_tile(#[trigger] stmts[k], grid_id, present, width, height)
    &&& forall|c: (i32, i32)| tile_in_bounds(c, width, height) ==> exists|k: int| 0 <= k < stmts.len()
        && #[trigger] syncs_tile(stmts[k], grid_id, present, c)
}

/// The tile statements a save runs after its grid row is written: for
/// every in-bounds space of a `width x height` grid, the statement that
/// makes it match `present` (a store or a clear), and nothing else. They are
/// the statements of `tile_plan`, stores first (see `tile_statements`).
pub fn tile_sync_statements(present: &BTreeSet<(i32, i32)>, grid_id: i64, width: i32, height: i32) -> (r: Vec<
    SqlStatement,
>)
    ensures
        syncs_tiles(r@, grid_id, present@, width, height),
{
    let (store, clear) = tile_plan(present, width, height);
    let r = tile_statements(grid_id, &store, &clear);
    proof {
        assert forall|k: int| 0 <= k < r@.len() implies syncs_some_tile(#[trigger] r@[k], grid_id, present@, width, height) by {
            if k < store@.len() {
                let c = store@[k];
                assert(store@.contains(c));
                assert(tile_in_bounds(c, width, height));
                assert(syncs_tile(r@[k], grid_id, present@, c));
            } else {
                let j = k - store@.len();
                let c = clear@[j];
                assert(clear@.contains(c));
                assert(tile_in_bounds(c, width, height));
                assert(r@[store@.len() + j] == r@[k]);
                assert(syncs_tile(r@[k], grid_id, present@, c));
            }
        }
        assert forall|c: (i32, i32)| tile_in_bounds(c, width, height) implies exists|k: int| 0 <= k < r@.len()
            && #[trigger] syncs_tile(r@[k], grid_id, present@, c) by {
            if present@.contains(c) {
                assert(store@.contains(c));
                let i = choose|i: int| 0 <= i < store@.len() && store@[i] == c;
                assert(syncs_tile(r@[i], grid_id, present@, c));
            } else {
                assert(clear@.contains(c));
                let j = choose|j: int| 0 <= j < clear@.len() && clear@[j] == c;
                assert(syncs_tile(r@[store@.len() + j], grid_id, present@, c));
            }
        }
    }
    r
}

/// The context of a failed tile statement: `"Upsert hex tile (x,y)"` or
/// `"Delete empty hex tile (x,y)"`.
fn tile_failure_context(st: &SqlStatement) -> (r: String) {
    let x = match st.params.get(1) {
        Some(SqlParam::Integer(v)) => *v,
        _ => 0,
    };
    let y = match st.params.get(2) {
        Some(SqlParam::Integer(v)) => *v,
        _ => 0,
    };
    let xs = i64_to_string(x);
    let ys = i64_to_string(y);
    let at = concat3(concat3("(", xs.as_str(), ",").as_str(), ys.as_str(), ")");
    if crate::text::str_eq(st.sql, "DELETE FROM hex_tiles WHERE hex_grid_id = ?1 AND x = ?2 AND y = ?3") {
        concat2("Delete empty hex tile ", at.as_str())
    } else {
        concat2("Upsert hex tile ", at.as_str())
    }
}

/// Runs `stmts` in order, stopping at the first failure; on success, every
/// statement ran once and their number is returned.
pub fn run_tile_statements(c: &rusqlite::Connection, stmts: &Vec<SqlStatement>) -> (r: Result<usize, DataError>)
    ensures
        r matches Ok(n) ==> n == stmts@.len(),
        r matches Err(e) ==> e.kind == ErrorKind::Db,
{
    let mut k: usize = 0;
    while k < stmts.len()
        invariant
            k <= stmts@.len(),
        decreases stmts@.len() - k,
    {
        if let Err(e) = run(c, &stmts[k]) {
            let ctx = tile_failure_context(&stmts[k]);
            return Err(db_context(ctx.as_str(), e));
        }
        k = k + 1;
    }
    Ok(k)
}

impl ToolsGui {
    /// The grid-row write a save of the editor's grid runs, given the id of
    /// the stored grid with the same name (`same_name_id`, looked up only
    /// when the editor has no grid id): the choice of `grid_write` and its
    /// statement, for the name and size the form holds.
    pub fn hex_grid_write_plan(&self, same_name_id: Option<i64>) -> (r: Result<(GridWrite, SqlStatement), DataError>)
        ensures
            match hex_grid_form_spec(self@) {
                Err(m) => r matches Err(e) && is_error(e, ErrorKind::Invalid, m),
                Ok((name, w, h)) => r matches Ok((gw, st)) && gw == (match (self@.hex_grid_id, same_name_id) {
                    (Some(id), _) => GridWrite::UpdateEditorGrid(id),
                    (None, Some(id)) => GridWrite::UpdateSameName(id),
                    (None, None) => GridWrite::Insert,
                }) && is_grid_write_statement(st, gw, name, w, h),
            },
    {
        let (name, width, height) = self.hex_grid_form()?;
        let w = grid_write(self.hex_grid_id, same_name_id);
        let st = grid_write_statement(w, name.as_str(), width, height);
        Ok((w, st))
    }

    /// The tile statements a save of the editor's grid runs once its row is
    /// `grid_id`: the removal of the tiles outside the grid, then the
    /// statements that make every in-bounds space match the editor's
    /// present tiles, for the size the form holds.
    pub fn hex_grid_tile_plan(&self, grid_id: i64) -> (r: Result<(SqlStatement, Vec<SqlStatement>), DataError>)
        ensures
            match hex_grid_form_spec(self@) {
                Err(m) => r matches Err(e) && is_error(e, ErrorKind::Invalid, m),
                Ok((_, w, h)) => r matches Ok((oob, sync)) && is_out_of_bounds_statement(oob, grid_id, w, h)
                    && syncs_tiles(sync@, grid_id, self@.hex_grid_tiles_present, w, h),
            },
    {
        let (_, width, height) = self.hex_grid_form()?;
        let oob = out_of_bounds_statement(grid_id, width, height);
        let sync = tile_sync_statements(&self.hex_grid_tiles_present, grid_id, width, height);
        Ok((oob, sync))
    }

    /// Stores the editor's grid, in one transaction: looks up the grid with
    /// the same name when the editor has no grid id
    /// (`grid_id_by_name_statement`), runs the grid-row write of
    /// `hex_grid_write_plan` (update of the editor's grid, of the grid with
    /// the same name, or insert), then the statements of
    /// `hex_grid_tile_plan` for the resulting grid id, which remove the tiles
    /// outside the grid and make the stored tiles match the editor's present
    /// tiles.
    #[verifier::loop_isolation(false)]
    pub fn save_hex_grid_from_editor_state(&mut self, conn: Result<rusqlite::Connection, String>) -> (r:
        Result<(), DataError>)
        ensures
            match hex_grid_form_spec(old(self)@) {
                Err(m) => (r matches Err(e) && is_error(e, ErrorKind::Invalid, m)) && final(self)@
                    == old(self)@,
                Ok(_) => match conn_error(conn) {
                    Some(s) => (r matches Err(e) && error_text(e) == s) && final(self)@ == old(self)@,
                    None => match r {
                        Ok(()) => final(self)@.hex_grid_id is Some && (old(self)@.hex_grid_id matches Some(
                            id,
                        ) ==> final(self)@.hex_grid_id == Some(id)) && final(self)@ == (ToolsGuiView {
                            hex_grid_id: final(self)@.hex_grid_id,
                            ..old(self)@
                        }),
                        Err(_) => final(self)@ == old(self)@,
                    },
                },
            },
    {
        let (name, _, _) = self.hex_grid_form()?;
        let mut conn = opened(conn)?;
        let tx = match begin_transaction(&mut conn) {
            Ok(tx) => tx,
            Err(e) => return Err(db_error(e)),
        };
        let grid_id: i64 = {
            let c = transaction_connection(&tx);
            let same_name_id = match self.hex_grid_id {
                Some(_) => None,
                None => {
                    let lookup = grid_id_by_name_statement(name.as_str());
                    match fetch_first(c, &lookup, 1) {
                        Ok(Some(row)) => match read_i64(&row[0]) {
                            Some(v) => Some(v),
                            None => return Err(crate::db::bad_row("hex_grids.id")),
                        },
                        Ok(None) => None,
                        Err(e) => {
                            return Err(
                                db_context(
                                    "Lookup hex_grids id by name (requires migration 0009)",
                                    e,
                                ),
                            )
                        },
                    }
                },
            };
            let (w, st) = self.hex_grid_write_plan(same_name_id)?;
            if let Err(e) = run(c, &st) {
                return Err(
                    match w {
                        GridWrite::UpdateEditorGrid(id) | GridWrite::UpdateSameName(id) => {
                            let ids = i64_to_string(id);
                            let ctx = concat2("Update hex_grids by id=", ids.as_str());
                            db_context(ctx.as_str(), e)
                        },
                        GridWrite::Insert => db_context("Insert hex_grids row (requires migration 0009)", e),
                    },
                );
            }
            match w {
                GridWrite::UpdateEditorGrid(id) => id,
                GridWrite::UpdateSameName(id) => id,
                GridWrite::Insert => last_insert_rowid(c),
            }
        };
        assert(old(self)@.hex_grid_id matches Some(id) ==> grid_id == id);
        {
            let c = transaction_connection(&tx);
            let (oob, stmts) = self.hex_grid_tile_plan(grid_id)?;
            if let Err(e) = run(c, &oob) {
                return Err(db_context("Delete out-of-bounds hex tiles", e));
            }
            run_tile_statements(c, &stmts)?;
        }
        if let Err(e) = commit(tx) {
            return Err(db_error(e));
        }
        self.hex_grid_id = Some(grid_id);
        Ok(())
    }

    /// "Save hex grid", once the database is open (or failed to open).
    pub fn task_save_hex_grid(&mut self, conn: Result<rusqlite::Connection, String>) -> (eff: ToolsEffect)
        ensures
            save_grid_task_spec(old(self)@, conn_error(conn), final(self)@, eff),
    {
        match self.save_hex_grid_from_editor_state(conn) {
            Err(e) => {
                self.status = Some(e.text());
                ToolsEffect::Nothing
            },
            Ok(()) => {
                let msg = match self.hex_grid_id {
                    Some(id) => {
                        let ids = i64_to_string(id);
                        concat3("Hex grid saved (id=", ids.as_str(), ")")
                    },
                    None => "Hex grid saved".to_owned(),
                };
                self.status = Some(msg);
                ToolsEffect::RefreshHexGrids
            },
        }
    }

    /// Reloads the list of stored grids.
    pub fn task_refresh_hex_grids(&mut self, conn: Result<rusqlite::Connection, String>)
        ensures
            match conn_error(conn) {
                Some(s) => final(self)@ == old(self)@.with_status(s),
                None => status_only(old(self)@, final(self)@) || final(self)@ == (ToolsGuiView {
                    hex_grids: final(self)@.hex_grids,
                    ..old(self)@
                }),
            },
    {
        let conn = match opened(conn) {
            Ok(c) => c,
            Err(e) => {
                self.status = Some(e.text());
                return;
            },
        };
        match list_hex_grid_rows(&conn) {
            Ok(rows) => self.hex_grids = rows,
            Err(e) => self.status = Some(e.text()),
        }
    }

    /// Loads grid `id` and its tiles into the editor.
    pub fn task_load_hex_grid(&mut self, id: i64, conn: Result<rusqlite::Connection, String>)
        ensures
            load_grid_task_spec(old(self)@, id, conn_error(conn), final(self)@),
    {
        let conn = match opened(conn) {
            Ok(c) => c,
            Err(e) => {
                self.status = Some(e.text());
                return;
            },
        };
        match load_grid(&conn, id) {
            Err(e) => self.status = Some(e.text()),
            Ok((name, width, height, present, with_data)) => {
                self.hex_grid_id = Some(id);
                self.hex_grid_name = name;
                self.hex_grid_width = i64_to_string(width as i64);
                self.hex_grid_height = i64_to_string(height as i64);
                self.hex_grid_tiles_present = present;
                self.hex_grid_tiles_with_data = with_data;
                self.clear_selection();
            },
        }
    }

    /// Deletes grid `id` (its tiles go with it).
    pub fn task_delete_hex_grid(&mut self, id: i64, conn: Result<rusqlite::Connection, String>) -> (eff:
        ToolsEffect)
        ensures
            match conn_error(conn) {
                Some(s) => final(self)@ == old(self)@.with_status(s) && eff == ToolsEffect::Nothing,
                None => (status_only(old(self)@, final(self)@) && eff == ToolsEffect::Nothing) || (
                final(self)@ == (ToolsGuiView {
                    hex_grid_id: if old(self)@.hex_grid_id == Some(id) {
                        None
                    } else {
                        old(self)@.hex_grid_id
                    },
                    ..old(self)@
                }) && eff == ToolsEffect::RefreshHexGrids),
            },
    {
        let conn = match opened(conn) {
            Ok(c) => c,
            Err(e) => {
                self.status = Some(e.text());
                return ToolsEffect::Nothing;
            },
        };
        let st = grid_delete_statement(id);
        match run(&conn, &st) {
            Err(e) => {
                self.status = Some(db_error(e).message);
                ToolsEffect::Nothing
            },
            Ok(_) => {
                if self.hex_grid_id == Some(id) {
                    self.hex_grid_id = None;
                }
                ToolsEffect::RefreshHexGrids
            },
        }
    }

    /// Shows the stored associations of tile `(x, y)` of grid `grid_id`, if
    /// the tile is stored; any failure leaves the editor as it is.
    pub fn task_load_tile(&mut self, grid_id: i64, x: i32, y: i32, conn: Result<rusqlite::Connection, String>)
        ensures
            load_tile_task_spec(old(self)@, final(self)@),
    {
        let conn = match conn {
            Ok(c) => c,
            Err(_) => return,
        };
        let st = tile_associations_select_statement(grid_id, x, y);
        let row = match fetch_first(&conn, &st, 4) {
            Ok(Some(row)) => row,
            _ => return,
        };
        let unit_id = match read_opt_i64(&row[0]) {
            Some(v) => v,
            None => return,
        };
        let item_id = match read_opt_i64(&row[1]) {
            Some(v) => v,
            None => return,
        };
        let level_id = match read_opt_i64(&row[2]) {
            Some(v) => v,
            None => return,
        };
        let tile_type = match read_opt_text(&row[3]) {
            Some(v) => v,
            None => return,
        };
        self.clear_tile_buffers();
        self.hex_tile_unit_id = unit_id;
        self.hex_tile_item_id = item_id;
        self.hex_tile_level_id = level_id;
        self.hex_tile_type = match tile_type {
            Some(t) => t,
            None => String::new(),
        };
    }

    /// Stores the association of the selected tile: at most one of a unit,
    /// an item or a level (each found by its exact name), or a type.
    pub fn task_save_tile_associations(&mut self, conn: Result<rusqlite::Connection, String>)
        ensures
            save_tile_task_spec(old(self)@, conn_error(conn), final(self)@),
    {
        let grid_id = match self.hex_grid_id {
            Some(id) => id,
            None => {
                self.status = Some("Save the hex grid first (no grid id yet)".to_owned());
                return;
            },
        };
        let (x, y) = match (self.hex_grid_selected_x, self.hex_grid_selected_y) {
            (Some(x), Some(y)) => (x, y),
            _ => {
                self.status = Some("Select a tile first".to_owned());
                return;
            },
        };
        self.hex_grid_tiles_present.insert((x, y));
        if self.tile_inputs_chosen() > 1 {
            self.status = Some(
                "Choose only ONE association: Unit OR Level OR Item OR Type (clear the others first)".to_owned(),
            );
            return;
        }
        let tile_type: Option<String> = {
            let t = trim(self.hex_tile_type.as_str());
            if t.is_empty() {
                None
            } else {
                Some(t.to_owned())
            }
        };
        let mut conn = match opened(conn) {
            Ok(c) => c,
            Err(e) => {
                self.status = Some(e.text());
                return;
            },
        };
        let tx = match begin_transaction(&mut conn) {
            Ok(tx) => tx,
            Err(e) => {
                self.status = Some(db_error(e).message);
                return;
            },
        };
        let (unit_id, item_id, level_id) = {
            let c = transaction_connection(&tx);
            let unit_id = lookup_id(c, "unit_id", self.hex_tile_unit_query.as_str());
            let item_id = lookup_id(c, "item_id", self.hex_tile_item_query.as_str());
            let level_id = lookup_id(c, "level_id", self.hex_tile_level_query.as_str());
            (unit_id, item_id, level_id)
        };
        let mut resolved: u8 = 0;
        if unit_id.is_some() {
            resolved = resolved + 1;
        }
        if item_id.is_some() {
            resolved = resolved + 1;
        }
        if level_id.is_some() {
            resolved = resolved + 1;
        }
        if tile_type.is_some() {
            resolved = resolved + 1;
        }
        if resolved > 1 {
            self.status = Some(
                "Choose only ONE association: Unit OR Level OR Item OR Type (clear the others first)".to_owned(),
            );
            return;
        }
        {
            let c = transaction_connection(&tx);
            let touch = tile_touch_statement(grid_id, x, y);
            if let Err(e) = run(c, &touch) {
                self.status = Some(db_error(e).message);
                return;
            }
            let assoc = tile_association_statement(grid_id, x, y, unit_id, item_id, level_id, &tile_type);
            if let Err(e) = run(c, &assoc) {
                self.status = Some(db_error(e).message);
                return;
            }
        }
        if let Err(e) = commit(tx) {
            self.status = Some(db_error(e).message);
            return;
        }
        self.hex_tile_unit_id = unit_id;
        self.hex_tile_item_id = item_id;
        self.hex_tile_level_id = level_id;
        let has_data = unit_id.is_some() || item_id.is_some() || level_id.is_some()
            || tile_type.is_some();
        if has_data {
            self.hex_grid_tiles_with_data.insert((x, y));
        } else {
            self.hex_grid_tiles_with_data.remove(&(x, y));
        }
        self.status = Some("Hex tile associations saved".to_owned());
    }
}

/// An optional integer parameter.
/// The statement that removes hex grid `id` (its tiles go with it, by
/// cascade).
pub fn grid_delete_statement(id: i64) -> (r: SqlStatement)
    ensures
        r.sql@ == "DELETE FROM hex_grids WHERE id = ?1"@,
        r.params@ == seq![SqlParam::Integer(id)],
{
    SqlStatement { sql: "DELETE FROM hex_grids WHERE id = ?1", params: vec![SqlParam::Integer(id)] }
}

/// The statement that makes sure tile `(x, y)` of grid `grid_id` is stored:
/// it adds the tile, or only touches `updated_at` of the stored one.
pub fn tile_touch_statement(grid_id: i64, x: i32, y: i32) -> (r: SqlStatement)
    ensures
        r.sql@ == "INSERT INTO hex_tiles (hex_grid_id, x, y) VALUES (?1, ?2, ?3) ON CONFLICT(hex_grid_id, x, y) DO UPDATE SET updated_at = (strftime('%Y-%m-%dT%H:%M:%fZ', 'now'))"@,
        r.params@ == seq![SqlParam::Integer(grid_id), SqlParam::Integer(x as i64), SqlParam::Integer(y as i64)],
{
    SqlStatement {
        sql: "INSERT INTO hex_tiles (hex_grid_id, x, y) VALUES (?1, ?2, ?3) ON CONFLICT(hex_grid_id, x, y) DO UPDATE SET updated_at = (strftime('%Y-%m-%dT%H:%M:%fZ', 'now'))",
        params: vec![
            SqlParam::Integer(grid_id),
            SqlParam::Integer(x as i64),
            SqlParam::Integer(y as i64),
        ],
    }
}

/// The statement that sets the associations of stored tile `(x, y)` of grid
/// `grid_id`: unit, item and level ids and type, each `NULL` when absent.
pub fn tile_association_statement(
    grid_id: i64,
    x: i32,
    y: i32,
    unit_id: Option<i64>,
    item_id: Option<i64>,
    level_id: Option<i64>,
    tile_type: &Option<String>,
) -> (r: SqlStatement)
    ensures
        r.sql@ == "UPDATE hex_tiles SET unit_id = ?1, item_id = ?2, level_id = ?3, type = ?4, updated_at = (strftime('%Y-%m-%dT%H:%M:%fZ', 'now')) WHERE hex_grid_id = ?5 AND x = ?6 AND y = ?7"@,
        r.params@ == seq![
            opt_int_spec(unit_id),
            opt_int_spec(item_id),
            opt_int_spec(level_id),
            match tile_type {
                Some(t) => SqlParam::Text(*t),
                None => SqlParam::Null,
            },
            SqlParam::Integer(grid_id),
            SqlParam::Integer(x as i64),
            SqlParam::Integer(y as i64),
        ],
{
    let kind = match tile_type {
        Some(t) => SqlParam::Text(t.clone()),
        None => SqlParam::Null,
    };
    SqlStatement {
        sql: "UPDATE hex_tiles SET unit_id = ?1, item_id = ?2, level_id = ?3, type = ?4, updated_at = (strftime('%Y-%m-%dT%H:%M:%fZ', 'now')) WHERE hex_grid_id = ?5 AND x = ?6 AND y = ?7",
        params: vec![
            opt_int(unit_id),
            opt_int(item_id),
            opt_int(level_id),
            kind,
            SqlParam::Integer(grid_id),
            SqlParam::Integer(x as i64),
            SqlParam::Integer(y as i64),
        ],
    }
}

/// A column value that is an id or `NULL`.
pub open spec fn opt_int_spec(v: Option<i64>) -> SqlParam {
    match v {
        Some(i) => SqlParam::Integer(i),
        None => SqlParam::Null,
    }
}

fn opt_int(v: Option<i64>) -> (r: SqlParam)
    ensures
        r == (match v {
            Some(i) => SqlParam::Integer(i),
            None => SqlParam::Null,
        }),
{
    match v {
        Some(i) => SqlParam::Integer(i),
        None => SqlParam::Null,
    }
}

/// Reads grid `id`: its name, width and height, the coordinates of its
/// tiles, and those of its tiles that hold an association or a type.
fn load_grid(conn: &rusqlite::Connection, id: i64) -> (r: Result<
    (String, i32, i32, BTreeSet<(i32, i32)>, BTreeSet<(i32, i32)>),
    DataError,
>)
    ensures
        r matches Ok((_, _, _, present, with_data)) ==> with_data@.subset_of(present@),
{
    let form = grid_form_select_statement(id);
    let row = match fetch_first(conn, &form, 3) {
        Ok(Some(row)) => row,
        Ok(None) => return Err(DataError::new(ErrorKind::Db, "Query returned no rows".to_owned())),
        Err(e) => return Err(db_error(e)),
    };
    let name = match read_text(&row[0]) {
        Some(v) => v,
        None => return Err(crate::db::bad_row("hex_grids.name")),
    };
    let width = match read_i32(&row[1]) {
        Some(v) => v,
        None => return Err(crate::db::bad_row("hex_grids.width")),
    };
    let height = match read_i32(&row[2]) {
        Some(v) => v,
        None => return Err(crate::db::bad_row("hex_grids.height")),
    };
    let tiles = grid_tiles_select_statement(id);
    let rows = match fetch_all(conn, &tiles, 6) {
        Ok(rows) => rows,
        Err(e) => return Err(db_error(e)),
    };
    let mut present: BTreeSet<(i32, i32)> = BTreeSet::new();
    let mut with_data: BTreeSet<(i32, i32)> = BTreeSet::new();
    let mut i: usize = 0;
    while i < rows.len()
        invariant
            i <= rows@.len(),
            forall|k: int| 0 <= k < rows@.len() ==> #[trigger] rows@[k]@.len() == 6,
            with_data@.subset_of(present@),
        decreases rows@.len() - i,
    {
        let r = &rows[i];
        let x = match read_i32(&r[0]) {
            Some(v) => v,
            None => return Err(crate::db::bad_row("hex_tiles.x")),
        };
        let y = match read_i32(&r[1]) {
            Some(v) => v,
            None => return Err(crate::db::bad_row("hex_tiles.y")),
        };
        let unit_id = match read_opt_i64(&r[2]) {
            Some(v) => v,
            None => return Err(crate::db::bad_row("hex_tiles.unit_id")),
        };
        let item_id = match read_opt_i64(&r[3]) {
            Some(v) => v,
            None => return Err(crate::db::bad_row("hex_tiles.item_id")),
        };
        let level_id = match read_opt_i64(&r[4]) {
            Some(v) => v,
            None => return Err(crate::db::bad_row("hex_tiles.level_id")),
        };
        let tile_type = match read_opt_text(&r[5]) {
            Some(v) => v,
            None => return Err(crate::db::bad_row("hex_tiles.type")),
        };
        present.insert((x, y));
        let typed = match &tile_type {
            Some(t) => !is_blank(t.as_str()),
            None => false,
        };
        if unit_id.is_some() || item_id.is_some() || level_id.is_some() || typed {
            with_data.insert((x, y));
        }
        i = i + 1;
    }
    Ok((name, width, height, present, with_data))
}

} // verus!
