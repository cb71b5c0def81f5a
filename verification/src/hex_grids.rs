//! Hex grids: a named rectangle of tile spaces `0..width x 0..height`, and
//! their storage in the `hex_grids` and `hex_tiles` tables.
//!
//! A tile space exists for every coordinate within the bounds, and may be
//! empty (no `hex_tiles` row) or populated (a row, with optional JSON text
//! that is stored as given).

use vstd::prelude::*;
use crate::db::{
    run, SqlStatement, bad_row, col_i32, col_i64, col_opt_text, col_text, db_error,
    last_insert_rowid, answered, fetch_all, fetch_first, first_answered, read_i32, read_i64, read_opt_text, read_text,
    SqlParam, SqlValue,
};
use crate::num::{decimal_spec, i64_to_string};
use crate::shared::{concat2, concat3, fails_only_in_db, is_error, DataError, ErrorKind};
use crate::text::{is_blank, is_blank_spec};

verus! {

#[derive(Debug, Clone, Copy, PartialEq, Eq, Hash, Structural)]
pub struct HexCoord {
    pub x: i32,
    pub y: i32,
}

impl HexCoord {
    pub fn new(x: i32, y: i32) -> (r: HexCoord)
        ensures
            r.x == x,
            r.y == y,
    {
        HexCoord { x, y }
    }
}

#[derive(Debug, Clone, PartialEq, Eq)]
pub struct HexTile {
    pub coord: HexCoord,
    /// Arbitrary user JSON payload stored as text (not validated here).
    pub user_data_json: Option<String>,
}

#[derive(Debug, Clone, PartialEq, Eq)]
pub struct HexGrid {
    pub id: Option<i64>,
    pub name: String,
    pub width: i32,
    pub height: i32,
}

/// Whether `c` is a tile space of a `width x height` grid.
pub open spec fn in_bounds(width: i32, height: i32, c: HexCoord) -> bool {
    0 <= c.x && 0 <= c.y && c.x < width && c.y < height
}

/// `"coordinate out of bounds: (x,y) not in 0..width x 0..height"`.
pub open spec fn out_of_bounds_msg(c: HexCoord, width: i32, height: i32) -> Seq<char> {
    "coordinate out of bounds: ("@ + decimal_spec(c.x as int) + ","@ + decimal_spec(c.y as int)
        + ") not in 0.."@ + decimal_spec(width as int) + " x 0.."@ + decimal_spec(height as int)
}

/// The message for a grid that has not been stored yet.
pub open spec fn no_id_msg() -> Seq<char> {
    "hex grid has no id (insert it first)"@
}

/// The errors of a tile operation on `grid` at `c`: out of bounds first,
/// then a grid without id, and otherwise only database failures.
pub open spec fn tile_errors<T>(grid: HexGrid, c: HexCoord, r: Result<T, DataError>) -> bool {
    &&& !in_bounds(grid.width, grid.height, c) ==> (r matches Err(e) && is_error(
        e,
        ErrorKind::Invalid,
        out_of_bounds_msg(c, grid.width, grid.height),
    ))
    &&& in_bounds(grid.width, grid.height, c) && grid.id is None ==> (r matches Err(e) && is_error(
        e,
        ErrorKind::Invalid,
        no_id_msg(),
    ))
    &&& in_bounds(grid.width, grid.height, c) && grid.id is Some ==> fails_only_in_db(r)
}

/// The grid a row `id, name, width, height` holds.
pub open spec fn grid_of_row(row: Seq<SqlValue>) -> Option<HexGrid> {
    match (col_i64(row[0]), col_text(row[1]), col_i32(row[2]), col_i32(row[3])) {
        (Some(id), Some(name), Some(width), Some(height)) => Some(
            HexGrid { id: Some(id), name, width, height },
        ),
        _ => None,
    }
}

/// The tile a row `x, y, user_data_json` holds.
pub open spec fn tile_of_row(row: Seq<SqlValue>) -> Option<HexTile> {
    match (col_i32(row[0]), col_i32(row[1]), col_opt_text(row[2])) {
        (Some(x), Some(y), Some(user_data_json)) => Some(
            HexTile { coord: HexCoord { x, y }, user_data_json },
        ),
        _ => None,
    }
}

/// The parameters that name tile `coord` of grid `grid_id`:
/// `grid_id, x, y`.
pub fn tile_key_params(grid_id: i64, coord: HexCoord) -> (r: Vec<SqlParam>)
    ensures
        r@ == seq![
            SqlParam::Integer(grid_id),
            SqlParam::Integer(coord.x as i64),
            SqlParam::Integer(coord.y as i64),
        ],
{
    vec![SqlParam::Integer(grid_id), SqlParam::Integer(coord.x as i64), SqlParam::Integer(coord.y as i64)]
}

/// The parameters a tile write stores: `grid_id, x, y, user_data_json`
/// (`NULL` for no data).
pub fn tile_write_params(grid_id: i64, coord: HexCoord, user_data_json: Option<&str>) -> (r: Vec<
    SqlParam,
>)
    ensures
        r@.len() == 4,
        r@[0] == SqlParam::Integer(grid_id),
        r@[1] == SqlParam::Integer(coord.x as i64),
        r@[2] == SqlParam::Integer(coord.y as i64),
        match user_data_json {
            Some(j) => r@[3] matches SqlParam::Text(t) && t@ == j@,
            None => r@[3] == SqlParam::Null,
        },
{
    let json = match user_data_json {
        Some(s) => SqlParam::Text(s.to_owned()),
        None => SqlParam::Null,
    };
    vec![SqlParam::Integer(grid_id), SqlParam::Integer(coord.x as i64), SqlParam::Integer(coord.y as i64), json]
}

/// The statement that inserts grid `grid` as a new row: its name, width and height.
pub fn grid_insert_statement(grid: &HexGrid) -> (r: SqlStatement)
    ensures
        r.sql@ == "INSERT INTO hex_grids (name, width, height) VALUES (?1, ?2, ?3)"@,
        r.params@.len() == 3,
        r.params@[0] matches SqlParam::Text(t) && t@ == grid.name@,
        r.params@[1] == SqlParam::Integer(grid.width as i64),
        r.params@[2] == SqlParam::Integer(grid.height as i64),
{
    SqlStatement {
        sql: "INSERT INTO hex_grids (name, width, height) VALUES (?1, ?2, ?3)",
        params: vec![
            SqlParam::Text(grid.name.clone()),
            SqlParam::Integer(grid.width as i64),
            SqlParam::Integer(grid.height as i64),
        ],
    }
}

/// The statement that adds or replaces tile `coord` of grid `grid_id`
/// (an upsert: an existing tile gets the new user data).
pub fn tile_put_statement(grid_id: i64, coord: HexCoord, user_data_json: Option<&str>) -> (r: SqlStatement)
    ensures
        r.sql@ == "INSERT INTO hex_tiles (hex_grid_id, x, y, user_data_json) VALUES (?1, ?2, ?3, ?4) ON CONFLICT(hex_grid_id, x, y) DO UPDATE SET user_data_json = excluded.user_data_json, updated_at = (strftime('%Y-%m-%dT%H:%M:%fZ', 'now'))"@,
        r.params@.len() == 4,
        r.params@[0] == SqlParam::Integer(grid_id),
        r.params@[1] == SqlParam::Integer(coord.x as i64),
        r.params@[2] == SqlParam::Integer(coord.y as i64),
        match user_data_json {
            Some(j) => r.params@[3] matches SqlParam::Text(t) && t@ == j@,
            None => r.params@[3] == SqlParam::Null,
        },
{
    SqlStatement {
        sql: "INSERT INTO hex_tiles (hex_grid_id, x, y, user_data_json) VALUES (?1, ?2, ?3, ?4) ON CONFLICT(hex_grid_id, x, y) DO UPDATE SET user_data_json = excluded.user_data_json, updated_at = (strftime('%Y-%m-%dT%H:%M:%fZ', 'now'))",
        params: tile_write_params(grid_id, coord, user_data_json),
    }
}

/// The statement that deletes tile `coord` of grid `grid_id`.
pub fn tile_remove_statement(grid_id: i64, coord: HexCoord) -> (r: SqlStatement)
    ensures
        r.sql@ == "DELETE FROM hex_tiles WHERE hex_grid_id = ?1 AND x = ?2 AND y = ?3"@,
        r.params@ == seq![
            SqlParam::Integer(grid_id),
            SqlParam::Integer(coord.x as i64),
            SqlParam::Integer(coord.y as i64),
        ],
{
    SqlStatement {
        sql: "DELETE FROM hex_tiles WHERE hex_grid_id = ?1 AND x = ?2 AND y = ?3",
        params: tile_key_params(grid_id, coord),
    }
}

/// The text of the query that reads one grid by id.
pub open spec fn grid_query_sql() -> Seq<char> {
    "SELECT id, name, width, height FROM hex_grids WHERE id = ?1"@
}

/// The text of the query that reads one stored tile of a grid.
pub open spec fn tile_query_sql() -> Seq<char> {
    "SELECT x, y, user_data_json FROM hex_tiles WHERE hex_grid_id = ?1 AND x = ?2 AND y = ?3"@
}

/// The parameters of the query for tile `c` of grid `grid_id`.
pub open spec fn tile_key(grid_id: i64, c: HexCoord) -> Seq<SqlParam> {
    seq![SqlParam::Integer(grid_id), SqlParam::Integer(c.x as i64), SqlParam::Integer(c.y as i64)]
}

/// The text of the query that reads the stored tiles of one grid, ordered
/// by `y`, then `x`.
pub open spec fn tiles_query_sql() -> Seq<char> {
    "SELECT x, y, user_data_json FROM hex_tiles WHERE hex_grid_id = ?1 ORDER BY y ASC, x ASC"@
}

/// The query that reads grid `id`: its id, name, width and height.
pub fn grid_select_statement(id: i64) -> (r: SqlStatement)
    ensures
        r.sql@ == "SELECT id, name, width, height FROM hex_grids WHERE id = ?1"@,
        r.params@ == seq![SqlParam::Integer(id)],
{
    SqlStatement {
        sql: "SELECT id, name, width, height FROM hex_grids WHERE id = ?1",
        params: vec![SqlParam::Integer(id)],
    }
}

/// The query that reads tile `coord` of grid `grid_id`.
pub fn tile_select_statement(grid_id: i64, coord: HexCoord) -> (r: SqlStatement)
    ensures
        r.sql@ == "SELECT x, y, user_data_json FROM hex_tiles WHERE hex_grid_id = ?1 AND x = ?2 AND y = ?3"@,
        r.params@ == seq![
            SqlParam::Integer(grid_id),
            SqlParam::Integer(coord.x as i64),
            SqlParam::Integer(coord.y as i64),
        ],
{
    SqlStatement {
        sql: "SELECT x, y, user_data_json FROM hex_tiles WHERE hex_grid_id = ?1 AND x = ?2 AND y = ?3",
        params: tile_key_params(grid_id, coord),
    }
}

/// The query that reads every stored tile of grid `grid_id`, ordered by
/// `y`, then `x`.
pub fn tiles_select_statement(grid_id: i64) -> (r: SqlStatement)
    ensures
        r.sql@ == "SELECT x, y, user_data_json FROM hex_tiles WHERE hex_grid_id = ?1 ORDER BY y ASC, x ASC"@,
        r.params@ == seq![SqlParam::Integer(grid_id)],
{
    SqlStatement {
        sql: "SELECT x, y, user_data_json FROM hex_tiles WHERE hex_grid_id = ?1 ORDER BY y ASC, x ASC",
        params: vec![SqlParam::Integer(grid_id)],
    }
}

/// What a grid lookup by `id` gives for the row found, if any: the decoded
/// grid, or `NotFound` `"hex grid not found: id=<id>"` when there is none.
pub fn grid_lookup_outcome(id: i64, found: Option<Vec<SqlValue>>) -> (r: Result<HexGrid, DataError>)
    requires
        found matches Some(row) ==> row@.len() == 4,
    ensures
        match found {
            None => r matches Err(e) && is_error(
                e,
                ErrorKind::NotFound,
                "hex grid not found: id="@ + decimal_spec(id as int),
            ),
            Some(row) => match grid_of_row(row@) {
                Some(g) => r == Ok::<HexGrid, DataError>(g),
                None => r matches Err(e) && e.kind == ErrorKind::Db,
            },
        },
{
    match found {
        Some(row) => grid_from_row(&row),
        None => {
            let digits = i64_to_string(id);
            Err(DataError::new(ErrorKind::NotFound, concat2("hex grid not found: id=", digits.as_str())))
        },
    }
}

/// What a tile lookup gives for the row found, if any: the decoded tile, or
/// no tile (an empty space) when there is no row.
pub fn tile_lookup_outcome(found: Option<Vec<SqlValue>>) -> (r: Result<Option<HexTile>, DataError>)
    requires
        found matches Some(row) ==> row@.len() == 3,
    ensures
        match found {
            None => r == Ok::<Option<HexTile>, DataError>(None),
            Some(row) => match tile_of_row(row@) {
                Some(t) => r == Ok::<Option<HexTile>, DataError>(Some(t)),
                None => r matches Err(e) && e.kind == ErrorKind::Db,
            },
        },
{
    match found {
        Some(row) => match tile_from_row(&row) {
            Ok(t) => Ok(Some(t)),
            Err(e) => Err(e),
        },
        None => Ok(None),
    }
}

/// Reads a grid from a row `id, name, width, height`.
pub fn grid_from_row(row: &Vec<SqlValue>) -> (r: Result<HexGrid, DataError>)
    requires
        row@.len() == 4,
    ensures
        match grid_of_row(row@) {
            Some(g) => r == Ok::<HexGrid, DataError>(g),
            None => r matches Err(e) && e.kind == ErrorKind::Db,
        },
{
    let gid = match read_i64(&row[0]) {
        Some(v) => v,
        None => return Err(bad_row("hex_grids.id")),
    };
    let name = match read_text(&row[1]) {
        Some(v) => v,
        None => return Err(bad_row("hex_grids.name")),
    };
    let width = match read_i32(&row[2]) {
        Some(v) => v,
        None => return Err(bad_row("hex_grids.width")),
    };
    let height = match read_i32(&row[3]) {
        Some(v) => v,
        None => return Err(bad_row("hex_grids.height")),
    };
    Ok(HexGrid { id: Some(gid), name, width, height })
}

/// Reads a tile from a row `x, y, user_data_json`.
pub fn tile_from_row(row: &Vec<SqlValue>) -> (r: Result<HexTile, DataError>)
    requires
        row@.len() == 3,
    ensures
        match tile_of_row(row@) {
            Some(t) => r == Ok::<HexTile, DataError>(t),
            None => r matches Err(e) && e.kind == ErrorKind::Db,
        },
{
    let x = match read_i32(&row[0]) {
        Some(v) => v,
        None => return Err(bad_row("hex_tiles.x")),
    };
    let y = match read_i32(&row[1]) {
        Some(v) => v,
        None => return Err(bad_row("hex_tiles.y")),
    };
    let user_data_json = match read_opt_text(&row[2]) {
        Some(v) => v,
        None => return Err(bad_row("hex_tiles.user_data_json")),
    };
    Ok(HexTile { coord: HexCoord::new(x, y), user_data_json })
}

pub open spec fn tiles_of_rows(rows: Seq<Vec<SqlValue>>, out: Seq<HexTile>) -> bool {
    &&& out.len() == rows.len()
    &&& forall|i: int| 0 <= i < rows.len() ==> tile_of_row(#[trigger] rows[i]@) == Some(out[i])
}

/// Reads tiles from rows, in row order.
pub fn tiles_from_rows(rows: &Vec<Vec<SqlValue>>) -> (r: Result<Vec<HexTile>, DataError>)
    requires
        forall|i: int| 0 <= i < rows@.len() ==> #[trigger] rows@[i]@.len() == 3,
    ensures
        match r {
            Ok(v) => tiles_of_rows(rows@, v@),
            Err(e) => e.kind == ErrorKind::Db && exists|i: int|
                0 <= i < rows@.len() && tile_of_row(#[trigger] rows@[i]@) is None,
        },
{
    let mut out: Vec<HexTile> = Vec::new();
    let mut i: usize = 0;
    while i < rows.len()
        invariant
            i <= rows@.len(),
            forall|k: int| 0 <= k < rows@.len() ==> #[trigger] rows@[k]@.len() == 3,
            tiles_of_rows(rows@.subrange(0, i as int), out@),
        decreases rows@.len() - i,
    {
        let a = match tile_from_row(&rows[i]) {
            Ok(a) => a,
            Err(e) => return Err(e),
        };
        out.push(a);
        i = i + 1;
        assert forall|k: int| 0 <= k < i implies tile_of_row(
            #[trigger] rows@.subrange(0, i as int)[k]@,
        ) == Some(out@[k]) by {
            if k < i - 1 {
                assert(rows@.subrange(0, i as int)[k] == rows@.subrange(0, i - 1)[k]);
            }
        }
    }
    assert(rows@.subrange(0, i as int) =~= rows@);
    Ok(out)
}

impl HexGrid {
    /// A new, not yet stored grid; the name must not be blank and both
    /// dimensions must be positive.
    pub fn generate(name: &str, width: i32, height: i32) -> (r: Result<HexGrid, DataError>)
        ensures
            is_blank_spec(name@) ==> (r matches Err(e) && is_error(
                e,
                ErrorKind::Invalid,
                "name must be non-empty"@,
            )),
            !is_blank_spec(name@) && (width <= 0 || height <= 0) ==> (r matches Err(e)
                && is_error(e, ErrorKind::Invalid, "width and height must be > 0"@)),
            !is_blank_spec(name@) && width > 0 && height > 0 ==> (r matches Ok(g) && g.id is None
                && g.name@ == name@ && g.width == width && g.height == height),
    {
        if is_blank(name) {
            return Err(DataError::invalid("name must be non-empty"));
        }
        if width <= 0 || height <= 0 {
            return Err(DataError::invalid("width and height must be > 0"));
        }
        Ok(HexGrid { id: None, name: name.to_owned(), width, height })
    }

    /// Whether `c` lies within the grid's bounds.
    pub fn contains(&self, c: HexCoord) -> (r: bool)
        ensures
            r == in_bounds(self.width, self.height, c),
    {
        c.x >= 0 && c.y >= 0 && c.x < self.width && c.y < self.height
    }

    pub fn require_contains(&self, c: HexCoord) -> (r: Result<(), DataError>)
        ensures
            in_bounds(self.width, self.height, c) ==> r is Ok,
            !in_bounds(self.width, self.height, c) ==> (r matches Err(e) && is_error(
                e,
                ErrorKind::Invalid,
                out_of_bounds_msg(c, self.width, self.height),
            )),
    {
        if !self.contains(c) {
            let x = i64_to_string(c.x as i64);
            let y = i64_to_string(c.y as i64);
            let w = i64_to_string(self.width as i64);
            let h = i64_to_string(self.height as i64);
            let head = concat3("coordinate out of bounds: (", x.as_str(), ",");
            let mid = concat3(y.as_str(), ") not in 0..", w.as_str());
            let tail = concat2(" x 0..", h.as_str());
            let msg = concat3(head.as_str(), mid.as_str(), tail.as_str());
            assert(msg@ =~= out_of_bounds_msg(c, self.width, self.height));
            return Err(DataError::new(ErrorKind::Invalid, msg));
        }
        Ok(())
    }

    pub fn require_id(&self) -> (r: Result<i64, DataError>)
        ensures
            match self.id {
                Some(id) => r == Ok::<i64, DataError>(id),
                None => r matches Err(e) && is_error(e, ErrorKind::Invalid, no_id_msg()),
            },
    {
        match self.id {
            Some(id) => Ok(id),
            None => Err(DataError::invalid("hex grid has no id (insert it first)")),
        }
    }

    /// Inserts the grid row, returning the new id and recording it in
    /// `self.id`.
    pub fn insert(&mut self, conn: &rusqlite::Connection) -> (r: Result<i64, DataError>)
        ensures
            fails_only_in_db(r),
            final(self).name == old(self).name,
            final(self).width == old(self).width,
            final(self).height == old(self).height,
            match r {
                Ok(id) => final(self).id == Some(id),
                Err(_) => final(self).id == old(self).id,
            },
    {
        let st = grid_insert_statement(self);
        if let Err(e) = run(conn, &st) {
            return Err(db_error(e));
        }
        let id = last_insert_rowid(conn);
        self.id = Some(id);
        Ok(id)
    }

    /// Loads the grid with the given id; a missing grid is `NotFound`.
    pub fn load(conn: &rusqlite::Connection, id: i64) -> (r: Result<HexGrid, DataError>)
        ensures
            r matches Err(e) ==> (e.kind == ErrorKind::Db || is_error(
                e,
                ErrorKind::NotFound,
                "hex grid not found: id="@ + decimal_spec(id as int),
            )),
            r matches Ok(g) ==> g.id is Some,
            r matches Ok(g) ==> exists|row: Vec<SqlValue>| first_answered(
                grid_query_sql(),
                seq![SqlParam::Integer(id)],
                4,
                Some(row),
            ) && #[trigger] grid_of_row(row@) == Some(g),
    {
        let st = grid_select_statement(id);
        match fetch_first(conn, &st, 4) {
            Ok(found) => grid_lookup_outcome(id, found),
            Err(e) => Err(db_error(e)),
        }
    }

    /// Adds or replaces the tile at `coord` (with `None`, the tile is
    /// populated without user data; `remove_tile` empties it).
    pub fn put_tile(
        &self,
        conn: &rusqlite::Connection,
        coord: HexCoord,
        user_data_json: Option<&str>,
    ) -> (r: Result<(), DataError>)
        ensures
            tile_errors(*self, coord, r),
    {
        self.require_contains(coord)?;
        let grid_id = self.require_id()?;
        let st = tile_put_statement(grid_id, coord, user_data_json);
        match run(conn, &st) {
            Ok(_) => Ok(()),
            Err(e) => Err(db_error(e)),
        }
    }

    /// Empties the tile space at `coord` by deleting any stored tile row.
    pub fn remove_tile(&self, conn: &rusqlite::Connection, coord: HexCoord) -> (r: Result<
        (),
        DataError,
    >)
        ensures
            tile_errors(*self, coord, r),
    {
        self.require_contains(coord)?;
        let grid_id = self.require_id()?;
        let st = tile_remove_statement(grid_id, coord);
        match run(conn, &st) {
            Ok(_) => Ok(()),
            Err(e) => Err(db_error(e)),
        }
    }

    /// The tile at `coord`, or `None` when the space is empty.
    pub fn get_tile(&self, conn: &rusqlite::Connection, coord: HexCoord) -> (r: Result<
        Option<HexTile>,
        DataError,
    >)
        ensures
            tile_errors(*self, coord, r),
            r matches Ok(Some(t)) ==> exists|row: Seq<SqlValue>| #[trigger] tile_of_row(row) == Some(t),
            r matches Ok(t) ==> self.id matches Some(g) && exists|found: Option<Vec<SqlValue>>| #[trigger] first_answered(
                tile_query_sql(),
                tile_key(g, coord),
                3,
                found,
            ) && match found {
                None => t is None,
                Some(row) => t == tile_of_row(row@),
            },
    {
        self.require_contains(coord)?;
        let grid_id = self.require_id()?;
        let st = tile_select_statement(grid_id, coord);
        let found = fetch_first(conn, &st, 3);
        proof {
            if let Ok(f) = &found {
                assert(first_answered(tile_query_sql(), tile_key(grid_id, coord), 3, *f));
            }
        }
        match found {
            Ok(found) => tile_lookup_outcome(found),
            Err(e) => Err(db_error(e)),
        }
    }

    /// All stored tiles of the grid, ordered by `y`, then `x`.
    pub fn list_tiles(&self, conn: &rusqlite::Connection) -> (r: Result<Vec<HexTile>, DataError>)
        ensures
            self.id is None ==> (r matches Err(e) && is_error(e, ErrorKind::Invalid, no_id_msg())),
            self.id is Some ==> fails_only_in_db(r),
            r matches Ok(v) ==> exists|rows: Seq<Vec<SqlValue>>| #[trigger] tiles_of_rows(rows, v@),
            r matches Ok(v) ==> self.id matches Some(g) && exists|rows: Seq<Vec<SqlValue>>| answered(
                tiles_query_sql(),
                seq![SqlParam::Integer(g)],
                3,
                rows,
            ) && #[trigger] tiles_of_rows(rows, v@),
    {
        let grid_id = self.require_id()?;
        let st = tiles_select_statement(grid_id);
        match fetch_all(conn, &st, 3) {
            Ok(rows) => tiles_from_rows(&rows),
            Err(e) => Err(db_error(e)),
        }
    }
}

} // verus!
