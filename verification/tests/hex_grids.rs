use rusqlite::Connection;
use tabletop::db::SqlValue;
use tabletop::hex_grids::{grid_from_row, tile_from_row, HexCoord, HexGrid};
use tabletop::shared::DataError;

fn open_in_memory_db() -> Connection {
    let conn = Connection::open_in_memory().expect("open in-memory sqlite db");
    conn.pragma_update(None, "foreign_keys", "ON")
        .expect("enable foreign_keys");
    conn
}

fn create_hex_schema(conn: &Connection) {
    conn.execute_batch(
        r#"
            CREATE TABLE hex_grids (
                id          INTEGER PRIMARY KEY AUTOINCREMENT,
                name        TEXT NOT NULL UNIQUE,
                width       INTEGER NOT NULL,
                height      INTEGER NOT NULL,

                created_at  TEXT NOT NULL DEFAULT (strftime('%Y-%m-%dT%H:%M:%fZ', 'now')),
                updated_at  TEXT NOT NULL DEFAULT (strftime('%Y-%m-%dT%H:%M:%fZ', 'now')),

                CHECK (length(trim(name)) > 0),
                CHECK (width > 0),
                CHECK (height > 0)
            );

            CREATE INDEX idx_hex_grids_name ON hex_grids(name);

            CREATE TRIGGER trg_hex_grids_updated_at
            AFTER UPDATE ON hex_grids
            FOR EACH ROW
            BEGIN
                UPDATE hex_grids
                SET updated_at = (strftime('%Y-%m-%dT%H:%M:%fZ', 'now'))
                WHERE id = OLD.id;
            END;

            CREATE TABLE hex_tiles (
                id             INTEGER PRIMARY KEY AUTOINCREMENT,
                hex_grid_id    INTEGER NOT NULL,
                x              INTEGER NOT NULL,
                y              INTEGER NOT NULL,
                user_data_json TEXT NULL,

                created_at     TEXT NOT NULL DEFAULT (strftime('%Y-%m-%dT%H:%M:%fZ', 'now')),
                updated_at     TEXT NOT NULL DEFAULT (strftime('%Y-%m-%dT%H:%M:%fZ', 'now')),

                FOREIGN KEY (hex_grid_id) REFERENCES hex_grids(id) ON DELETE CASCADE,

                -- Enforce single tile per coordinate.
                UNIQUE (hex_grid_id, x, y)
            );

            CREATE INDEX idx_hex_tiles_grid ON hex_tiles(hex_grid_id);
            CREATE INDEX idx_hex_tiles_grid_xy ON hex_tiles(hex_grid_id, x, y);

            CREATE TRIGGER trg_hex_tiles_updated_at
            AFTER UPDATE ON hex_tiles
            FOR EACH ROW
            BEGIN
                UPDATE hex_tiles
                SET updated_at = (strftime('%Y-%m-%dT%H:%M:%fZ', 'now'))
                WHERE id = OLD.id;
            END;
            "#,
    )
    .expect("create hex schema");
}

fn cut_corners_to_hex_shape(grid: &HexGrid, conn: &Connection) -> Result<(), DataError> {
    let w = grid.width;
    let h = grid.height;
    let cx = w / 2;
    let cy = h / 2;
    let r = w.min(h) / 2;

    for y in 0..h {
        for x in 0..w {
            let dx = (x - cx).abs();
            let dy = (y - cy).abs();

            let keep = dx + dy <= r;
            let coord = HexCoord::new(x, y);

            if keep {
                let json = format!(r#"{{"x":{},"y":{}}}"#, x, y);
                grid.put_tile(conn, coord, Some(&json))?;
            } else {
                grid.remove_tile(conn, coord)?;
            }
        }
    }

    Ok(())
}

#[test]
fn generate_grid_insert_and_roundtrip_tiles_in_sqlite() -> Result<(), DataError> {
    let conn = open_in_memory_db();
    create_hex_schema(&conn);

    let mut grid = HexGrid::generate("test-grid", 7, 7)?;
    let grid_id = grid.insert(&conn)?;

    cut_corners_to_hex_shape(&grid, &conn)?;

    let loaded = HexGrid::load(&conn, grid_id)?;
    assert_eq!(loaded.name, "test-grid");
    assert_eq!(loaded.width, 7);
    assert_eq!(loaded.height, 7);

    let center = HexCoord::new(3, 3);
    let t = loaded.get_tile(&conn, center)?;
    assert!(t.is_some());
    assert_eq!(t.unwrap().user_data_json.as_deref(), Some(r#"{"x":3,"y":3}"#));

    let corner = HexCoord::new(0, 0);
    let t = loaded.get_tile(&conn, corner)?;
    assert!(t.is_none());

    let tiles = loaded.list_tiles(&conn)?;
    assert!(!tiles.is_empty());
    assert!(tiles.len() < (loaded.width * loaded.height) as usize);

    loaded.put_tile(&conn, center, Some(r#"{"hello":"world"}"#))?;
    let t2 = loaded.get_tile(&conn, center)?;
    assert_eq!(t2.unwrap().user_data_json.as_deref(), Some(r#"{"hello":"world"}"#));

    loaded.remove_tile(&conn, center)?;
    let t3 = loaded.get_tile(&conn, center)?;
    assert!(t3.is_none());

    Ok(())
}

#[test]
fn bounds_checking_rejects_out_of_range_coordinates() -> Result<(), DataError> {
    let conn = open_in_memory_db();
    create_hex_schema(&conn);

    let mut grid = HexGrid::generate("bounds-grid", 3, 2)?;
    grid.insert(&conn)?;

    let err = grid.put_tile(&conn, HexCoord::new(3, 0), Some(r#"{}"#)).unwrap_err();
    assert!(err.message().contains("out of bounds"));

    let err = grid.remove_tile(&conn, HexCoord::new(0, 2)).unwrap_err();
    assert!(err.message().contains("out of bounds"));

    Ok(())
}

#[test]
fn out_of_bounds_message_names_the_coordinate_and_size() {
    let grid = HexGrid::generate("g", 3, 2).expect("generate");
    let err = grid.require_contains(HexCoord::new(-1, 5)).unwrap_err();
    assert_eq!(err.message(), "coordinate out of bounds: (-1,5) not in 0..3 x 0..2");
}

#[test]
fn tile_operations_need_a_stored_grid() {
    let conn = open_in_memory_db();
    create_hex_schema(&conn);
    let grid = HexGrid::generate("unsaved", 2, 2).expect("generate");
    let err = grid.put_tile(&conn, HexCoord::new(0, 0), None).unwrap_err();
    assert_eq!(err.message(), "hex grid has no id (insert it first)");
}

#[test]
fn generate_rejects_bad_sizes_and_names() {
    assert!(HexGrid::generate("g", 0, 2).is_err());
    assert!(HexGrid::generate("g", 2, -1).is_err());
    assert!(HexGrid::generate("  ", 2, 2).is_err());
    assert!(HexGrid::generate("g", 1, 1).is_ok());
}

#[test]
fn rows_are_read_as_grids_and_tiles() {
    let row = vec![
        SqlValue::Integer(7),
        SqlValue::Text("Arena".to_string()),
        SqlValue::Integer(4),
        SqlValue::Integer(3),
    ];
    let g = grid_from_row(&row).unwrap();
    assert_eq!(g.id, Some(7));
    assert_eq!(g.name, "Arena");
    assert_eq!((g.width, g.height), (4, 3));

    let bad = vec![SqlValue::Integer(7), SqlValue::Null, SqlValue::Integer(4), SqlValue::Integer(3)];
    assert!(grid_from_row(&bad).is_err());

    let tile = tile_from_row(&vec![SqlValue::Integer(1), SqlValue::Integer(2), SqlValue::Null]).unwrap();
    assert_eq!(tile.coord, HexCoord { x: 1, y: 2 });
    assert_eq!(tile.user_data_json, None);
}
