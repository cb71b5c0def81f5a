//! Schema migrations: plain SQL files, each applied at most once and
//! recorded in a table.
//!
//! Two record-keeping tables exist: `migrations` (by file name) and
//! `schema_migrations` (by file name and the SHA-256 of the file's text, so
//! that a changed file that was already applied is reported).

use vstd::prelude::*;
use sha2::Digest;
use crate::db::{
    begin_transaction, col_text, commit, db_error, db_failure, execute_batch, fetch_first,
    first_answered, read_text, run, run_logged_batch, transaction_connection, BatchLog, SqlParam,
    SqlStatement, SqlValue,
};
use crate::shared::{concat3, fails_only_in_db, is_error, DataError, ErrorKind};

verus! {

/// The table that records which migration files were applied.
pub const MIGRATIONS_TABLE_SQL: &'static str = "CREATE TABLE IF NOT EXISTS migrations (id INTEGER PRIMARY KEY AUTOINCREMENT, filename TEXT NOT NULL UNIQUE, applied_at TEXT NOT NULL DEFAULT (strftime('%Y-%m-%dT%H:%M:%fZ', 'now')));";

/// The table that records applied migration files with their SHA-256.
pub const SCHEMA_MIGRATIONS_TABLE_SQL: &'static str = "CREATE TABLE IF NOT EXISTS schema_migrations (id INTEGER PRIMARY KEY AUTOINCREMENT, filename TEXT NOT NULL UNIQUE, sha256 TEXT NOT NULL, applied_at TEXT NOT NULL DEFAULT (strftime('%Y-%m-%dT%H:%M:%fZ', 'now')));";

/// Ensures the core schema exists (the `migrations` table).
pub fn init_db(conn: &rusqlite::Connection) -> (r: Result<(), DataError>)
    ensures
        fails_only_in_db(r),
{
    match execute_batch(conn, MIGRATIONS_TABLE_SQL) {
        Ok(()) => Ok(()),
        Err(e) => Err(db_error(e)),
    }
}

/// The query that finds whether migration `filename` is recorded in
/// `migrations` (one row at most).
pub fn applied_lookup_statement(filename: &str) -> (r: SqlStatement)
    ensures
        r.sql@ == "SELECT 1 FROM migrations WHERE filename = ?1 LIMIT 1"@,
        r.params@.len() == 1,
        r.params@[0] matches SqlParam::Text(t) && t@ == filename@,
{
    SqlStatement {
        sql: "SELECT 1 FROM migrations WHERE filename = ?1 LIMIT 1",
        params: vec![SqlParam::Text(filename.to_owned())],
    }
}

/// The query that finds whether an embedded migration `filename` is
/// recorded in `migrations`.
pub fn embedded_lookup_statement(filename: &str) -> (r: SqlStatement)
    ensures
        r.sql@ == "SELECT 1 FROM migrations WHERE filename = ?1"@,
        r.params@.len() == 1,
        r.params@[0] matches SqlParam::Text(t) && t@ == filename@,
{
    SqlStatement {
        sql: "SELECT 1 FROM migrations WHERE filename = ?1",
        params: vec![SqlParam::Text(filename.to_owned())],
    }
}

/// The query that reads the recorded SHA-256 of migration `filename`.
pub fn hash_lookup_statement(filename: &str) -> (r: SqlStatement)
    ensures
        r.sql@ == "SELECT sha256 FROM schema_migrations WHERE filename = ?1"@,
        r.params@.len() == 1,
        r.params@[0] matches SqlParam::Text(t) && t@ == filename@,
{
    SqlStatement {
        sql: "SELECT sha256 FROM schema_migrations WHERE filename = ?1",
        params: vec![SqlParam::Text(filename.to_owned())],
    }
}

/// Whether migration `filename` is recorded as applied: whether
/// `applied_lookup_statement(filename)` returns a row.
pub fn migration_already_applied(conn: &rusqlite::Connection, filename: &str) -> (r: Result<
    bool,
    DataError,
>)
    ensures
        fails_only_in_db(r),
{
    let st = applied_lookup_statement(filename);
    match fetch_first(conn, &st, 1) {
        Ok(row) => Ok(row.is_some()),
        Err(e) => Err(db_error(e)),
    }
}


/// The statement that records migration `filename` as applied.
pub fn record_statement(filename: &str) -> (r: SqlStatement)
    ensures
        r.sql@ == "INSERT INTO migrations (filename) VALUES (?1)"@,
        r.params@.len() == 1,
        r.params@[0] matches SqlParam::Text(t) && t@ == filename@,
{
    SqlStatement {
        sql: "INSERT INTO migrations (filename) VALUES (?1)",
        params: vec![SqlParam::Text(filename.to_owned())],
    }
}

/// The statement that records migration `filename` as applied with the
/// hash `sha256` of its text.
pub fn hashed_record_statement(filename: &str, sha256: String) -> (r: SqlStatement)
    ensures
        r.sql@ == "INSERT INTO schema_migrations (filename, sha256) VALUES (?1, ?2)"@,
        r.params@.len() == 2,
        r.params@[0] matches SqlParam::Text(t) && t@ == filename@,
        r.params@[1] == SqlParam::Text(sha256),
{
    SqlStatement {
        sql: "INSERT INTO schema_migrations (filename, sha256) VALUES (?1, ?2)",
        params: vec![SqlParam::Text(filename.to_owned()), SqlParam::Text(sha256)],
    }
}

/// Runs migration `filename` (its text `sql`) and records it, in one
/// transaction.
pub fn apply_migration(conn: &mut rusqlite::Connection, filename: &str, sql: &str) -> (r: Result<
    (),
    DataError,
>)
    ensures
        fails_only_in_db(r),
{
    let tx = match begin_transaction(conn) {
        Ok(tx) => tx,
        Err(e) => return Err(db_error(e)),
    };
    {
        let c = transaction_connection(&tx);
        if let Err(e) = execute_batch(c, sql) {
            let ctx = concat3("Migration `", filename, "` failed");
            return Err(db_failure(ctx, e));
        }
        let st = record_statement(filename);
        if let Err(e) = run(c, &st) {
            return Err(db_error(e));
        }
    }
    match commit(tx) {
        Ok(()) => Ok(()),
        Err(e) => Err(db_error(e)),
    }
}

/// The text of the query that finds whether a migration is recorded by
/// file name.
pub open spec fn embedded_lookup_sql() -> Seq<char> {
    "SELECT 1 FROM migrations WHERE filename = ?1"@
}

/// `applied` is what the lookup of migration `filename` in `migrations`
/// gave: whether it returned a row.
pub open spec fn applied_by_lookup(filename: Seq<char>, applied: bool) -> bool {
    exists|row: Option<Vec<SqlValue>>, t: String|
        #![trigger first_answered(embedded_lookup_sql(), seq![SqlParam::Text(t)], 1, row)]
        t@ == filename && first_answered(embedded_lookup_sql(), seq![SqlParam::Text(t)], 1, row) && applied
            == (row is Some)
}

/// The texts of the migrations of `files` that their lookups found
/// unrecorded (`applied`, file by file), in the order of `files`.
pub open spec fn unrecorded_texts(files: Seq<(String, String)>, applied: Seq<bool>) -> Seq<Seq<char>>
    decreases files.len(),
{
    if files.len() == 0 || applied.len() != files.len() {
        Seq::empty()
    } else {
        let rest = unrecorded_texts(files.drop_last(), applied.drop_last());
        if applied.last() {
            rest
        } else {
            rest.push(files.last().1@)
        }
    }
}

/// Applies each migration of `migrations` (file name and text) that is not
/// recorded yet, in the given order, each in its own transaction. A failure
/// is reported by the step that failed (as the simulator shows it), such as
/// ``"apply migration `0001_campaigns.sql`"``. On success it gives the log of
/// the migration batches it ran: exactly the texts of the migrations found
/// unrecorded, in the order of `migrations`.
pub fn apply_embedded_migrations_logged(conn: &mut rusqlite::Connection, migrations: &Vec<(String, String)>) -> (r:
    Result<BatchLog, DataError>)
    ensures
        fails_only_in_db(r),
        r matches Ok(log) ==> exists|applied: Seq<bool>| {
            &&& applied.len() == migrations@.len()
            &&& forall|k: int| 0 <= k < migrations@.len() ==> applied_by_lookup(
                migrations@[k].0@,
                #[trigger] applied[k],
            )
            &&& log.ran() == #[trigger] unrecorded_texts(migrations@, applied)
        },
{
    if let Err(e) = execute_batch(conn, MIGRATIONS_TABLE_SQL) {
        return Err(db_failure("ensure migrations table exists in simulator db".to_owned(), e));
    }
    let mut log = BatchLog::new();
    let ghost mut found: Seq<bool> = Seq::empty();
    proof {
        assert(migrations@.take(0) =~= Seq::<(String, String)>::empty());
    }
    let mut i: usize = 0;
    while i < migrations.len()
        invariant
            i <= migrations@.len(),
            found.len() == i,
            forall|k: int| 0 <= k < i ==> applied_by_lookup(migrations@[k].0@, #[trigger] found[k]),
            log.ran() == unrecorded_texts(migrations@.take(i as int), found),
        decreases migrations@.len() - i,
    {
        let filename = migrations[i].0.as_str();
        let sql = migrations[i].1.as_str();
        let lookup = embedded_lookup_statement(filename);
        let row = match fetch_first(conn, &lookup, 1) {
            Ok(row) => row,
            Err(e) => return Err(db_failure("check whether migration is already applied".to_owned(), e)),
        };
        let applied = row.is_some();
        proof {
            let t = lookup.params@[0]->Text_0;
            assert(lookup.params@ == seq![SqlParam::Text(t)]);
            assert(first_answered(embedded_lookup_sql(), seq![SqlParam::Text(t)], 1, row));
            assert(applied_by_lookup(filename@, applied));
        }
        if recorded_step(applied) == MigrationStep::Apply {
            let tx = match begin_transaction(conn) {
                Ok(tx) => tx,
                Err(e) => {
                    let ctx = concat3("begin transaction for migration `", filename, "`");
                    return Err(db_failure(ctx, e));
                },
            };
            {
                let c = transaction_connection(&tx);
                if let Err(e) = run_logged_batch(c, sql, &mut log) {
                    let ctx = concat3("apply migration `", filename, "`");
                    return Err(db_failure(ctx, e));
                }
                let st = record_statement(filename);
                if let Err(e) = run(c, &st) {
                    let ctx = concat3("record migration `", filename, "`");
                    return Err(db_failure(ctx, e));
                }
            }
            if let Err(e) = commit(tx) {
                let ctx = concat3("commit migration `", filename, "`");
                return Err(db_failure(ctx, e));
            }
        }
        proof {
            let pre = migrations@.take(i as int);
            let post = migrations@.take(i + 1);
            let fs = found.push(applied);
            assert(post.drop_last() =~= pre);
            assert(fs.drop_last() =~= found);
            assert(post.last() == migrations@[i as int]);
            found = fs;
        }
        i = i + 1;
    }
    proof {
        assert(migrations@.take(migrations@.len() as int) =~= migrations@);
    }
    Ok(log)
}

/// Applies each migration of `migrations` (file name and text) that is not
/// recorded yet, in the given order, each in its own transaction (see
/// `apply_embedded_migrations_logged` for which batches run, and in which
/// order). A failure is reported by the step that failed (as the simulator
/// shows it), such as ``"apply migration `0001_campaigns.sql`"``.
pub fn apply_embedded_migrations(conn: &mut rusqlite::Connection, migrations: &Vec<(String, String)>) -> (r:
    Result<(), DataError>)
    ensures
        fails_only_in_db(r),
{
    match apply_embedded_migrations_logged(conn, migrations) {
        Ok(_) => Ok(()),
        Err(e) => Err(e),
    }
}

/// The SHA-256 digest of the UTF-8 bytes of a text.
pub uninterp spec fn sha256_of_text(s: Seq<char>) -> Seq<u8>;

/// `sha2::Sha256::digest` of the UTF-8 bytes of `s`: 32 bytes that depend
/// on the text alone.
#[verifier::external_body]
fn sha256_digest(s: &str) -> (r: Vec<u8>)
    ensures
        r@ == sha256_of_text(s@),
        r@.len() == 32,
{
    sha2::Sha256::digest(s.as_bytes()).to_vec()
}

/// The lower-case hex digit of `n` (below 16).
pub open spec fn hex_digit(n: u8) -> char {
    if n < 10 {
        (48 + n) as char
    } else {
        (87 + n) as char
    }
}

/// Two lower-case hex digits per byte, most significant first.
pub open spec fn hex_text(b: Seq<u8>) -> Seq<char>
    decreases b.len(),
{
    if b.len() == 0 {
        Seq::empty()
    } else {
        hex_text(b.drop_last()) + seq![hex_digit(b.last() / 16), hex_digit(b.last() % 16)]
    }
}

proof fn lemma_hex_text_len(b: Seq<u8>)
    ensures
        hex_text(b).len() == 2 * b.len(),
    decreases b.len(),
{
    if b.len() > 0 {
        lemma_hex_text_len(b.drop_last());
    }
}

/// `hex::encode`: the bytes as lower-case hex text, two digits per byte.
#[verifier::external_body]
fn hex_encode(b: &Vec<u8>) -> (r: String)
    ensures
        r@ == hex_text(b@),
{
    hex::encode(b)
}

/// The SHA-256 of a text's UTF-8 bytes, as 64 lower-case hex digits.
pub fn sha256_hex(s: &str) -> (r: String)
    ensures
        r@ == hex_text(sha256_of_text(s@)),
        r@.len() == 64,
{
    let d = sha256_digest(s);
    proof {
        lemma_hex_text_len(d@);
    }
    hex_encode(&d)
}

/// What to do with a migration file given the hash recorded for it, if any.
#[derive(Debug, Clone, Copy, PartialEq, Eq, Structural)]
pub enum MigrationStep {
    /// Already applied with the same text.
    Skip,
    /// Not applied yet.
    Apply,
}

/// The error for a migration file that changed after it was applied.
pub open spec fn changed_msg(filename: Seq<char>, recorded: Seq<char>, sha: Seq<char>) -> Seq<char> {
    "migration "@ + filename + " was already applied but its contents changed (db sha256="@
        + recorded + ", file sha256="@ + sha + ")"@
}

/// Decides a migration file by whether it is recorded as applied: skip it
/// if it is, apply it otherwise.
pub fn recorded_step(applied: bool) -> (r: MigrationStep)
    ensures
        applied ==> r == MigrationStep::Skip,
        !applied ==> r == MigrationStep::Apply,
{
    if applied {
        MigrationStep::Skip
    } else {
        MigrationStep::Apply
    }
}

/// Decides a migration file by its hash: apply it if nothing is recorded,
/// skip it if the same hash is recorded, and refuse it if another hash is.
pub fn migration_step(filename: &str, recorded: Option<&str>, sha: &str) -> (r: Result<
    MigrationStep,
    DataError,
>)
    ensures
        match recorded {
            None => r == Ok::<MigrationStep, DataError>(MigrationStep::Apply),
            Some(e) => if e@ == sha@ {
                r == Ok::<MigrationStep, DataError>(MigrationStep::Skip)
            } else {
                r matches Err(err) && is_error(
                    err,
                    ErrorKind::Corrupt,
                    changed_msg(filename@, e@, sha@),
                )
            },
        },
{
    match recorded {
        None => Ok(MigrationStep::Apply),
        Some(e) => {
            if crate::text::str_eq(e, sha) {
                Ok(MigrationStep::Skip)
            } else {
                let a = concat3(
                    "migration ",
                    filename,
                    " was already applied but its contents changed (db sha256=",
                );
                let b = concat3(a.as_str(), e, ", file sha256=");
                Err(DataError::new(ErrorKind::Corrupt, concat3(b.as_str(), sha, ")")))
            }
        },
    }
}

/// The text of the query that reads the recorded SHA-256 of a migration.
pub open spec fn hash_lookup_sql() -> Seq<char> {
    "SELECT sha256 FROM schema_migrations WHERE filename = ?1"@
}

/// What a hash lookup that gave `row` says is recorded: nothing for no
/// row, otherwise the text of its first column.
pub open spec fn lookup_gave(row: Option<Vec<SqlValue>>, recorded: Option<Seq<char>>) -> bool {
    match row {
        None => recorded is None,
        Some(r) => col_text(r@[0]) matches Some(t) && recorded == Some(t@),
    }
}

/// `recorded` is what the hash lookup of migration `filename` gave.
pub open spec fn recorded_by_lookup(filename: Seq<char>, recorded: Option<Seq<char>>) -> bool {
    exists|row: Option<Vec<SqlValue>>, t: String|
        #![trigger first_answered(hash_lookup_sql(), seq![SqlParam::Text(t)], 1, row)]
        t@ == filename && first_answered(hash_lookup_sql(), seq![SqlParam::Text(t)], 1, row) && lookup_gave(
            row,
            recorded,
        )
}

/// The texts of the files of `files` whose lookup found nothing recorded
/// (`recorded`, file by file), in the order of `files`.
pub open spec fn pending_texts(files: Seq<(String, String)>, recorded: Seq<Option<Seq<char>>>) -> Seq<Seq<char>>
    decreases files.len(),
{
    if files.len() == 0 || recorded.len() != files.len() {
        Seq::empty()
    } else {
        let rest = pending_texts(files.drop_last(), recorded.drop_last());
        if recorded.last() is None {
            rest.push(files.last().1@)
        } else {
            rest
        }
    }
}

/// A run over `files` that found `recorded` (file by file) succeeds only if
/// every recorded hash is that of the file's text.
pub open spec fn hashes_agree(files: Seq<(String, String)>, recorded: Seq<Option<Seq<char>>>) -> bool {
    &&& recorded.len() == files.len()
    &&& forall|k: int| 0 <= k < files.len() ==> recorded_by_lookup(files[k].0@, #[trigger] recorded[k])
    &&& forall|k: int| 0 <= k < files.len() ==> (#[trigger] recorded[k] is None || recorded[k] == Some(
        hex_text(sha256_of_text(files[k].1@)),
    ))
}

/// Applies the migration files `files` (name and text, in order) that are
/// not recorded in `schema_migrations`, all in one transaction; a file
/// recorded with another hash stops everything with a `Corrupt` error. On
/// success it gives the log of the migration batches it ran: exactly the
/// texts of the files found unrecorded, in the order of `files`.
pub fn apply_hashed_migrations_logged(conn: &mut rusqlite::Connection, files: &Vec<(String, String)>) -> (r:
    Result<BatchLog, DataError>)
    ensures
        r matches Err(e) ==> (e.kind == ErrorKind::Db || e.kind == ErrorKind::Corrupt),
        r matches Ok(log) ==> exists|recorded: Seq<Option<Seq<char>>>| #[trigger] hashes_agree(files@, recorded)
            && log.ran() == pending_texts(files@, recorded),
{
    let tx = match begin_transaction(conn) {
        Ok(tx) => tx,
        Err(e) => return Err(db_error(e)),
    };
    let mut log = BatchLog::new();
    let ghost mut recorded_so_far: Seq<Option<Seq<char>>> = Seq::empty();
    proof {
        assert(files@.take(0) =~= Seq::<(String, String)>::empty());
    }
    {
        let c = transaction_connection(&tx);
        if let Err(e) = execute_batch(c, SCHEMA_MIGRATIONS_TABLE_SQL) {
            return Err(db_error(e));
        }
        let mut i: usize = 0;
        while i < files.len()
            invariant
                i <= files@.len(),
                hashes_agree(files@.take(i as int), recorded_so_far),
                log.ran() == pending_texts(files@.take(i as int), recorded_so_far),
            decreases files@.len() - i,
        {
            let filename = files[i].0.as_str();
            let sql = files[i].1.as_str();
            let sha = sha256_hex(sql);
            let lookup = hash_lookup_statement(filename);
            let found = match fetch_first(c, &lookup, 1) {
                Ok(found) => found,
                Err(e) => return Err(db_error(e)),
            };
            let recorded: Option<String> = match &found {
                Some(row) => match read_text(&row[0]) {
                    Some(t) => Some(t),
                    None => return Err(crate::db::bad_row("schema_migrations.sha256")),
                },
                None => None,
            };
            let ghost rec: Option<Seq<char>> = match &recorded {
                Some(t) => Some(t@),
                None => None,
            };
            proof {
                let t = lookup.params@[0]->Text_0;
                assert(lookup.params@ == seq![SqlParam::Text(t)]);
                assert(first_answered(hash_lookup_sql(), seq![SqlParam::Text(t)], 1, found));
                assert(lookup_gave(found, rec));
                assert(recorded_by_lookup(filename@, rec));
            }
            let step = match &recorded {
                Some(t) => migration_step(filename, Some(t.as_str()), sha.as_str()),
                None => migration_step(filename, None, sha.as_str()),
            };
            let ghost prev_log = log.ran();
            match step? {
                MigrationStep::Skip => {},
                MigrationStep::Apply => {
                    if let Err(e) = run_logged_batch(c, sql, &mut log) {
                        return Err(db_error(e));
                    }
                    let st = hashed_record_statement(filename, sha);
                    if let Err(e) = run(c, &st) {
                        return Err(db_error(e));
                    }
                },
            }
            proof {
                let pre = files@.take(i as int);
                let post = files@.take(i + 1);
                let rs = recorded_so_far.push(rec);
                assert(post.drop_last() =~= pre);
                assert(rs.drop_last() =~= recorded_so_far);
                assert(post.last() == files@[i as int]);
                assert forall|k: int| 0 <= k < post.len() implies recorded_by_lookup(
                    post[k].0@,
                    #[trigger] rs[k],
                ) by {
                    if k < i {
                        assert(post[k] == pre[k]);
                    }
                }
                assert forall|k: int| 0 <= k < post.len() implies (#[trigger] rs[k] is None || rs[k] == Some(
                    hex_text(sha256_of_text(post[k].1@)),
                )) by {
                    if k < i {
                        assert(post[k] == pre[k]);
                    }
                }
                recorded_so_far = rs;
            }
            i = i + 1;
        }
        proof {
            assert(files@.take(files@.len() as int) =~= files@);
        }
    }
    match commit(tx) {
        Ok(()) => Ok(log),
        Err(e) => Err(db_error(e)),
    }
}

/// Applies the migration files `files` (name and text, in order) that are
/// not recorded in `schema_migrations`, all in one transaction; a file
/// recorded with another hash stops everything with a `Corrupt` error (see
/// `apply_hashed_migrations_logged` for which batches run, and in which
/// order).
pub fn apply_hashed_migrations(conn: &mut rusqlite::Connection, files: &Vec<(String, String)>) -> (r:
    Result<(), DataError>)
    ensures
        r matches Err(e) ==> (e.kind == ErrorKind::Db || e.kind == ErrorKind::Corrupt),
{
    match apply_hashed_migrations_logged(conn, files) {
        Ok(_) => Ok(()),
        Err(e) => Err(e),
    }
}

} // verus!
