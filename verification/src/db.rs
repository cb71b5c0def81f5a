//! The SQLite boundary: the `rusqlite` calls this library makes, and the
//! plain values it hands them and takes back.
//!
//! What a statement does depends on what is stored in the database file, so
//! the trusted items here promise nothing about the rows a query returns or
//! the number of rows a statement changed; the shape of what the query
//! functions hand back (one value per requested column) is proved here.

use vstd::prelude::*;
use crate::shared::{DataError, ErrorKind};

verus! {

#[verifier::external_type_specification]
#[verifier::external_body]
pub struct ExConnection(rusqlite::Connection);

#[verifier::external_type_specification]
#[verifier::external_body]
pub struct ExSqliteError(rusqlite::Error);

#[verifier::external_type_specification]
#[verifier::external_body]
pub struct ExSqliteValue(rusqlite::types::Value);

#[verifier::external_type_specification]
#[verifier::external_body]
pub struct ExSqliteRow<'stmt>(rusqlite::Row<'stmt>);

#[verifier::external_type_specification]
#[verifier::external_body]
pub struct ExSqliteTransaction<'conn>(rusqlite::Transaction<'conn>);

#[verifier::external_type_specification]
#[verifier::external_body]
pub struct ExSqliteStatement<'conn>(rusqlite::Statement<'conn>);

#[verifier::external_type_specification]
#[verifier::external_body]
pub struct ExSqliteRows<'stmt>(rusqlite::Rows<'stmt>);

/// A value bound to a statement parameter.
#[derive(Debug, Clone)]
pub enum SqlParam {
    Null,
    Integer(i64),
    Text(String),
}

/// A statement to run: its SQL text and the values bound to `?1`, `?2`, ….
#[derive(Debug, Clone)]
pub struct SqlStatement {
    pub sql: &'static str,
    pub params: Vec<SqlParam>,
}

/// A value read from a result column.
#[derive(Debug, Clone)]
pub enum SqlValue {
    Null,
    Integer(i64),
    /// A floating-point value; this library never reads its number.
    Real,
    Text(String),
    Blob(Vec<u8>),
}

/// The `rusqlite` value for a parameter: `rusqlite::types::Value` with the
/// same variant and payload.
#[verifier::external_body]
fn param_value(p: &SqlParam) -> rusqlite::types::Value {
    match p {
        SqlParam::Null => rusqlite::types::Value::Null,
        SqlParam::Integer(i) => rusqlite::types::Value::Integer(*i),
        SqlParam::Text(s) => rusqlite::types::Value::Text(s.clone()),
    }
}

/// Reads column `i` of a row through `rusqlite::Row::get_ref`; text is read
/// with `rusqlite::Row::get::<_, String>`, which fails on text that is not
/// UTF-8.
#[verifier::external_body]
fn column_value(row: &rusqlite::Row<'_>, i: usize) -> Result<SqlValue, rusqlite::Error> {
    match row.get_ref(i)? {
        rusqlite::types::ValueRef::Null => Ok(SqlValue::Null),
        rusqlite::types::ValueRef::Integer(n) => Ok(SqlValue::Integer(n)),
        rusqlite::types::ValueRef::Real(_) => Ok(SqlValue::Real),
        rusqlite::types::ValueRef::Text(_) => row.get::<_, String>(i).map(SqlValue::Text),
        rusqlite::types::ValueRef::Blob(b) => Ok(SqlValue::Blob(b.to_vec())),
    }
}

/// `rusqlite::Connection::execute`: runs one statement with the given
/// parameters and returns the number of rows it changed.
#[verifier::external_body]
fn execute(conn: &rusqlite::Connection, sql: &str, params: &Vec<SqlParam>) -> (r: Result<
    usize,
    rusqlite::Error,
>) {
    conn.execute(sql, rusqlite::params_from_iter(params.iter().map(param_value)))
}

/// `rusqlite::Connection::prepare`: compiles one statement.
#[verifier::external_body]
fn prepare<'c>(conn: &'c rusqlite::Connection, sql: &str) -> (r: Result<
    rusqlite::Statement<'c>,
    rusqlite::Error,
>) {
    conn.prepare(sql)
}

/// `rusqlite::Statement::query`: runs a prepared statement with the given
/// parameters and gives a cursor over the rows it returns.
#[verifier::external_body]
fn run_query<'s, 'c>(stmt: &'s mut rusqlite::Statement<'c>, params: &Vec<SqlParam>) -> (r: Result<
    rusqlite::Rows<'s>,
    rusqlite::Error,
>) {
    stmt.query(rusqlite::params_from_iter(params.iter().map(param_value)))
}

/// `rusqlite::Rows::next`: the next row of a cursor, or `None` at its end.
#[verifier::external_body]
fn next_row<'r, 's>(rows: &'r mut rusqlite::Rows<'s>) -> (r: Result<
    Option<&'r rusqlite::Row<'s>>,
    rusqlite::Error,
>) {
    rows.next()
}

/// Reads the first `columns` columns of a row.
fn read_row(row: &rusqlite::Row<'_>, columns: usize) -> (r: Result<Vec<SqlValue>, rusqlite::Error>)
    ensures
        r matches Ok(v) ==> v@.len() == columns,
{
    let mut out: Vec<SqlValue> = Vec::new();
    let mut i: usize = 0;
    while i < columns
        invariant
            i <= columns,
            out@.len() == i,
        decreases columns - i,
    {
        let v = column_value(row, i)?;
        out.push(v);
        i = i + 1;
    }
    Ok(out)
}

/// Runs a query and reads the first `columns` columns of every row it
/// returns, in the order SQLite returns them (at most `usize::MAX` rows,
/// more than memory can hold).
///
/// Every row that comes back has exactly `columns` values: a row with fewer
/// columns makes the read fail, and then the whole call fails.
fn query_rows(
    conn: &rusqlite::Connection,
    sql: &str,
    params: &Vec<SqlParam>,
    columns: usize,
) -> (r: Result<Vec<Vec<SqlValue>>, rusqlite::Error>)
    ensures
        r matches Ok(rows) ==> forall|i: int| 0 <= i < rows@.len() ==> #[trigger] rows@[i]@.len() == columns,
{
    let mut stmt = prepare(conn, sql)?;
    let mut rows = run_query(&mut stmt, params)?;
    let mut out: Vec<Vec<SqlValue>> = Vec::new();
    while out.len() < usize::MAX
        invariant
            forall|i: int| 0 <= i < out@.len() ==> #[trigger] out@[i]@.len() == columns,
        decreases usize::MAX - out@.len(),
    {
        match next_row(&mut rows) {
            Ok(Some(row)) => {
                let values = read_row(row, columns)?;
                out.push(values);
            },
            Ok(None) => break,
            Err(e) => return Err(e),
        }
    }
    Ok(out)
}

/// Like `rusqlite::Connection::query_row` followed by `optional()`: runs a
/// query and reads the first `columns` columns of its first row, or gives
/// `None` when the query returns no row.
fn query_first_row(
    conn: &rusqlite::Connection,
    sql: &str,
    params: &Vec<SqlParam>,
    columns: usize,
) -> (r: Result<Option<Vec<SqlValue>>, rusqlite::Error>)
    ensures
        r matches Ok(Some(row)) ==> row@.len() == columns,
{
    let mut stmt = prepare(conn, sql)?;
    let mut rows = run_query(&mut stmt, params)?;
    match next_row(&mut rows)? {
        Some(row) => Ok(Some(read_row(row, columns)?)),
        None => Ok(None),
    }
}

/// `params` is the one text parameter `s`.
pub open spec fn text_param(params: Seq<SqlParam>, s: Seq<char>) -> bool {
    params.len() == 1 && (params[0] matches SqlParam::Text(t) && t@ == s)
}

/// `row` is what running the query `sql` with `params` gave as its first
/// row (`None`: no row), read to `columns` values. Outside this module the
/// definition is hidden, so the fact is only had from `fetch_first`: it ties
/// a value to the query it came from.
pub closed spec fn first_answered(sql: Seq<char>, params: Seq<SqlParam>, columns: usize, row: Option<Vec<SqlValue>>) -> bool {
    row matches Some(r) ==> r@.len() == columns
}

/// `rows` are what running the query `sql` with `params` gave, each read to
/// `columns` values. Outside this module the definition is hidden, so the
/// fact is only had from `fetch_all`: it ties rows to the query they came
/// from.
pub closed spec fn answered(sql: Seq<char>, params: Seq<SqlParam>, columns: usize, rows: Seq<Vec<SqlValue>>) -> bool {
    forall|i: int| 0 <= i < rows.len() ==> #[trigger] rows[i]@.len() == columns
}

/// Runs the query `st` and reads its first row (see `query_first_row`).
pub fn fetch_first(conn: &rusqlite::Connection, st: &SqlStatement, columns: usize) -> (r: Result<
    Option<Vec<SqlValue>>,
    rusqlite::Error,
>)
    ensures
        r matches Ok(Some(row)) ==> row@.len() == columns,
        r matches Ok(row) ==> first_answered(st.sql@, st.params@, columns, row),
{
    query_first_row(conn, st.sql, &st.params, columns)
}

/// Runs the query `st` and reads all its rows (see `query_rows`).
pub fn fetch_all(conn: &rusqlite::Connection, st: &SqlStatement, columns: usize) -> (r: Result<
    Vec<Vec<SqlValue>>,
    rusqlite::Error,
>)
    ensures
        r matches Ok(rows) ==> forall|i: int| 0 <= i < rows@.len() ==> #[trigger] rows@[i]@.len() == columns,
        r matches Ok(rows) ==> answered(st.sql@, st.params@, columns, rows@),
{
    query_rows(conn, st.sql, &st.params, columns)
}

/// Runs `st` (see `execute`).
pub fn run(conn: &rusqlite::Connection, st: &SqlStatement) -> (r: Result<usize, rusqlite::Error>) {
    execute(conn, st.sql, &st.params)
}

/// `rusqlite::Connection::execute_batch`: runs a sequence of statements.
#[verifier::external_body]
pub(crate) fn execute_batch(conn: &rusqlite::Connection, sql: &str) -> (r: Result<(), rusqlite::Error>) {
    conn.execute_batch(sql)
}

/// The SQL batches run through `run_logged_batch`, in the order they ran.
/// Its field is private: a log only grows by a batch that ran.
pub struct BatchLog {
    texts: Vec<String>,
}

impl BatchLog {
    /// The texts of the batches that ran, oldest first.
    pub closed spec fn ran(&self) -> Seq<Seq<char>> {
        self.texts@.map_values(|t: String| t@)
    }

    /// A log of no batches.
    pub fn new() -> (r: BatchLog)
        ensures
            r.ran() == Seq::<Seq<char>>::empty(),
    {
        let r = BatchLog { texts: Vec::new() };
        assert(r.ran() =~= Seq::<Seq<char>>::empty());
        r
    }

    /// The texts of the batches that ran, oldest first.
    pub fn batches(&self) -> (r: Vec<String>)
        ensures
            r@.map_values(|t: String| t@) == self.ran(),
    {
        self.texts.clone()
    }
}

/// Runs the batch `sql` (see `execute_batch`); when it succeeds, it is added
/// at the end of `log`, and otherwise `log` is unchanged.
pub fn run_logged_batch(conn: &rusqlite::Connection, sql: &str, log: &mut BatchLog) -> (r: Result<
    (),
    rusqlite::Error,
>)
    ensures
        r is Ok ==> final(log).ran() == old(log).ran().push(sql@),
        r is Err ==> final(log).ran() == old(log).ran(),
{
    let r = execute_batch(conn, sql);
    if r.is_ok() {
        log.texts.push(sql.to_owned());
        assert(log.ran() =~= old(log).ran().push(sql@));
    }
    r
}

/// `rusqlite::Connection::last_insert_rowid`: the rowid of the most recent
/// successful `INSERT` on this connection.
#[verifier::external_body]
pub(crate) fn last_insert_rowid(conn: &rusqlite::Connection) -> (r: i64) {
    conn.last_insert_rowid()
}

/// `rusqlite::Connection::transaction`: begins a (deferred) transaction,
/// which rolls back when it is dropped without a commit.
#[verifier::external_body]
pub(crate) fn begin_transaction<'a>(conn: &'a mut rusqlite::Connection) -> (r: Result<
    rusqlite::Transaction<'a>,
    rusqlite::Error,
>) {
    conn.transaction()
}

/// The connection a transaction runs on (`Deref` of `rusqlite::Transaction`).
#[verifier::external_body]
pub(crate) fn transaction_connection<'a, 'b>(tx: &'b rusqlite::Transaction<'a>) -> (r:
    &'b rusqlite::Connection) {
    tx
}

/// `rusqlite::Transaction::commit`.
#[verifier::external_body]
pub(crate) fn commit(tx: rusqlite::Transaction<'_>) -> (r: Result<(), rusqlite::Error>) {
    tx.commit()
}

/// The text of a `rusqlite::Error` (its `Display`).
#[verifier::external_body]
fn sqlite_error_text(e: &rusqlite::Error) -> String {
    e.to_string()
}

/// The library error for a failed SQLite call.
pub fn db_error(e: rusqlite::Error) -> (r: DataError)
    ensures
        r.kind == ErrorKind::Db,
{
    DataError::new(ErrorKind::Db, sqlite_error_text(&e))
}

/// A failed SQLite call with context `ctx`: the message is `ctx` and the
/// SQLite error's text is the cause.
pub fn db_failure(ctx: String, e: rusqlite::Error) -> (r: DataError)
    ensures
        r.kind == ErrorKind::Db,
        r.message == ctx,
        r.cause is Some,
{
    DataError::with_cause(ErrorKind::Db, ctx, sqlite_error_text(&e))
}

// ---- reading columns -------------------------------------------------------

/// The integer in a column, as `i64: FromSql` reads it.
pub open spec fn col_i64(v: SqlValue) -> Option<i64> {
    match v {
        SqlValue::Integer(i) => Some(i),
        _ => None,
    }
}

/// The text in a column, as `String: FromSql` reads it.
pub open spec fn col_text(v: SqlValue) -> Option<String> {
    match v {
        SqlValue::Text(s) => Some(s),
        _ => None,
    }
}

/// An integer column that may be `NULL`.
pub open spec fn col_opt_i64(v: SqlValue) -> Option<Option<i64>> {
    match v {
        SqlValue::Null => Some(None),
        SqlValue::Integer(i) => Some(Some(i)),
        _ => None,
    }
}

/// A text column that may be `NULL`.
pub open spec fn col_opt_text(v: SqlValue) -> Option<Option<String>> {
    match v {
        SqlValue::Null => Some(None),
        SqlValue::Text(s) => Some(Some(s)),
        _ => None,
    }
}

/// An `i32` column, as `i32: FromSql` reads it (out-of-range integers fail).
pub open spec fn col_i32(v: SqlValue) -> Option<i32> {
    match v {
        SqlValue::Integer(i) => if i32::MIN <= i && i <= i32::MAX {
            Some(i as i32)
        } else {
            None
        },
        _ => None,
    }
}

/// A boolean column, as `bool: FromSql` reads it (non-zero is `true`).
pub open spec fn col_bool(v: SqlValue) -> Option<bool> {
    match v {
        SqlValue::Integer(i) => Some(i != 0),
        _ => None,
    }
}

pub fn read_i64(v: &SqlValue) -> (r: Option<i64>)
    ensures
        r == col_i64(*v),
{
    match v {
        SqlValue::Integer(i) => Some(*i),
        _ => None,
    }
}

pub fn read_text(v: &SqlValue) -> (r: Option<String>)
    ensures
        r == col_text(*v),
{
    match v {
        SqlValue::Text(s) => Some(s.clone()),
        _ => None,
    }
}

pub fn read_opt_i64(v: &SqlValue) -> (r: Option<Option<i64>>)
    ensures
        r == col_opt_i64(*v),
{
    match v {
        SqlValue::Null => Some(None),
        SqlValue::Integer(i) => Some(Some(*i)),
        _ => None,
    }
}

pub fn read_opt_text(v: &SqlValue) -> (r: Option<Option<String>>)
    ensures
        r == col_opt_text(*v),
{
    match v {
        SqlValue::Null => Some(None),
        SqlValue::Text(s) => Some(Some(s.clone())),
        _ => None,
    }
}

pub fn read_i32(v: &SqlValue) -> (r: Option<i32>)
    ensures
        r == col_i32(*v),
{
    match v {
        SqlValue::Integer(i) => if -2147483648 <= *i && *i <= 2147483647 {
            Some(*i as i32)
        } else {
            None
        },
        _ => None,
    }
}

pub fn read_bool(v: &SqlValue) -> (r: Option<bool>)
    ensures
        r == col_bool(*v),
{
    match v {
        SqlValue::Integer(i) => Some(*i != 0),
        _ => None,
    }
}

/// The error for a row whose columns do not hold what the query selects.
pub fn bad_row(what: &str) -> (r: DataError)
    ensures
        r.kind == ErrorKind::Db,
{
    DataError::new(ErrorKind::Db, crate::shared::concat2("Invalid column value in ", what))
}

} // verus!
