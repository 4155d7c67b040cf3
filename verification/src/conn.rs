use vstd::prelude::*;
use rusqlite::types::Value;
use crate::db::{ClipEntry, StoreError};

verus! {

/// `rusqlite::Connection`, an open SQLite database; opaque here.
#[verifier::external_type_specification]
#[verifier::external_body]
pub struct ExConnection(rusqlite::Connection);

/// `rusqlite::Error`, a failed SQLite call; opaque here.
#[verifier::external_type_specification]
#[verifier::external_body]
pub struct ExSqlError(rusqlite::Error);

/// `rusqlite::Row`, one row of a query's result; opaque here.
#[verifier::external_type_specification]
#[verifier::external_body]
pub struct ExRow<'stmt>(rusqlite::Row<'stmt>);

/// A value bound to a `?N` parameter of an SQL statement.
pub enum SqlParam {
    Int(i64),
    Text(String),
    Null,
}

/// A parameter value as the database receives it.
pub enum SqlValue {
    Int(i64),
    Text(Seq<char>),
    Null,
}

/// The value that a parameter binds.
pub open spec fn sql_value(p: SqlParam) -> SqlValue {
    match p {
        SqlParam::Int(v) => SqlValue::Int(v),
        SqlParam::Text(s) => SqlValue::Text(s@),
        SqlParam::Null => SqlValue::Null,
    }
}

/// The values that a list of parameters binds.
pub open spec fn sql_values(ps: Seq<SqlParam>) -> Seq<SqlValue> {
    ps.map_values(|p: SqlParam| sql_value(p))
}

/// What the database answered to one request.
pub enum Answer {
    /// The statements ran.
    Done(Result<(), StoreError>),
    /// A statement ran and changed this many rows.
    Changed(Result<usize, StoreError>),
    /// A query's first row held this integer.
    Id(Result<i64, StoreError>),
    /// A query's first row was this entry.
    Entry(Result<ClipEntry, StoreError>),
    /// A query's rows were these entries.
    Entries(Result<Seq<ClipEntry>, StoreError>),
    /// The id of the row added last.
    Rowid(i64),
}

/// One request made of the database: the SQL, the parameters bound to it, and the answer that
/// came back.
pub struct DbCall {
    pub sql: Seq<char>,
    pub params: Seq<SqlValue>,
    pub answer: Answer,
}

/// The answer to a query for entries, as the record keeps it.
pub open spec fn entries_answer(r: Result<Vec<ClipEntry>, StoreError>) -> Answer {
    match r {
        Ok(v) => Answer::Entries(Ok(v@)),
        Err(e) => Answer::Entries(Err(e)),
    }
}

/// The rows of a query for entries, if it succeeded.
pub open spec fn answered_entries(a: Answer) -> Option<Seq<ClipEntry>> {
    match a {
        Answer::Entries(Ok(v)) => Some(v),
        _ => None,
    }
}

/// A value read from the first row of a query, and how the record keeps the answer.
pub trait RowValue: Sized {
    spec fn answer_of(r: Result<Self, StoreError>) -> Answer;
}

impl RowValue for i64 {
    open spec fn answer_of(r: Result<i64, StoreError>) -> Answer {
        Answer::Id(r)
    }
}

impl RowValue for ClipEntry {
    open spec fn answer_of(r: Result<ClipEntry, StoreError>) -> Answer {
        Answer::Entry(r)
    }
}

/// `rusqlite::Row::get`: the value of column `idx` of a result row, converted to `T`; it depends
/// on the database, so nothing is stated of it.
#[verifier::external_body]
fn row_get<T: rusqlite::types::FromSql>(row: &rusqlite::Row<'_>, idx: usize) -> (r: Result<T, rusqlite::Error>) {
    row.get(idx)
}

/// The first column of a row, as an integer.
pub(crate) fn read_first_i64(row: &rusqlite::Row<'_>) -> (r: Result<i64, rusqlite::Error>) {
    row_get(row, 0)
}

/// A row of the `clips` table (id, content, hash, timestamp, app name) as an entry.
pub(crate) fn read_clip(row: &rusqlite::Row<'_>) -> (r: Result<ClipEntry, rusqlite::Error>) {
    let id: i64 = row_get(row, 0)?;
    let content: String = row_get(row, 1)?;
    let hash: String = row_get(row, 2)?;
    let timestamp: i64 = row_get(row, 3)?;
    let app_name: Option<String> = row_get(row, 4)?;
    Ok(ClipEntry { id, content, hash, timestamp, app_name })
}

/// An open SQLite database, the path it was opened at, and the record of every request made of
/// it through this value, oldest first, with the answers. Only the calls below, each of which
/// makes its request of SQLite, add to the record.
///
/// A failed call gives `StoreError::NoRows` for `rusqlite::Error::QueryReturnedNoRows` and
/// otherwise `StoreError::Sqlite` with the text of the error's `Display`; which error comes back
/// depends on the database and is not stated.
pub struct Db {
    conn: rusqlite::Connection,
    path: Ghost<Seq<char>>,
    log: Ghost<Seq<DbCall>>,
}

impl Db {
    /// The path the database was opened at.
    pub closed spec fn path(&self) -> Seq<char> {
        self.path@
    }

    /// The requests made of the database, oldest first, with their answers.
    pub closed spec fn calls(&self) -> Seq<DbCall> {
        self.log@
    }

    /// `rusqlite::Connection::open`: opens (creating when missing) the database at `path`.
    /// Whether that succeeds depends on the file system; an opened database has this path and
    /// no requests yet.
    #[verifier::external_body]
    pub(crate) fn open(path: &str) -> (r: Result<Db, StoreError>)
        ensures
            r matches Ok(d) ==> d.path() == path@ && d.calls() == Seq::<DbCall>::empty(),
    {
        match rusqlite::Connection::open(path) {
            Ok(conn) => Ok(Db { conn, path: Ghost(path@), log: Ghost(Seq::empty()) }),
            Err(e) => Err(StoreError::Sqlite(e.to_string())),
        }
    }

    /// `rusqlite::Connection::execute_batch`: runs the SQL statements in `sql`; the record gains
    /// the request and its answer.
    #[verifier::external_body]
    pub(crate) fn execute_batch(&mut self, sql: &str) -> (r: Result<(), StoreError>)
        ensures
            final(self).path() == old(self).path(),
            final(self).calls() == old(self).calls().push(
                DbCall { sql: sql@, params: Seq::empty(), answer: Answer::Done(r) },
            ),
    {
        match self.conn.execute_batch(sql) {
            Ok(()) => Ok(()),
            Err(e) => Err(StoreError::Sqlite(e.to_string())),
        }
    }

    /// `rusqlite::Connection::execute`: runs one statement with `params` bound to `?1, ?2, ...`
    /// and gives the number of rows it changed; the record gains the request and its answer.
    #[verifier::external_body]
    pub(crate) fn execute(&mut self, sql: &str, params: &[SqlParam]) -> (r: Result<usize, StoreError>)
        ensures
            final(self).path() == old(self).path(),
            final(self).calls() == old(self).calls().push(
                DbCall { sql: sql@, params: sql_values(params@), answer: Answer::Changed(r) },
            ),
    {
        let values = params.iter().map(|p| match p {
            SqlParam::Int(v) => Value::Integer(*v),
            SqlParam::Text(s) => Value::Text(s.clone()),
            SqlParam::Null => Value::Null,
        });
        match self.conn.execute(sql, rusqlite::params_from_iter(values)) {
            Ok(n) => Ok(n),
            Err(e) => Err(StoreError::Sqlite(e.to_string())),
        }
    }

    /// `rusqlite::Connection::query_row`: runs a query with `params` bound and reads its first
    /// row with `read`; the record gains the request and its answer.
    #[verifier::external_body]
    pub(crate) fn query_row<T: RowValue, F: FnOnce(&rusqlite::Row<'_>) -> Result<T, rusqlite::Error>>(
        &mut self,
        sql: &str,
        params: &[SqlParam],
        read: F,
    ) -> (r: Result<T, StoreError>)
        ensures
            final(self).path() == old(self).path(),
            final(self).calls() == old(self).calls().push(
                DbCall { sql: sql@, params: sql_values(params@), answer: T::answer_of(r) },
            ),
    {
        let values = params.iter().map(|p| match p {
            SqlParam::Int(v) => Value::Integer(*v),
            SqlParam::Text(s) => Value::Text(s.clone()),
            SqlParam::Null => Value::Null,
        });
        match self.conn.query_row(sql, rusqlite::params_from_iter(values), read) {
            Ok(v) => Ok(v),
            Err(rusqlite::Error::QueryReturnedNoRows) => Err(StoreError::NoRows),
            Err(e) => Err(StoreError::Sqlite(e.to_string())),
        }
    }

    /// `rusqlite::Connection::prepare` of `sql`, then `rusqlite::Statement::query_map` with
    /// `params` bound, each row read as an entry and the rows collected; the record gains the
    /// request and its answer.
    #[verifier::external_body]
    pub(crate) fn query_entries(&mut self, sql: &str, params: &[SqlParam]) -> (r: Result<Vec<ClipEntry>, StoreError>)
        ensures
            final(self).path() == old(self).path(),
            final(self).calls() == old(self).calls().push(
                DbCall { sql: sql@, params: sql_values(params@), answer: entries_answer(r) },
            ),
    {
        let values = params.iter().map(|p| match p {
            SqlParam::Int(v) => Value::Integer(*v),
            SqlParam::Text(s) => Value::Text(s.clone()),
            SqlParam::Null => Value::Null,
        });
        let rows = match self.conn.prepare(sql) {
            Ok(mut stmt) => stmt.query_map(rusqlite::params_from_iter(values), read_clip).and_then(|rows| rows.collect()),
            Err(e) => Err(e),
        };
        rows.map_err(|e| StoreError::Sqlite(e.to_string()))
    }

    /// `rusqlite::Connection::last_insert_rowid`: the rowid of the most recent successful
    /// `INSERT` on this connection; the record gains it.
    #[verifier::external_body]
    pub(crate) fn last_insert_rowid(&mut self) -> (r: i64)
        ensures
            final(self).path() == old(self).path(),
            final(self).calls() == old(self).calls().push(
                DbCall { sql: Seq::empty(), params: Seq::empty(), answer: Answer::Rowid(r) },
            ),
    {
        self.conn.last_insert_rowid()
    }
}

} // verus!
