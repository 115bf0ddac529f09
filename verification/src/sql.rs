//! The trusted boundary to the storage engine.
//!
//! Everything the library asks of rusqlite goes through the three wrappers
//! here, which exchange plain values only.  What a statement does to the
//! stored data depends on that data, so the wrappers promise nothing about
//! it; the entity code states its own guarantees over the values it hands
//! in and gets back.

use vstd::prelude::*;

verus! {

/// A plain value bound into, or read out of, one column of a storage row.
#[derive(Debug, PartialEq, Eq)]
pub enum SqlValue {
    Int(i64),
    Text(String),
}

/// A failure surfaced by the persistence layer.
#[derive(Debug)]
pub enum DbError {
    /// The storage engine refused the statement.
    Storage(rusqlite::Error),
    /// A row came back with a shape the entity does not recognise.
    RowShape,
}

#[verifier::external_type_specification]
#[verifier::external_body]
pub struct ExConnection(rusqlite::Connection);

#[verifier::external_type_specification]
#[verifier::external_body]
pub struct ExRusqliteError(rusqlite::Error);

/// Relies on rusqlite's `Connection::execute`: runs one SQL statement with
/// the given positional parameters.  Whether it succeeds, and how many rows
/// it touches, depends on the stored data, so nothing is promised of the
/// outcome.
#[verifier::external_body]
pub(crate) fn exec_sql(conn: &rusqlite::Connection, sql: &str, params: &Vec<SqlValue>) -> (r: Result<
    usize,
    rusqlite::Error,
>) {
    conn.execute(
        sql,
        rusqlite::params_from_iter(params.iter().map(|v| match v {
            SqlValue::Int(i) => rusqlite::types::Value::Integer(*i),
            SqlValue::Text(s) => rusqlite::types::Value::Text(s.clone()),
        })),
    )
}

/// Relies on rusqlite's `Connection::query_row`: runs the statement with the
/// identifier bound to its single placeholder, reads the first resulting row,
/// and hands back its first `ncols` columns as plain values.  Which row comes
/// back, if any, depends on the stored data; a column holding anything but an
/// integer or a text is refused.
#[verifier::external_body]
pub(crate) fn query_row_by_id(
    conn: &rusqlite::Connection,
    sql: &str,
    id: i64,
    ncols: usize,
) -> (r: Result<Vec<SqlValue>, rusqlite::Error>)
    ensures
        r matches Ok(vals) ==> vals@.len() == ncols,
{
    conn.query_row(sql, (id,), |row| {
        let mut vals: Vec<SqlValue> = Vec::new();
        for i in 0..ncols {
            match row.get::<usize, rusqlite::types::Value>(i)? {
                rusqlite::types::Value::Integer(n) => vals.push(SqlValue::Int(n)),
                rusqlite::types::Value::Text(s) => vals.push(SqlValue::Text(s)),
                _ => return Err(rusqlite::Error::InvalidQuery),
            }
        }
        Ok(vals)
    })
}

/// Relies on rusqlite's `Connection::last_insert_rowid`: the row identifier
/// assigned by the most recent successful insert on this connection.  The
/// value depends on the connection's history, so nothing is promised of it.
#[verifier::external_body]
pub(crate) fn last_insert_rowid(conn: &rusqlite::Connection) -> i64 {
    conn.last_insert_rowid()
}

} // verus!
