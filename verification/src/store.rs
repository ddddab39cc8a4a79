use crate::row::SqlValue;
use crate::sql::SqlParam;
use vstd::prelude::*;

verus! {

#[verifier::external_type_specification]
#[verifier::external_body]
pub struct ExConnection(rusqlite::Connection);

#[verifier::external_type_specification]
#[verifier::external_body]
pub struct ExStoreFailure(rusqlite::Error);

#[verifier::external_type_specification]
#[verifier::external_body]
pub struct ExPrepared<'conn>(rusqlite::Statement<'conn>);

#[verifier::external_type_specification]
#[verifier::external_body]
pub struct ExCursor<'stmt>(rusqlite::Rows<'stmt>);

#[verifier::external_type_specification]
#[verifier::external_body]
pub struct ExCursorRow<'stmt>(rusqlite::Row<'stmt>);

/// `rusqlite::Connection::open`. Whether the database at `location` can be
/// opened depends on the machine, so nothing is claimed of the result.
#[verifier::external_body]
pub(crate) fn open(location: &str) -> (opened: Result<rusqlite::Connection, rusqlite::Error>) {
    rusqlite::Connection::open(location)
}

/// `rusqlite::Connection::prepare`. Whether the store accepts the text
/// depends on its schema, so nothing is claimed of the result.
#[verifier::external_body]
pub(crate) fn prepare<'c>(conn: &'c rusqlite::Connection, sql: &str) -> (prepared: Result<
    rusqlite::Statement<'c>,
    rusqlite::Error,
>) {
    conn.prepare(sql)
}

/// `rusqlite::Statement::execute`, with the values bound in their order. It
/// returns the number of rows that the statement changed, which depends on
/// what the store holds, so nothing is claimed of the result.
#[verifier::external_body]
pub(crate) fn execute(stmt: &mut rusqlite::Statement<'_>, params: &Vec<SqlParam>) -> (changed:
    Result<usize, rusqlite::Error>) {
    stmt.execute(rusqlite::params_from_iter(params.iter().map(|param| match param {
        SqlParam::Null => rusqlite::types::Value::Null,
        SqlParam::Integer(i) => rusqlite::types::Value::Integer(*i),
        SqlParam::Text(text) => rusqlite::types::Value::Text(text.clone()),
    })))
}

/// `rusqlite::Statement::query`, with the values bound in their order. The
/// rows depend on what the store holds, so nothing is claimed of the result.
#[verifier::external_body]
pub(crate) fn query<'s>(stmt: &'s mut rusqlite::Statement<'_>, params: &Vec<SqlParam>) -> (rows:
    Result<rusqlite::Rows<'s>, rusqlite::Error>) {
    stmt.query(rusqlite::params_from_iter(params.iter().map(|param| match param {
        SqlParam::Null => rusqlite::types::Value::Null,
        SqlParam::Integer(i) => rusqlite::types::Value::Integer(*i),
        SqlParam::Text(text) => rusqlite::types::Value::Text(text.clone()),
    })))
}

/// `rusqlite::Rows::next`: the next row, or none when the rows are used up.
/// Which of the two depends on what the store holds, so nothing is claimed of
/// the result.
#[verifier::external_body]
pub(crate) fn next_row<'r, 's>(rows: &'r mut rusqlite::Rows<'s>) -> (row: Result<
    Option<&'r rusqlite::Row<'s>>,
    rusqlite::Error,
>) {
    rows.next()
}

/// `rusqlite::Row::get`, read as a `rusqlite::types::Value`: the value of the
/// column at `index`, which depends on what the store holds, so nothing is
/// claimed of the result. It fails where the row has no such column or where
/// a text is not valid UTF-8.
#[verifier::external_body]
pub(crate) fn column(row: &rusqlite::Row<'_>, index: usize) -> (value: Result<
    SqlValue,
    rusqlite::Error,
>) {
    row.get::<usize, rusqlite::types::Value>(index).map(|value| match value {
        rusqlite::types::Value::Null => SqlValue::Null,
        rusqlite::types::Value::Integer(i) => SqlValue::Integer(i),
        rusqlite::types::Value::Real(_) => SqlValue::Real,
        rusqlite::types::Value::Text(text) => SqlValue::Text(text),
        rusqlite::types::Value::Blob(bytes) => SqlValue::Blob(bytes),
    })
}

} // verus!
