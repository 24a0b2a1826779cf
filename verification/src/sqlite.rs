//! The parts of `sqlx` that rows of a SQLite database are read with.
use sqlx::sqlite::SqliteRow;
use sqlx::Row;
use vstd::prelude::*;

verus! {

/// `sqlx::sqlite::SqliteRow`: a row that a query on a SQLite database returned.
#[verifier::external_type_specification]
#[verifier::external_body]
pub struct ExSqliteRow(sqlx::sqlite::SqliteRow);

/// A value that a row of a SQLite database holds.
pub enum SqliteCell {
    Null,
    Integer(i64),
    Text(Seq<char>),
    /// A real number, a blob, a text that is not valid UTF-8, or an integer that was lent out as
    /// borrowed text or bytes, which can no longer be read as an integer.
    Other,
}

/// The values that a row holds, by column name.
pub uninterp spec fn sqlite_cells(row: SqliteRow) -> Map<Seq<char>, SqliteCell>;

/// `Row::try_get::<Option<i64>>` reads a column that the row has and whose value is an integer or
/// null. Nothing is stated of the error that any other column gives.
#[verifier::external_body]
pub(crate) fn sqlite_integer_cell(row: &SqliteRow, column: &str) -> (result: Result<
    Option<i64>,
    sqlx::Error,
>)
    ensures
        match result {
            Ok(Some(value)) => sqlite_cells(*row).contains_pair(column@, SqliteCell::Integer(value)),
            Ok(None) => sqlite_cells(*row).contains_pair(column@, SqliteCell::Null),
            Err(_) => !(sqlite_cells(*row).contains_key(column@) && (sqlite_cells(
                *row,
            )[column@] is Integer || sqlite_cells(*row)[column@] is Null)),
        },
{
    row.try_get::<Option<i64>, _>(column)
}

/// `Row::try_get::<Option<String>>` reads a column that the row has and whose value is a text or
/// null. Nothing is stated of the error that any other column gives.
#[verifier::external_body]
pub(crate) fn sqlite_text_cell(row: &SqliteRow, column: &str) -> (result: Result<
    Option<String>,
    sqlx::Error,
>)
    ensures
        match result {
            Ok(Some(value)) => sqlite_cells(*row).contains_pair(column@, SqliteCell::Text(value@)),
            Ok(None) => sqlite_cells(*row).contains_pair(column@, SqliteCell::Null),
            Err(_) => !(sqlite_cells(*row).contains_key(column@) && (sqlite_cells(
                *row,
            )[column@] is Text || sqlite_cells(*row)[column@] is Null)),
        },
{
    row.try_get::<Option<String>, _>(column)
}

/// `Row::try_get::<String>` reads a column that the row has and whose value is a text or null; a
/// null is read as the empty text. Nothing is stated of the error that any other column gives.
#[verifier::external_body]
pub(crate) fn sqlite_required_text(row: &SqliteRow, column: &str) -> (result: Result<
    String,
    sqlx::Error,
>)
    ensures
        match result {
            Ok(value) => sqlite_cells(*row).contains_pair(column@, SqliteCell::Text(value@)) || (
            sqlite_cells(*row).contains_pair(column@, SqliteCell::Null) && value@.len() == 0),
            Err(_) => !(sqlite_cells(*row).contains_key(column@) && (sqlite_cells(
                *row,
            )[column@] is Text || sqlite_cells(*row)[column@] is Null)),
        },
{
    row.try_get::<String, _>(column)
}

} // verus!
