//! What the library takes on trust about the crates it is used with:
//! `sqlx`, whose errors, results and rows pass through it, and `http`, whose
//! status codes it answers with. Nothing here is proved. The types are
//! opaque; what the library needs to know of a value is a function without
//! a body that names it, said by the contract of the call that reads it.

use axum::http::StatusCode;
use sqlx::sqlite::{SqliteQueryResult, SqliteRow};
use sqlx::Row;
use vstd::prelude::*;

verus! {

/// The error type of `sqlx`, carried through without looking inside.
#[verifier::external_type_specification]
#[verifier::external_body]
pub struct ExSqlxError(sqlx::Error);

/// The status code type of `http`, as `axum` hands it on.
#[verifier::external_type_specification]
#[verifier::external_body]
pub struct ExStatusCode(axum::http::StatusCode);

/// Whether a `sqlx::Error` is its `RowNotFound` variant.
pub uninterp spec fn row_not_found(error: sqlx::Error) -> bool;

/// Tells `sqlx::Error::RowNotFound` from the other variants of the enum.
#[verifier::external_body]
pub(crate) fn is_row_not_found(error: &sqlx::Error) -> (found: bool)
    ensures
        found == row_not_found(*error),
{
    matches!(error, sqlx::Error::RowNotFound)
}

/// What `sqlx` reports of a statement that SQLite has run.
#[verifier::external_type_specification]
#[verifier::external_body]
pub struct ExSqliteQueryResult(sqlx::sqlite::SqliteQueryResult);

/// A row that SQLite has returned, as `sqlx` holds it.
#[verifier::external_type_specification]
#[verifier::external_body]
pub struct ExSqliteRow(sqlx::sqlite::SqliteRow);

/// How many rows the statement changed: what
/// `SqliteQueryResult::rows_affected` gives.
pub uninterp spec fn changed_rows(done: SqliteQueryResult) -> u64;

/// The identifier of the row that was inserted last: what
/// `SqliteQueryResult::last_insert_rowid` gives.
pub uninterp spec fn inserted_rowid(done: SqliteQueryResult) -> i64;

/// `SqliteQueryResult::rows_affected` reads the count out of the result.
pub assume_specification[ SqliteQueryResult::rows_affected ](done: &SqliteQueryResult) -> (rows:
    u64)
    ensures
        rows == changed_rows(*done),
;

/// `SqliteQueryResult::last_insert_rowid` reads the identifier out of the
/// result.
pub assume_specification[ SqliteQueryResult::last_insert_rowid ](done: &SqliteQueryResult) -> (rowid:
    i64)
    ensures
        rowid == inserted_rowid(*done),
;

/// What `Row::try_get` gives for a column of a `SqliteRow` that is read as
/// an `i64`: the number, or why the column could not be read.
pub uninterp spec fn integer_column(row: SqliteRow, column: Seq<char>) -> Result<i64, sqlx::Error>;

/// What `Row::try_get` gives for a column of a `SqliteRow` that is read as
/// a `String`: the text, or why the column could not be read.
pub uninterp spec fn text_column(row: SqliteRow, column: Seq<char>) -> Result<
    Seq<char>,
    sqlx::Error,
>;

/// `Row::try_get` on a `SqliteRow`, for a column read by name as an `i64`.
/// What it gives depends on the row and the name alone.
#[verifier::external_body]
pub(crate) fn get_integer(row: &SqliteRow, column: &str) -> (value: Result<i64, sqlx::Error>)
    ensures
        value == integer_column(*row, column@),
{
    row.try_get(column)
}

/// `Row::try_get` on a `SqliteRow`, for a column read by name as a
/// `String`. What it gives depends on the row and the name alone. (It would
/// panic only if SQLite gave a text a negative length.)
#[verifier::external_body]
pub(crate) fn get_text(row: &SqliteRow, column: &str) -> (value: Result<String, sqlx::Error>)
    ensures
        match value {
            Ok(text) => text_column(*row, column@) == Ok::<Seq<char>, sqlx::Error>(text@),
            Err(error) => text_column(*row, column@) == Err::<Seq<char>, sqlx::Error>(error),
        },
{
    row.try_get(column)
}

/// The number a status code stands for: what `StatusCode::as_u16` gives.
pub uninterp spec fn status_number(status: StatusCode) -> u16;

/// `StatusCode::from_u16`, which accepts the numbers from 100 to 999 and
/// gives the status code that stands for the number.
#[verifier::external_body]
pub(crate) fn status_code(number: u16) -> (status: StatusCode)
    requires
        100 <= number <= 999,
    ensures
        status_number(status) == number,
{
    StatusCode::from_u16(number).expect("a number from 100 to 999")
}

} // verus!
