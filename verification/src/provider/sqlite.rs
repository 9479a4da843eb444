//! What the SQLite provider computes around the statements it runs: the
//! statements themselves, what their results are reported as, and the
//! records the rows stand for.

use sqlx::sqlite::{SqliteQueryResult, SqliteRow};
use vstd::prelude::*;

use crate::model::{LineItemDetails, ProductDetails, ProductDetailsView, Record, ToRecord};
use crate::service::fulfillment::{spec_transition_outcome, transition_outcome};
use crate::service::line_item::{admission_outcome, spec_admission_outcome};
use crate::service::{outcome_view, ServiceError, ServiceErrorView};
use crate::trusted::{
    changed_rows, get_integer, get_text, inserted_rowid, integer_column, text_column,
};

pub mod sql_stmt;

verus! {

/// The identifier of the row that an insert has added.
pub fn created(done: &SqliteQueryResult) -> (id: i64)
    ensures
        id == inserted_rowid(*done),
{
    done.last_insert_rowid()
}

/// What the statement of [`sql_stmt::set_status`] is reported as, once it
/// has run.
pub fn status_set(done: &SqliteQueryResult) -> (outcome: Result<(), ServiceError>)
    ensures
        outcome_view(outcome) == spec_transition_outcome(changed_rows(*done)),
{
    transition_outcome(done.rows_affected())
}

/// What [`sql_stmt::INSERT_LINE_ITEM`] is reported as, once it has run for
/// the fulfillment under `fulfillment_id`.
pub fn line_item_created(done: &SqliteQueryResult, fulfillment_id: i64) -> (outcome: Result<
    i64,
    ServiceError,
>)
    ensures
        outcome_view(outcome) == spec_admission_outcome(
            changed_rows(*done),
            inserted_rowid(*done),
            fulfillment_id,
        ),
{
    admission_outcome(done.rows_affected(), done.last_insert_rowid(), fulfillment_id)
}

/// The line item a row stands for, or the first of its columns that cannot
/// be read. The columns are read in the order product, fulfillment,
/// quantity; nothing of a line item that is read back counts as fulfilled.
pub open spec fn line_item_columns(row: SqliteRow) -> Result<LineItemDetails, sqlx::Error> {
    match integer_column(row, "productId"@) {
        Err(failure) => Err(failure),
        Ok(product_id) => match integer_column(row, "fulfillmentId"@) {
            Err(failure) => Err(failure),
            Ok(fulfillment_id) => match integer_column(row, "quantity"@) {
                Err(failure) => Err(failure),
                Ok(quantity) => Ok(
                    LineItemDetails { product_id, fulfillment_id, quantity, quantity_fulfilled: 0 },
                ),
            },
        },
    }
}

/// Whether `decoded` is what reading a row gave: the value that stands for
/// the columns where they could be read, and else the failure to read,
/// reported as the service reports failures of the storage.
pub open spec fn decodes<T, V>(
    decoded: Result<T, ServiceError>,
    read: Result<V, sqlx::Error>,
    stands_for: spec_fn(T, V) -> bool,
) -> bool {
    match (decoded, read) {
        (Ok(value), Ok(columns)) => stands_for(value, columns),
        (Err(error), Err(failure)) => error.reports(failure),
        _ => false,
    }
}

/// The details of the line item that a row stands for.
fn line_item_details(row: &SqliteRow) -> (decoded: Result<LineItemDetails, ServiceError>)
    ensures
        decodes(
            decoded,
            line_item_columns(*row),
            |details: LineItemDetails, columns: LineItemDetails| details == columns,
        ),
{
    let product_id = match get_integer(row, "productId") {
        Ok(value) => value,
        Err(failure) => {
            return Err(ServiceError::from(failure));
        },
    };
    let fulfillment_id = match get_integer(row, "fulfillmentId") {
        Ok(value) => value,
        Err(failure) => {
            return Err(ServiceError::from(failure));
        },
    };
    let quantity = match get_integer(row, "quantity") {
        Ok(value) => value,
        Err(failure) => {
            return Err(ServiceError::from(failure));
        },
    };
    Ok(LineItemDetails { product_id, fulfillment_id, quantity, quantity_fulfilled: 0 })
}

/// The answer to a lookup of the line item under `id`, by the row that was
/// found, if one was: no row is no line item, and no error.
pub fn line_item_found(found: &Option<SqliteRow>, id: i64) -> (answer: Result<
    Option<Record<LineItemDetails>>,
    ServiceError,
>)
    ensures
        match *found {
            None => answer == Ok::<Option<Record<LineItemDetails>>, ServiceError>(None),
            Some(row) => decodes(
                answer,
                line_item_columns(row),
                |item: Option<Record<LineItemDetails>>, columns: LineItemDetails|
                    item == Some(Record { id, data: columns }),
            ),
        },
{
    match found {
        None => Ok(None),
        Some(row) => {
            let details = line_item_details(row)?;
            Ok(Some(details.to_record(id)))
        },
    }
}

/// The line item with its identifier that a row stands for, or the first of
/// its columns that cannot be read; the identifier is read last.
pub open spec fn line_item_record_columns(row: SqliteRow) -> Result<
    Record<LineItemDetails>,
    sqlx::Error,
> {
    match line_item_columns(row) {
        Err(failure) => Err(failure),
        Ok(data) => match integer_column(row, "id"@) {
            Err(failure) => Err(failure),
            Ok(id) => Ok(Record { id, data }),
        },
    }
}

/// Adds the line item that `row` stands for at the end of `records`. Where
/// the row cannot be read, `records` stays as it is.
pub fn push_line_item(records: &mut Vec<Record<LineItemDetails>>, row: &SqliteRow) -> (pushed:
    Result<(), ServiceError>)
    ensures
        decodes(
            pushed,
            line_item_record_columns(*row),
            |unit: (), record: Record<LineItemDetails>| final(records)@ == old(records)@.push(record),
        ),
        pushed is Err ==> final(records)@ == old(records)@,
{
    let details = line_item_details(row)?;
    let id = match get_integer(row, "id") {
        Ok(value) => value,
        Err(failure) => {
            return Err(ServiceError::from(failure));
        },
    };
    records.push(details.to_record(id));
    Ok(())
}

/// The product a row stands for, or the first of its columns that cannot be
/// read. The SKU is read before the description.
pub open spec fn product_columns(row: SqliteRow) -> Result<ProductDetailsView, sqlx::Error> {
    match text_column(row, "sku"@) {
        Err(failure) => Err(failure),
        Ok(sku) => match text_column(row, "description"@) {
            Err(failure) => Err(failure),
            Ok(description) => Ok(ProductDetailsView { sku, description }),
        },
    }
}

/// The answer to a lookup of the product under `id`, by the row that was
/// found, if one was: no row is an error that says that the product was not
/// found, and nothing more.
pub fn product_found(found: &Option<SqliteRow>, id: i64) -> (answer: Result<
    Record<ProductDetails>,
    ServiceError,
>)
    ensures
        match *found {
            None => outcome_view(answer) == Err::<Record<ProductDetails>, ServiceErrorView>(
                ServiceErrorView::ProductNotFound(Seq::empty()),
            ),
            Some(row) => decodes(
                answer,
                product_columns(row),
                |record: Record<ProductDetails>, columns: ProductDetailsView|
                    record.id == id && record.data@ == columns,
            ),
        },
{
    match found {
        None => Err(ServiceError::ProductNotFound(String::new())),
        Some(row) => {
            let sku = match get_text(row, "sku") {
                Ok(value) => value,
                Err(failure) => {
                    return Err(ServiceError::from(failure));
                },
            };
            let description = match get_text(row, "description") {
                Ok(value) => value,
                Err(failure) => {
                    return Err(ServiceError::from(failure));
                },
            };
            Ok(Record { id, data: ProductDetails { sku, description } })
        },
    }
}

} // verus!
