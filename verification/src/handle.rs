//! What the HTTP handlers answer, once the service has answered them.

use axum::http::StatusCode;
use vstd::prelude::*;

use crate::service::ServiceError;
use crate::trusted::{status_code, status_number};

pub mod fulfillment;
pub mod line_item;
pub mod product;

verus! {

/// What a handler answers: a status with a body, or a status alone where
/// the request failed.
pub type JsonResult<T> = Result<(StatusCode, T), StatusCode>;

/// A handler's answer with the statuses as numbers.
pub open spec fn answer_view<T>(answer: JsonResult<T>) -> Result<(u16, T), u16> {
    match answer {
        Ok((status, body)) => Ok((status_number(status), body)),
        Err(status) => Err(status_number(status)),
    }
}

/// A product as a request describes it.
#[derive(Debug)]
pub struct ProductDetails {
    pub sku: String,
    pub description: String,
}

/// A product as an answer describes it: what the request said, and the
/// identifier the product was stored under.
#[derive(Debug)]
pub struct ProductRecord {
    pub id: i64,
    pub sku: String,
    pub description: String,
}

/// The answer to a request to create a product, once the service has
/// answered: 201 with the product and its identifier, or 500 whatever went
/// wrong.
pub fn create_product(payload: ProductDetails, created: Result<i64, ServiceError>) -> (answer:
    JsonResult<ProductRecord>)
    ensures
        answer_view(answer) == match created {
            Ok(id) => Ok(
                (
                    201u16,
                    ProductRecord { id, sku: payload.sku, description: payload.description },
                ),
            ),
            Err(_) => Err(500u16),
        },
{
    match created {
        Ok(id) => Ok(
            (
                status_code(201),
                ProductRecord { id, sku: payload.sku, description: payload.description },
            ),
        ),
        Err(_) => Err(status_code(500)),
    }
}

} // verus!
