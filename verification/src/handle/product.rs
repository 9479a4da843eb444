//! The answers of the product handlers.

use vstd::prelude::*;

use super::{answer_view, JsonResult};
use crate::model::{ProductDetails, Record, ToRecord};
use crate::service::ServiceError;
use crate::trusted::status_code;

verus! {

pub struct ProductHandler;

impl ProductHandler {
    /// The answer to a request to create a product, once the service has
    /// answered: 201 with the product and its identifier, or 500 whatever
    /// went wrong.
    pub fn create_product(payload: ProductDetails, created: Result<i64, ServiceError>) -> (answer:
        JsonResult<Record<ProductDetails>>)
        ensures
            answer_view(answer) == match created {
                Ok(id) => Ok((201u16, Record { id, data: payload })),
                Err(_) => Err(500u16),
            },
    {
        match created {
            Ok(id) => Ok((status_code(201), payload.to_record(id))),
            Err(_) => Err(status_code(500)),
        }
    }

    /// The answer to a lookup of a product, once the service has answered:
    /// 200 with the product, or 500 whatever went wrong.
    pub fn get_product(found: Result<Record<ProductDetails>, ServiceError>) -> (answer: JsonResult<
        Record<ProductDetails>,
    >)
        ensures
            answer_view(answer) == match found {
                Ok(record) => Ok((200u16, record)),
                Err(_) => Err(500u16),
            },
    {
        match found {
            Ok(record) => Ok((status_code(200), record)),
            Err(_) => Err(status_code(500)),
        }
    }
}

} // verus!
