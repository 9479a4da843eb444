//! The answers of the line item handlers.

use axum::http::StatusCode;
use vstd::prelude::*;

use super::{answer_view, JsonResult};
use crate::model::{LineItemDetails, Record, ToRecord};
use crate::service::ServiceError;
use crate::trusted::{status_code, status_number};

verus! {

pub struct LineItemHandler;

/// A request to attach a line item to a fulfillment.
#[derive(Clone, Copy, Debug)]
pub struct CreateLineItem {
    pub fulfillment_id: i64,
    pub product_id: i64,
    pub quantity: i64,
}

impl LineItemHandler {
    /// The answer to a request to attach a line item, once the service has
    /// answered: 201 with the new line item, of which nothing is fulfilled,
    /// or the status that reports the error.
    pub fn create_line_item(payload: CreateLineItem, created: Result<i64, ServiceError>) -> (answer:
        JsonResult<Record<LineItemDetails>>)
        ensures
            answer_view(answer) == match created {
                Ok(id) => Ok(
                    (
                        201u16,
                        Record {
                            id,
                            data: LineItemDetails {
                                product_id: payload.product_id,
                                fulfillment_id: payload.fulfillment_id,
                                quantity: payload.quantity,
                                quantity_fulfilled: 0,
                            },
                        },
                    ),
                ),
                Err(error) => Err(error@.status()),
            },
    {
        match created {
            Ok(id) => Ok(
                (
                    status_code(201),
                    LineItemDetails {
                        product_id: payload.product_id,
                        quantity: payload.quantity,
                        quantity_fulfilled: 0,
                        fulfillment_id: payload.fulfillment_id,
                    }.to_record(id),
                ),
            ),
            Err(error) => Err(StatusCode::from(error)),
        }
    }

    /// The answer to a lookup of a line item, once the service has
    /// answered: 200 with the line item, 404 where there is none, or the
    /// status that reports the error.
    pub fn get_line_item(found: Result<Option<Record<LineItemDetails>>, ServiceError>) -> (answer:
        JsonResult<Record<LineItemDetails>>)
        ensures
            answer_view(answer) == match found {
                Ok(Some(record)) => Ok((200u16, record)),
                Ok(None) => Err(404u16),
                Err(error) => Err(error@.status()),
            },
    {
        match found {
            Ok(Some(record)) => Ok((status_code(200), record)),
            Ok(None) => Err(status_code(404)),
            Err(error) => Err(StatusCode::from(error)),
        }
    }

    /// The answer to a lookup of the line items of a fulfillment, once the
    /// service has answered: 200 with the line items as they came, or the
    /// status that reports the error.
    pub fn get_line_item_by_fulfillment_id(
        found: Result<Vec<Record<LineItemDetails>>, ServiceError>,
    ) -> (answer: JsonResult<Vec<Record<LineItemDetails>>>)
        ensures
            answer_view(answer) == match found {
                Ok(items) => Ok((200u16, items)),
                Err(error) => Err(error@.status()),
            },
    {
        match found {
            Ok(items) => Ok((status_code(200), items)),
            Err(error) => Err(StatusCode::from(error)),
        }
    }
}

} // verus!
