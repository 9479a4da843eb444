//! The answers of the fulfillment handlers.

use axum::http::StatusCode;
use vstd::prelude::*;

use super::{answer_view, JsonResult};
use crate::model::{FulfillmentDetails, FulfillmentStatus, FulfillmentType, Record, ToRecord};
use crate::service::ServiceError;
use crate::trusted::{status_code, status_number};

verus! {

pub struct FulfillmentHandler;

/// A request to create a fulfillment.
#[derive(Clone, Copy, Debug)]
pub struct NewFulfillmentRequest {
    pub fulfillment_type: FulfillmentType,
}

/// A request to move a fulfillment to another status.
#[derive(Clone, Copy, Debug)]
pub struct NewFulfillmentStatusRequest {
    pub fulfillment_status: FulfillmentStatus,
}

impl FulfillmentHandler {
    /// The answer to a request to create a fulfillment, once the service has
    /// answered: 201 with the new fulfillment, which is `New`, or 500
    /// whatever went wrong.
    pub fn create_fulfillment(payload: NewFulfillmentRequest, created: Result<i64, ServiceError>) -> (answer:
        JsonResult<Record<FulfillmentDetails>>)
        ensures
            answer_view(answer) == match created {
                Ok(id) => Ok(
                    (
                        201u16,
                        Record {
                            id,
                            data: FulfillmentDetails {
                                fulfillment_type: payload.fulfillment_type,
                                status: FulfillmentStatus::New,
                            },
                        },
                    ),
                ),
                Err(_) => Err(500u16),
            },
    {
        match created {
            Ok(id) => Ok(
                (
                    status_code(201),
                    FulfillmentDetails {
                        fulfillment_type: payload.fulfillment_type,
                        status: FulfillmentStatus::New,
                    }.to_record(id),
                ),
            ),
            Err(_) => Err(status_code(500)),
        }
    }

    /// The answer to a request to move a fulfillment, once the service has
    /// answered: 202 where it moved, or 500 whatever went wrong.
    pub fn update_fulfillment_status(moved: Result<(), ServiceError>) -> (answer: Result<
        StatusCode,
        StatusCode,
    >)
        ensures
            match answer {
                Ok(status) => moved is Ok && status_number(status) == 202,
                Err(status) => moved is Err && status_number(status) == 500,
            },
    {
        match moved {
            Ok(_) => Ok(status_code(202)),
            Err(_) => Err(status_code(500)),
        }
    }
}

} // verus!
