//! The fulfillment service: creating fulfillments and moving them along.

use vstd::prelude::*;

use super::{outcome_view, Provider, ServiceError, ServiceErrorView};
use crate::model::{FulfillmentStatus, FulfillmentType};
use crate::text::{decimal, push_digits};

verus! {

/// What a provider offers for fulfillments.
pub trait FulfillmentService: Provider {
    /// Sets up the fulfillment table, unless it is there already.
    fn init_provider(&mut self) -> (done: Result<(), ServiceError>)
        ensures
            old(self)@.wf() ==> final(self)@.wf(),
            done is Ok <==> old(self).available(),
            match done {
                Ok(()) => final(self)@ == old(self)@.with_fulfillment_table(),
                Err(error) => error is ProviderFailure && final(self)@ == old(self)@,
            },
    ;

    /// Stores a new fulfillment of the given type, in the status `New`, and
    /// returns its identifier. Fails only as a provider: where the storage
    /// does not answer, the table is not set up, or no identifier is left.
    fn create_fulfillment(&mut self, fulfillment_type: FulfillmentType) -> (created: Result<
        i64,
        ServiceError,
    >)
        ensures
            old(self)@.wf() ==> final(self)@.wf(),
            created is Ok <==> {
                &&& old(self).available()
                &&& old(self)@.fulfillments is Some
                &&& old(self)@.next_fulfillment_id() <= i64::MAX
            },
            match created {
                Ok(id) => {
                    &&& id == old(self)@.next_fulfillment_id()
                    &&& final(self)@ == old(self)@.add_fulfillment(fulfillment_type)
                },
                Err(error) => error is ProviderFailure && final(self)@ == old(self)@,
            },
    ;

    /// Moves the fulfillment under `fulfillment_id` to `fulfillment_status`
    /// if it stands at the one status from which that move is legal.
    /// Anything else, an unknown identifier included, is bad input and
    /// changes nothing, however often it is asked.
    fn set_fulfillment_status(
        &mut self,
        fulfillment_id: &i64,
        fulfillment_status: FulfillmentStatus,
    ) -> (moved: Result<(), ServiceError>)
        ensures
            old(self)@.wf() ==> final(self)@.wf(),
            moved is Ok <==> old(self).available() && old(self)@.permits(
                *fulfillment_id,
                fulfillment_status,
            ),
            match moved {
                Ok(()) => final(self)@ == old(self)@.transition(
                    *fulfillment_id,
                    fulfillment_status,
                ),
                Err(error) => {
                    &&& final(self)@ == old(self)@
                    &&& if old(self).available() && old(self)@.fulfillments is Some {
                        error@ == ServiceErrorView::BadInput("bad fulfillment status transition"@)
                    } else {
                        error is ProviderFailure
                    }
                },
            },
    ;
}

/// What a conditional status write is reported as, by the number of rows it
/// changed: one row is the transition done; none is bad input, whether
/// the identifier is unknown or the fulfillment stands elsewhere; more than
/// one should never happen and is a failure of the provider.
pub open spec fn spec_transition_outcome(rows_affected: u64) -> Result<(), ServiceErrorView> {
    if rows_affected == 1 {
        Ok(())
    } else if rows_affected == 0 {
        Err(ServiceErrorView::BadInput("bad fulfillment status transition"@))
    } else {
        Err(
            ServiceErrorView::ProviderFailure(
                decimal(rows_affected as int) + " rows affected, expected 1 or 0"@,
            ),
        )
    }
}

/// What a conditional status write is reported as, by the number of rows it
/// changed.
pub fn transition_outcome(rows_affected: u64) -> (outcome: Result<(), ServiceError>)
    ensures
        outcome_view(outcome) == spec_transition_outcome(rows_affected),
{
    if rows_affected == 1 {
        Ok(())
    } else if rows_affected == 0 {
        Err(ServiceError::BadInput("bad fulfillment status transition".to_string()))
    } else {
        let mut text = String::new();
        push_digits(&mut text, rows_affected);
        text.append(" rows affected, expected 1 or 0");
        Err(ServiceError::ProviderFailure(text))
    }
}

} // verus!
