//! The line item service: attaching line items to fulfillments that still
//! take them, and reading them back.

use vstd::prelude::*;

use super::{outcome_view, Provider, ServiceError, ServiceErrorView};
use crate::model::{LineItemDetails, Record};
use crate::text::{decimal, push_decimal};

verus! {

/// What a provider offers for line items.
pub trait LineItemService: Provider {
    /// Sets up the line item table, unless it is there already.
    fn init_provider(&mut self) -> (done: Result<(), ServiceError>)
        ensures
            old(self)@.wf() ==> final(self)@.wf(),
            done is Ok <==> old(self).available(),
            match done {
                Ok(()) => final(self)@ == old(self)@.with_line_item_table(),
                Err(error) => error is ProviderFailure && final(self)@ == old(self)@,
            },
    ;

    /// Attaches a line item to the fulfillment under `fulfillment_id` and
    /// returns the identifier of the line item; nothing of it is fulfilled
    /// yet. The fulfillment has to exist and still be `New`: anything else
    /// is bad input and changes nothing.
    fn create_line_item(&mut self, fulfillment_id: i64, product_id: i64, quantity: i64) -> (created:
        Result<i64, ServiceError>)
        ensures
            old(self)@.wf() ==> final(self)@.wf(),
            created is Ok <==> {
                &&& old(self).available()
                &&& old(self)@.line_items is Some
                &&& old(self)@.admits(fulfillment_id)
                &&& old(self)@.next_line_item_id() <= i64::MAX
            },
            match created {
                Ok(id) => {
                    &&& id == old(self)@.next_line_item_id()
                    &&& final(self)@ == old(self)@.add_line_item(
                        LineItemDetails::spec_unfulfilled(fulfillment_id, product_id, quantity),
                    )
                },
                Err(error) => {
                    &&& final(self)@ == old(self)@
                    &&& if {
                        &&& old(self).available()
                        &&& old(self)@.line_items is Some
                        &&& old(self)@.fulfillments is Some
                        &&& !old(self)@.admits(fulfillment_id)
                    } {
                        error@ == ServiceErrorView::BadInput(
                            "can't add line item to fulfillment "@ + decimal(fulfillment_id as int),
                        )
                    } else {
                        error is ProviderFailure
                    }
                },
            },
    ;

    /// The line item under `line_item_id`, or `None` where there is none.
    fn get_line_item(&mut self, line_item_id: i64) -> (found: Result<
        Option<Record<LineItemDetails>>,
        ServiceError,
    >)
        ensures
            final(self)@ == old(self)@,
            found is Ok <==> old(self).available() && old(self)@.line_items is Some,
            match found {
                Ok(item) => item == old(self)@.line_item(line_item_id),
                Err(error) => error is ProviderFailure,
            },
    ;

    /// The line items attached to the fulfillment under `fulfillment_id`, in
    /// the order of their creation; none where nothing is attached to it.
    fn get_line_items_by_fulfillment_id(&mut self, fulfillment_id: i64) -> (found: Result<
        Vec<Record<LineItemDetails>>,
        ServiceError,
    >)
        ensures
            final(self)@ == old(self)@,
            found is Ok <==> old(self).available() && old(self)@.line_items is Some,
            match found {
                Ok(items) => items@ == old(self)@.line_items_of(fulfillment_id),
                Err(error) => error is ProviderFailure,
            },
    ;
}

/// What a conditional insert of a line item is reported as, by the number
/// of rows it added and the identifier of the last row added: no row is bad
/// input, whether the fulfillment is unknown or no longer `New`; otherwise
/// the identifier is the line item's.
pub open spec fn spec_admission_outcome(
    rows_affected: u64,
    last_insert_rowid: i64,
    fulfillment_id: i64,
) -> Result<i64, ServiceErrorView> {
    if rows_affected == 0 {
        Err(
            ServiceErrorView::BadInput(
                "can't add line item to fulfillment "@ + decimal(fulfillment_id as int),
            ),
        )
    } else {
        Ok(last_insert_rowid)
    }
}

/// What a conditional insert of a line item is reported as, by the number
/// of rows it added and the identifier of the last row added.
pub fn admission_outcome(rows_affected: u64, last_insert_rowid: i64, fulfillment_id: i64) -> (outcome:
    Result<i64, ServiceError>)
    ensures
        outcome_view(outcome) == spec_admission_outcome(
            rows_affected,
            last_insert_rowid,
            fulfillment_id,
        ),
{
    if rows_affected == 0 {
        let mut text = "can't add line item to fulfillment ".to_string();
        push_decimal(&mut text, fulfillment_id);
        return Err(ServiceError::BadInput(text));
    }
    Ok(last_insert_rowid)
}

} // verus!
