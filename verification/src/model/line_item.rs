//! Line items: a quantity of one product, attached to one fulfillment.

use vstd::prelude::*;

use super::{Record, ToRecord};

verus! {

/// A requested quantity of a product on a fulfillment. The link to the
/// fulfillment is fixed when the line item is created.
#[derive(Clone, Copy, Debug, PartialEq, Eq, Structural)]
pub struct LineItemDetails {
    pub product_id: i64,
    pub fulfillment_id: i64,
    pub quantity: i64,
    pub quantity_fulfilled: i64,
}

impl LineItemDetails {
    /// A line item as it is when first attached: nothing of it fulfilled yet.
    pub open spec fn spec_unfulfilled(
        fulfillment_id: i64,
        product_id: i64,
        quantity: i64,
    ) -> LineItemDetails {
        LineItemDetails { product_id, fulfillment_id, quantity, quantity_fulfilled: 0 }
    }

    /// A line item as it is when first attached: nothing of it fulfilled yet.
    pub fn unfulfilled(fulfillment_id: i64, product_id: i64, quantity: i64) -> (item:
        LineItemDetails)
        ensures
            item == Self::spec_unfulfilled(fulfillment_id, product_id, quantity),
    {
        LineItemDetails { product_id, fulfillment_id, quantity, quantity_fulfilled: 0 }
    }
}

impl ToRecord for LineItemDetails {
    fn to_record(&self, id: i64) -> (record: Record<Self>) {
        Record { id, data: *self }
    }
}

} // verus!
