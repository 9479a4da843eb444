//! The records the services store and hand out.

use vstd::prelude::*;

pub mod fulfillment;
pub mod line_item;
pub mod order;
pub mod product;

pub use fulfillment::{FulfillmentDetails, FulfillmentStatus, FulfillmentType};
pub use line_item::LineItemDetails;
pub use order::{OrderDetails, OrderStatus};
pub use product::{ProductDetails, ProductDetailsView};

verus! {

/// A stored value together with the identifier the store gave it.
#[derive(Debug, PartialEq, Eq)]
pub struct Record<T> {
    pub id: i64,
    pub data: T,
}

impl<T: Clone> Clone for Record<T> {
    fn clone(&self) -> (copy: Self)
        ensures
            copy.id == self.id,
            cloned(self.data, copy.data),
    {
        Record { id: self.id, data: self.data.clone() }
    }
}

/// Values that can be paired with an identifier.
pub trait ToRecord: Sized + Clone {
    /// A copy of `self` stored under `id`.
    fn to_record(&self, id: i64) -> (record: Record<Self>)
        ensures
            record.id == id,
            record.data == *self,
    ;
}

} // verus!
