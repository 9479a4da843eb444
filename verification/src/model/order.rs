//! Orders. Only their creation is tracked so far.

use vstd::prelude::*;

verus! {

/// Where an order stands.
#[derive(Clone, Copy, Debug, PartialEq, Eq, Structural)]
pub enum OrderStatus {
    Quote,
    Sold,
    Done,
}

/// What is known of an order.
#[derive(Clone, Copy, Debug, PartialEq, Eq, Structural)]
pub struct OrderDetails {
    pub status: OrderStatus,
}

} // verus!
