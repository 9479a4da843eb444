//! The order service. Orders can be created; nothing more is tracked yet.

use vstd::prelude::*;

use super::{Provider, ServiceError};

verus! {

/// What a provider offers for orders.
pub trait OrderService: Provider {
    /// Sets up the order table, unless it is there already.
    fn init_provider(&mut self) -> (done: Result<(), ServiceError>)
        ensures
            old(self)@.wf() ==> final(self)@.wf(),
            done is Ok <==> old(self).available(),
            match done {
                Ok(()) => final(self)@ == old(self)@.with_order_table(),
                Err(error) => error is ProviderFailure && final(self)@ == old(self)@,
            },
    ;

    /// Stores a new order and returns its identifier. Fails only as a
    /// provider: where the storage does not answer, the table is not set up,
    /// or no identifier is left.
    fn create_order(&mut self) -> (created: Result<i64, ServiceError>)
        ensures
            old(self)@.wf() ==> final(self)@.wf(),
            created is Ok <==> {
                &&& old(self).available()
                &&& old(self)@.orders is Some
                &&& old(self)@.next_order_id() <= i64::MAX
            },
            match created {
                Ok(id) => id == old(self)@.next_order_id() && final(self)@ == old(self)@.add_order(),
                Err(error) => error is ProviderFailure && final(self)@ == old(self)@,
            },
    ;
}

} // verus!
