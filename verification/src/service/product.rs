//! The product service: the catalog the line items refer to.

use vstd::prelude::*;

use super::{Provider, ServiceError, ServiceErrorView};
use crate::model::{ProductDetails, ProductDetailsView, Record};

verus! {

/// What a provider offers for products.
pub trait ProductService: Provider {
    /// Sets up the product table, unless it is there already.
    fn init_provider(&mut self) -> (done: Result<(), ServiceError>)
        ensures
            old(self)@.wf() ==> final(self)@.wf(),
            done is Ok <==> old(self).available(),
            match done {
                Ok(()) => final(self)@ == old(self)@.with_product_table(),
                Err(error) => error is ProviderFailure && final(self)@ == old(self)@,
            },
    ;

    /// Stores a new product and returns its identifier. Fails only as a
    /// provider: where the storage does not answer, the table is not set up,
    /// or no identifier is left.
    fn create_product(&mut self, sku: &String, description: &String) -> (created: Result<
        i64,
        ServiceError,
    >)
        ensures
            old(self)@.wf() ==> final(self)@.wf(),
            created is Ok <==> {
                &&& old(self).available()
                &&& old(self)@.products is Some
                &&& old(self)@.next_product_id() <= i64::MAX
            },
            match created {
                Ok(id) => {
                    &&& id == old(self)@.next_product_id()
                    &&& final(self)@ == old(self)@.add_product(
                        ProductDetailsView { sku: sku@, description: description@ },
                    )
                },
                Err(error) => error is ProviderFailure && final(self)@ == old(self)@,
            },
    ;

    /// The product under `id`. That there is none is an error of its own,
    /// with nothing more to say.
    fn get_product(&mut self, id: &i64) -> (found: Result<Record<ProductDetails>, ServiceError>)
        ensures
            final(self)@ == old(self)@,
            found is Ok <==> old(self).available() && old(self)@.product(*id) is Some,
            match found {
                Ok(record) => record.id == *id && old(self)@.product(*id) == Some(record.data@),
                Err(error) => if old(self).available() && old(self)@.products is Some {
                    error@ == ServiceErrorView::ProductNotFound(Seq::empty())
                } else {
                    error is ProviderFailure
                },
            },
    ;
}

} // verus!
