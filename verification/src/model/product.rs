//! Products of the catalog.

use vstd::prelude::*;

use super::{Record, ToRecord};

verus! {

/// A product as the catalog describes it.
#[derive(Debug, PartialEq, Eq)]
pub struct ProductDetails {
    pub sku: String,
    pub description: String,
}

/// The text a [`ProductDetails`] holds.
pub struct ProductDetailsView {
    pub sku: Seq<char>,
    pub description: Seq<char>,
}

impl View for ProductDetails {
    type V = ProductDetailsView;

    open spec fn view(&self) -> ProductDetailsView {
        ProductDetailsView { sku: self.sku@, description: self.description@ }
    }
}

impl Clone for ProductDetails {
    fn clone(&self) -> (copy: Self)
        ensures
            copy == *self,
    {
        ProductDetails { sku: self.sku.clone(), description: self.description.clone() }
    }
}

impl ToRecord for ProductDetails {
    fn to_record(&self, id: i64) -> (record: Record<Self>) {
        Record { id, data: self.clone() }
    }
}

} // verus!
