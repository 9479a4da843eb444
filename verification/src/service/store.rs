//! The model of what a provider holds: four tables of rows, each row
//! identified by its place in its table.

use vstd::prelude::*;

use crate::model::{
    FulfillmentDetails, FulfillmentStatus, FulfillmentType, LineItemDetails, ProductDetailsView,
    Record,
};

verus! {

/// The rows of the line item table, each with its identifier: the row at
/// index `i` has the identifier `i + 1`.
pub open spec fn numbered(rows: Seq<LineItemDetails>) -> Seq<Record<LineItemDetails>> {
    Seq::new(rows.len(), |i: int| Record { id: (i + 1) as i64, data: rows[i] })
}

/// Those of the line items that are attached to the fulfillment under
/// `fulfillment_id`, in the order in which they come.
pub open spec fn attached(records: Seq<Record<LineItemDetails>>, fulfillment_id: i64) -> Seq<
    Record<LineItemDetails>,
> {
    records.filter(|record: Record<LineItemDetails>| record.data.fulfillment_id == fulfillment_id)
}

/// What a provider holds. A table that has not been set up is `None`. The
/// row at index `i` of a table has the identifier `i + 1`: identifiers are
/// given out in the order of creation, and no row is ever removed.
#[verifier::ext_equal]
pub struct Store {
    pub fulfillments: Option<Seq<FulfillmentDetails>>,
    pub line_items: Option<Seq<LineItemDetails>>,
    pub products: Option<Seq<ProductDetailsView>>,
    pub orders: Option<nat>,
}

impl Store {
    /// A store in which no table has been set up.
    pub open spec fn blank() -> Store {
        Store { fulfillments: None, line_items: None, products: None, orders: None }
    }

    /// The tables are small enough for every identifier to be an `i64`, and
    /// every line item is attached to a fulfillment that exists.
    pub open spec fn wf(self) -> bool {
        &&& self.fulfillments matches Some(rows) ==> rows.len() <= i64::MAX
        &&& self.line_items matches Some(rows) ==> rows.len() <= i64::MAX
        &&& self.products matches Some(rows) ==> rows.len() <= i64::MAX
        &&& self.orders matches Some(count) ==> count <= i64::MAX
        &&& self.line_items matches Some(rows) ==> forall|i: int|
            0 <= i < rows.len() ==> self.fulfillment(#[trigger] rows[i].fulfillment_id) is Some
    }

    // Fulfillments

    /// The store once the fulfillment table is set up: as it was if the table
    /// was there, with an empty table if it was not.
    pub open spec fn with_fulfillment_table(self) -> Store {
        if self.fulfillments is Some {
            self
        } else {
            Store { fulfillments: Some(Seq::empty()), ..self }
        }
    }

    /// The fulfillment stored under `id`, if there is one.
    pub open spec fn fulfillment(self, id: i64) -> Option<FulfillmentDetails> {
        match self.fulfillments {
            Some(rows) => if 1 <= id <= rows.len() {
                Some(rows[id - 1])
            } else {
                None
            },
            None => None,
        }
    }

    /// The status of the fulfillment stored under `id`, if there is one.
    pub open spec fn status(self, id: i64) -> Option<FulfillmentStatus> {
        match self.fulfillment(id) {
            Some(details) => Some(details.status),
            None => None,
        }
    }

    /// The identifier the next fulfillment gets.
    pub open spec fn next_fulfillment_id(self) -> nat
        recommends
            self.fulfillments is Some,
    {
        self.fulfillments->0.len() + 1
    }

    /// The store with one more fulfillment of the given type, in its first
    /// status.
    pub open spec fn add_fulfillment(self, fulfillment_type: FulfillmentType) -> Store
        recommends
            self.fulfillments is Some,
    {
        Store {
            fulfillments: Some(
                self.fulfillments->0.push(
                    FulfillmentDetails { fulfillment_type, status: FulfillmentStatus::New },
                ),
            ),
            ..self
        }
    }

    /// Whether the fulfillment under `id` exists and stands at a status from
    /// which it may move directly to `target`.
    pub open spec fn permits(self, id: i64, target: FulfillmentStatus) -> bool {
        match self.status(id) {
            Some(current) => target.spec_follows(current),
            None => false,
        }
    }

    /// The store after a request to move the fulfillment under `id` to
    /// `target`: with that one status changed where the move is permitted,
    /// untouched where it is not.
    pub open spec fn transition(self, id: i64, target: FulfillmentStatus) -> Store {
        if self.permits(id, target) {
            let rows = self.fulfillments->0;
            Store {
                fulfillments: Some(
                    rows.update(id - 1, FulfillmentDetails { status: target, ..rows[id - 1] }),
                ),
                ..self
            }
        } else {
            self
        }
    }

    // Line items

    /// The store once the line item table is set up.
    pub open spec fn with_line_item_table(self) -> Store {
        if self.line_items is Some {
            self
        } else {
            Store { line_items: Some(Seq::empty()), ..self }
        }
    }

    /// Whether a line item may be attached to the fulfillment under
    /// `fulfillment_id`: the fulfillment exists and is still `New`.
    pub open spec fn admits(self, fulfillment_id: i64) -> bool {
        self.status(fulfillment_id) == Some(FulfillmentStatus::New)
    }

    /// The identifier the next line item gets.
    pub open spec fn next_line_item_id(self) -> nat
        recommends
            self.line_items is Some,
    {
        self.line_items->0.len() + 1
    }

    /// The store with one more line item.
    pub open spec fn add_line_item(self, item: LineItemDetails) -> Store
        recommends
            self.line_items is Some,
    {
        Store { line_items: Some(self.line_items->0.push(item)), ..self }
    }

    /// Every line item with its identifier, in the order of creation.
    pub open spec fn line_item_records(self) -> Seq<Record<LineItemDetails>> {
        match self.line_items {
            Some(rows) => numbered(rows),
            None => Seq::empty(),
        }
    }

    /// The line item stored under `id`, if there is one.
    pub open spec fn line_item(self, id: i64) -> Option<Record<LineItemDetails>> {
        match self.line_items {
            Some(rows) => if 1 <= id <= rows.len() {
                Some(Record { id, data: rows[id - 1] })
            } else {
                None
            },
            None => None,
        }
    }

    /// The line items attached to the fulfillment under `fulfillment_id`, in
    /// the order of creation.
    pub open spec fn line_items_of(self, fulfillment_id: i64) -> Seq<Record<LineItemDetails>> {
        attached(self.line_item_records(), fulfillment_id)
    }

    // Products

    /// The store once the product table is set up.
    pub open spec fn with_product_table(self) -> Store {
        if self.products is Some {
            self
        } else {
            Store { products: Some(Seq::empty()), ..self }
        }
    }

    /// The identifier the next product gets.
    pub open spec fn next_product_id(self) -> nat
        recommends
            self.products is Some,
    {
        self.products->0.len() + 1
    }

    /// The store with one more product.
    pub open spec fn add_product(self, product: ProductDetailsView) -> Store
        recommends
            self.products is Some,
    {
        Store { products: Some(self.products->0.push(product)), ..self }
    }

    /// The product stored under `id`, if there is one.
    pub open spec fn product(self, id: i64) -> Option<ProductDetailsView> {
        match self.products {
            Some(rows) => if 1 <= id <= rows.len() {
                Some(rows[id - 1])
            } else {
                None
            },
            None => None,
        }
    }

    // Orders

    /// The store once the order table is set up.
    pub open spec fn with_order_table(self) -> Store {
        if self.orders is Some {
            self
        } else {
            Store { orders: Some(0nat), ..self }
        }
    }

    /// The identifier the next order gets.
    pub open spec fn next_order_id(self) -> nat
        recommends
            self.orders is Some,
    {
        self.orders->0 + 1
    }

    /// The store with one more order.
    pub open spec fn add_order(self) -> Store
        recommends
            self.orders is Some,
    {
        Store { orders: Some(self.orders->0 + 1), ..self }
    }

    // Requests

    /// The store after `request` has been answered by a provider whose
    /// storage answers: changed where the request is accepted, untouched
    /// where it is refused.
    pub open spec fn serve(self, request: Request) -> Store {
        match request {
            Request::SetUpFulfillments => self.with_fulfillment_table(),
            Request::SetUpLineItems => self.with_line_item_table(),
            Request::SetUpProducts => self.with_product_table(),
            Request::SetUpOrders => self.with_order_table(),
            Request::CreateFulfillment { fulfillment_type } => if self.accepts(request) {
                self.add_fulfillment(fulfillment_type)
            } else {
                self
            },
            Request::SetFulfillmentStatus { fulfillment_id, fulfillment_status } => self.transition(
                fulfillment_id,
                fulfillment_status,
            ),
            Request::CreateLineItem { fulfillment_id, product_id, quantity } => if self.accepts(
                request,
            ) {
                self.add_line_item(
                    LineItemDetails::spec_unfulfilled(fulfillment_id, product_id, quantity),
                )
            } else {
                self
            },
            Request::CreateProduct { product } => if self.accepts(request) {
                self.add_product(product)
            } else {
                self
            },
            Request::CreateOrder => if self.accepts(request) {
                self.add_order()
            } else {
                self
            },
        }
    }

    /// Whether a provider whose storage answers accepts `request`.
    pub open spec fn accepts(self, request: Request) -> bool {
        match request {
            Request::SetUpFulfillments => true,
            Request::SetUpLineItems => true,
            Request::SetUpProducts => true,
            Request::SetUpOrders => true,
            Request::CreateFulfillment { fulfillment_type } => self.fulfillments is Some
                && self.next_fulfillment_id() <= i64::MAX,
            Request::SetFulfillmentStatus { fulfillment_id, fulfillment_status } => self.permits(
                fulfillment_id,
                fulfillment_status,
            ),
            Request::CreateLineItem { fulfillment_id, product_id, quantity } => {
                &&& self.line_items is Some
                &&& self.admits(fulfillment_id)
                &&& self.next_line_item_id() <= i64::MAX
            },
            Request::CreateProduct { product } => self.products is Some && self.next_product_id()
                <= i64::MAX,
            Request::CreateOrder => self.orders is Some && self.next_order_id() <= i64::MAX,
        }
    }

    /// The store after the requests have been answered one after the other.
    pub open spec fn serve_all(self, requests: Seq<Request>) -> Store
        decreases requests.len(),
    {
        if requests.len() == 0 {
            self
        } else {
            self.serve_all(requests.drop_last()).serve(requests.last())
        }
    }

    /// Whether `request` moves the fulfillment under `id` to a new status.
    pub open spec fn moved_by(self, request: Request, id: i64) -> bool {
        &&& request matches Request::SetFulfillmentStatus { fulfillment_id, fulfillment_status }
        &&& fulfillment_id == id
        &&& self.permits(id, fulfillment_status)
    }

    /// How many of the requests, answered one after the other, moved the
    /// fulfillment under `id` to a new status.
    pub open spec fn moves(self, requests: Seq<Request>, id: i64) -> nat
        decreases requests.len(),
    {
        if requests.len() == 0 {
            0
        } else {
            let before = self.serve_all(requests.drop_last());
            let moved: nat = if before.moved_by(requests.last(), id) {
                1
            } else {
                0
            };
            self.moves(requests.drop_last(), id) + moved
        }
    }
}

/// What can be asked of the services that changes what is stored.
pub enum Request {
    SetUpFulfillments,
    SetUpLineItems,
    SetUpProducts,
    SetUpOrders,
    CreateFulfillment { fulfillment_type: FulfillmentType },
    SetFulfillmentStatus { fulfillment_id: i64, fulfillment_status: FulfillmentStatus },
    CreateLineItem { fulfillment_id: i64, product_id: i64, quantity: i64 },
    CreateProduct { product: ProductDetailsView },
    CreateOrder,
}

} // verus!
