//! A provider that keeps its tables in memory.

use vstd::prelude::*;

use crate::model::{
    FulfillmentDetails, FulfillmentStatus, FulfillmentType, LineItemDetails, ProductDetails,
    ProductDetailsView, Record, ToRecord,
};
use crate::service::fulfillment::{transition_outcome, FulfillmentService};
use crate::service::line_item::{admission_outcome, LineItemService};
use crate::service::order::OrderService;
use crate::service::product::ProductService;
use crate::service::{
    attached, numbered, outcome_view, Provider, ServiceError, ServiceErrorView, Store,
};

verus! {

/// A provider that keeps its tables in memory. Each table is a list of rows
/// in the order of creation; the identifier of a row is its place in the
/// list, counted from one. Its storage always answers: it fails as a
/// provider only where a table has not been set up or has no identifier
/// left to give. A call holds the provider alone, so what it checks and
/// what it then writes are one step to every other caller.
pub struct MemoryProvider {
    fulfillments: Option<Vec<FulfillmentDetails>>,
    line_items: Option<Vec<LineItemDetails>>,
    products: Option<Vec<ProductDetails>>,
    orders: Option<u64>,
}

/// The rows of a table, where it is set up.
spec fn rows_of<T>(table: Option<Vec<T>>) -> Option<Seq<T>> {
    match table {
        Some(rows) => Some(rows@),
        None => None,
    }
}

impl View for MemoryProvider {
    type V = Store;

    closed spec fn view(&self) -> Store {
        Store {
            fulfillments: rows_of(self.fulfillments),
            line_items: rows_of(self.line_items),
            products: match self.products {
                Some(rows) => Some(rows@.map_values(|product: ProductDetails| product@)),
                None => None,
            },
            orders: match self.orders {
                Some(count) => Some(count as nat),
                None => None,
            },
        }
    }
}

impl Provider for MemoryProvider {
    open spec fn available(&self) -> bool {
        true
    }
}

/// What a call on a table that has not been set up is answered with.
pub open spec fn spec_missing_table(name: Seq<char>) -> ServiceErrorView {
    ServiceErrorView::ProviderFailure("no such table: "@ + name)
}

/// What a call that would need an identifier beyond the largest is answered
/// with.
pub open spec fn spec_table_full() -> ServiceErrorView {
    ServiceErrorView::ProviderFailure("table is full"@)
}

fn missing_table(name: &str) -> (error: ServiceError)
    ensures
        error@ == spec_missing_table(name@),
{
    ServiceError::ProviderFailure("no such table: ".to_string().concat(name))
}

fn table_full() -> (error: ServiceError)
    ensures
        error@ == spec_table_full(),
{
    ServiceError::ProviderFailure("table is full".to_string())
}

/// Whether a table of `len` rows has a row under `id`.
fn holds(len: usize, id: i64) -> (held: bool)
    ensures
        held == (1 <= id <= len),
{
    1 <= id && id as u64 <= len as u64
}

/// Whether a table of `len` rows can take one more.
fn has_room(len: usize) -> (room: bool)
    ensures
        room == (len < i64::MAX),
{
    (len as u64) < 0x7fff_ffff_ffff_ffffu64
}

/// Sets a table up, unless it is there already.
fn set_up<T>(table: &mut Option<Vec<T>>)
    ensures
        rows_of(*final(table)) == match rows_of(*old(table)) {
            Some(rows) => Some(rows),
            None => Some(Seq::empty()),
        },
{
    if table.is_none() {
        *table = Some(Vec::new());
    }
}

/// What adding a row to a table is answered with: the identifier of the row,
/// where the table is set up and has room.
pub open spec fn spec_insert<T>(table: Option<Seq<T>>, name: Seq<char>) -> Result<
    i64,
    ServiceErrorView,
> {
    match table {
        None => Err(spec_missing_table(name)),
        Some(rows) => if rows.len() < i64::MAX {
            Ok((rows.len() + 1) as i64)
        } else {
            Err(spec_table_full())
        },
    }
}

/// Adds a row at the end of the table called `name`.
fn insert<T>(table: &mut Option<Vec<T>>, row: T, name: &str) -> (created: Result<i64, ServiceError>)
    ensures
        outcome_view(created) == spec_insert(rows_of(*old(table)), name@),
        match created {
            Ok(_) => rows_of(*final(table)) == Some(rows_of(*old(table))->0.push(row)),
            Err(_) => *final(table) == *old(table),
        },
{
    match table {
        None => Err(missing_table(name)),
        Some(rows) => {
            if !has_room(rows.len()) {
                return Err(table_full());
            }
            rows.push(row);
            Ok(rows.len() as i64)
        },
    }
}

/// Moves the fulfillment under `id` to `target` where it stands at a status
/// that `target` follows, and returns how many rows that changed.
fn move_along(rows: &mut Vec<FulfillmentDetails>, id: i64, target: FulfillmentStatus) -> (changed:
    u64)
    ensures
        changed == if 1 <= id <= old(rows).len() && target.spec_follows(old(rows)[id - 1].status) {
            1u64
        } else {
            0u64
        },
        final(rows)@ == if changed == 1 {
            old(rows)@.update(
                id - 1,
                FulfillmentDetails { status: target, ..old(rows)[id - 1] },
            )
        } else {
            old(rows)@
        },
{
    if holds(rows.len(), id) {
        let place = (id - 1) as usize;
        if target.follows(rows[place].status) {
            rows[place].status = target;
            return 1;
        }
    }
    0
}

impl MemoryProvider {
    /// A provider in which no table has been set up yet.
    pub fn new() -> (provider: MemoryProvider)
        ensures
            provider@ == Store::blank(),
    {
        MemoryProvider { fulfillments: None, line_items: None, products: None, orders: None }
    }
}

impl FulfillmentService for MemoryProvider {
    fn init_provider(&mut self) -> (done: Result<(), ServiceError>) {
        set_up(&mut self.fulfillments);
        Ok(())
    }

    /// The failures say what was wrong: the table is missing or full.
    fn create_fulfillment(&mut self, fulfillment_type: FulfillmentType) -> (created: Result<
        i64,
        ServiceError,
    >)
        ensures
            outcome_view(created) == spec_insert(old(self)@.fulfillments, "fulfillments"@),
    {
        insert(
            &mut self.fulfillments,
            FulfillmentDetails { fulfillment_type, status: FulfillmentStatus::New },
            "fulfillments",
        )
    }

    /// The one failure of the provider says that the table is missing.
    fn set_fulfillment_status(
        &mut self,
        fulfillment_id: &i64,
        fulfillment_status: FulfillmentStatus,
    ) -> (moved: Result<(), ServiceError>)
        ensures
            old(self)@.fulfillments is None ==> outcome_view(moved) == Err::<(), ServiceErrorView>(
                spec_missing_table("fulfillments"@),
            ),
    {
        match &mut self.fulfillments {
            None => Err(missing_table("fulfillments")),
            Some(rows) => {
                let rows_affected = move_along(rows, *fulfillment_id, fulfillment_status);
                transition_outcome(rows_affected)
            },
        }
    }
}

/// The line items of `rows` that are attached to the fulfillment under
/// `fulfillment_id`, each with its identifier, in the order of creation.
fn attached_to(rows: &Vec<LineItemDetails>, fulfillment_id: i64) -> (found: Vec<
    Record<LineItemDetails>,
>)
    ensures
        found@ == attached(numbered(rows@), fulfillment_id),
{
    let ghost records = numbered(rows@);
    let mut found: Vec<Record<LineItemDetails>> = Vec::new();
    let mut i: usize = 0;
    while i < rows.len()
        invariant
            i <= rows.len(),
            records == numbered(rows@),
            found@ == attached(records.take(i as int), fulfillment_id),
        decreases rows.len() - i,
    {
        proof {
            assert(records.take(i + 1) =~= records.take(i as int).push(records[i as int]));
            Seq::lemma_filter_push(
                records.take(i as int),
                records[i as int],
                |record: Record<LineItemDetails>| record.data.fulfillment_id == fulfillment_id,
            );
        }
        if rows[i].fulfillment_id == fulfillment_id {
            found.push(rows[i].to_record((i + 1) as i64));
        }
        i += 1;
    }
    assert(records.take(i as int) =~= records);
    found
}

impl LineItemService for MemoryProvider {
    fn init_provider(&mut self) -> (done: Result<(), ServiceError>) {
        set_up(&mut self.line_items);
        Ok(())
    }

    /// The failures of the provider say what was wrong: which table is
    /// missing, or that the table is full.
    fn create_line_item(&mut self, fulfillment_id: i64, product_id: i64, quantity: i64) -> (created:
        Result<i64, ServiceError>)
        ensures
            old(self)@.line_items is None ==> outcome_view(created) == Err::<i64, ServiceErrorView>(
                spec_missing_table("lineItems"@),
            ),
            old(self)@.line_items is Some && old(self)@.fulfillments is None ==> outcome_view(
                created,
            ) == Err::<i64, ServiceErrorView>(spec_missing_table("fulfillments"@)),
            old(self)@.admits(fulfillment_id) ==> outcome_view(created) == spec_insert(
                old(self)@.line_items,
                "lineItems"@,
            ),
    {
        if self.line_items.is_none() {
            return Err(missing_table("lineItems"));
        }
        let admitted = match &self.fulfillments {
            None => {
                return Err(missing_table("fulfillments"));
            },
            Some(fulfillments) => {
                holds(fulfillments.len(), fulfillment_id) && fulfillments[(fulfillment_id
                    - 1) as usize].status == FulfillmentStatus::New
            },
        };
        if !admitted {
            return admission_outcome(0, 0, fulfillment_id);
        }
        let id = insert(
            &mut self.line_items,
            LineItemDetails::unfulfilled(fulfillment_id, product_id, quantity),
            "lineItems",
        )?;
        admission_outcome(1, id, fulfillment_id)
    }

    /// The one failure says that the table is missing.
    fn get_line_item(&mut self, line_item_id: i64) -> (found: Result<
        Option<Record<LineItemDetails>>,
        ServiceError,
    >)
        ensures
            found matches Err(error) ==> error@ == spec_missing_table("lineItems"@),
    {
        match &self.line_items {
            None => Err(missing_table("lineItems")),
            Some(rows) => {
                if holds(rows.len(), line_item_id) {
                    Ok(Some(rows[(line_item_id - 1) as usize].to_record(line_item_id)))
                } else {
                    Ok(None)
                }
            },
        }
    }

    /// The one failure says that the table is missing.
    fn get_line_items_by_fulfillment_id(&mut self, fulfillment_id: i64) -> (found: Result<
        Vec<Record<LineItemDetails>>,
        ServiceError,
    >)
        ensures
            found matches Err(error) ==> error@ == spec_missing_table("lineItems"@),
    {
        match &self.line_items {
            None => Err(missing_table("lineItems")),
            Some(rows) => Ok(attached_to(rows, fulfillment_id)),
        }
    }
}

impl ProductService for MemoryProvider {
    fn init_provider(&mut self) -> (done: Result<(), ServiceError>) {
        set_up(&mut self.products);
        Ok(())
    }

    /// The failures say what was wrong: the table is missing or full.
    fn create_product(&mut self, sku: &String, description: &String) -> (created: Result<
        i64,
        ServiceError,
    >)
        ensures
            outcome_view(created) == spec_insert(old(self)@.products, "products"@),
    {
        let ghost before = self@.products;
        let created = insert(
            &mut self.products,
            ProductDetails { sku: sku.clone(), description: description.clone() },
            "products",
        );
        proof {
            if created is Ok {
                assert(self@.products->0 =~= before->0.push(
                    ProductDetailsView { sku: sku@, description: description@ },
                ));
            }
        }
        created
    }

    /// The one failure of the provider says that the table is missing.
    fn get_product(&mut self, id: &i64) -> (found: Result<Record<ProductDetails>, ServiceError>)
        ensures
            old(self)@.products is None ==> outcome_view(found) == Err::<
                Record<ProductDetails>,
                ServiceErrorView,
            >(spec_missing_table("products"@)),
    {
        match &self.products {
            None => Err(missing_table("products")),
            Some(rows) => {
                if holds(rows.len(), *id) {
                    Ok(rows[(*id - 1) as usize].to_record(*id))
                } else {
                    Err(ServiceError::ProductNotFound(String::new()))
                }
            },
        }
    }
}

impl OrderService for MemoryProvider {
    fn init_provider(&mut self) -> (done: Result<(), ServiceError>) {
        if self.orders.is_none() {
            self.orders = Some(0);
        }
        Ok(())
    }

    /// The failures say what was wrong: the table is missing or full.
    fn create_order(&mut self) -> (created: Result<i64, ServiceError>)
        ensures
            outcome_view(created) == match old(self)@.orders {
                None => Err(spec_missing_table("orders"@)),
                Some(count) => if count < i64::MAX {
                    Ok((count + 1) as i64)
                } else {
                    Err(spec_table_full())
                },
            },
    {
        match self.orders {
            None => Err(missing_table("orders")),
            Some(count) => {
                if count >= 0x7fff_ffff_ffff_ffffu64 {
                    return Err(table_full());
                }
                self.orders = Some(count + 1);
                Ok((count + 1) as i64)
            },
        }
    }
}

} // verus!
