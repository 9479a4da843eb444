//! What holds of every store, whatever is asked of it: a fulfillment only
//! ever moves one status forward, and line items only ever attach to a
//! fulfillment that has not moved yet.

use vstd::prelude::*;

use super::fulfillment::spec_transition_outcome;
use super::{attached, Request, ServiceErrorView, Store};
use crate::model::fulfillment::lemma_follows_is_one_step;
use crate::model::{FulfillmentStatus, FulfillmentType, LineItemDetails, Record};

verus! {

/// A store in which nothing has been set up is well formed.
pub proof fn lemma_blank_is_well_formed()
    ensures
        Store::blank().wf(),
{
}

/// Whatever is asked of a well-formed store, it stays well formed: the
/// identifiers stay within `i64`, and every line item stays attached to a
/// fulfillment that exists.
pub proof fn lemma_serve_keeps_well_formed(store: Store, request: Request)
    requires
        store.wf(),
    ensures
        store.serve(request).wf(),
{
}

/// Whatever is asked of a well-formed store, and however much, it stays
/// well formed.
pub proof fn lemma_serve_all_keeps_well_formed(store: Store, requests: Seq<Request>)
    requires
        store.wf(),
    ensures
        store.serve_all(requests).wf(),
    decreases requests.len(),
{
    if requests.len() > 0 {
        lemma_serve_all_keeps_well_formed(store, requests.drop_last());
        lemma_serve_keeps_well_formed(store.serve_all(requests.drop_last()), requests.last());
    }
}

/// A fulfillment is `New` when it is created, gets the next identifier, and
/// leaves every other fulfillment as it was.
pub proof fn lemma_created_is_new(store: Store, fulfillment_type: FulfillmentType, other: i64)
    requires
        store.fulfillments is Some,
        store.next_fulfillment_id() <= i64::MAX,
    ensures
        store.add_fulfillment(fulfillment_type).status(store.next_fulfillment_id() as i64) == Some(
            FulfillmentStatus::New,
        ),
        store.fulfillment(store.next_fulfillment_id() as i64) is None,
        other != store.next_fulfillment_id() ==> store.add_fulfillment(
            fulfillment_type,
        ).fulfillment(other) == store.fulfillment(other),
{
}

/// Whatever is asked, a fulfillment that exists stays as it is unless the
/// request moves it; and a request that moves it takes it exactly one step
/// forward, to the status asked for.
pub proof fn lemma_status_moves_one_step(store: Store, request: Request, id: i64)
    requires
        store.fulfillment(id) is Some,
    ensures
        store.serve(request).fulfillment(id) is Some,
        store.serve(request).fulfillment(id)->0.fulfillment_type == store.fulfillment(
            id,
        )->0.fulfillment_type,
        !store.moved_by(request, id) ==> store.serve(request).status(id) == store.status(id),
        store.moved_by(request, id) ==> {
            &&& store.serve(request).status(id) == Some(request->fulfillment_status)
            &&& request->fulfillment_status.rank() == store.status(id)->0.rank() + 1
        },
{
}

/// Over any sequence of requests, a fulfillment keeps its type, and its
/// status is as many steps further along as requests moved it: its statuses
/// form a walk along `New`, `Initialized`, `InProgress`, `Fulfilled` that
/// never turns back, never repeats a status and never skips one.
pub proof fn lemma_status_walk(store: Store, requests: Seq<Request>, id: i64)
    requires
        store.fulfillment(id) is Some,
    ensures
        store.serve_all(requests).fulfillment(id) is Some,
        store.serve_all(requests).fulfillment(id)->0.fulfillment_type == store.fulfillment(
            id,
        )->0.fulfillment_type,
        store.serve_all(requests).status(id)->0.rank() == store.status(id)->0.rank() + store.moves(
            requests,
            id,
        ),
        store.moves(requests, id) <= 3,
    decreases requests.len(),
{
    if requests.len() > 0 {
        lemma_status_walk(store, requests.drop_last(), id);
        lemma_status_moves_one_step(store.serve_all(requests.drop_last()), requests.last(), id);
    }
}

/// A request to move a fulfillment to `target` from any status but the one
/// that `target` follows, or under an identifier that nothing is stored
/// under, is refused as bad input and changes nothing. As nothing changed,
/// the same request is refused in the same way however often it is made.
pub proof fn lemma_illegal_move_is_refused(store: Store, id: i64, target: FulfillmentStatus)
    requires
        !(store.status(id) matches Some(current) && target.rank() == current.rank() + 1),
    ensures
        !store.permits(id, target),
        store.transition(id, target) == store,
        spec_transition_outcome(0) == Err::<(), ServiceErrorView>(
            ServiceErrorView::BadInput("bad fulfillment status transition"@),
        ),
{
}

/// A move that is accepted cannot be accepted a second time: of two
/// requests to move the same fulfillment to the same status, answered one
/// after the other, the first wins and the second is refused, and the
/// fulfillment stands at that status, moved once.
pub proof fn lemma_second_move_is_refused(store: Store, id: i64, target: FulfillmentStatus)
    requires
        store.permits(id, target),
    ensures
        store.transition(id, target).status(id) == Some(target),
        !store.transition(id, target).permits(id, target),
        store.transition(id, target).transition(id, target) == store.transition(id, target),
{
}

/// Of two requests to initialise the same new fulfillment, in whichever
/// order they are answered, exactly one moves it: the first is accepted,
/// the second is refused, and the fulfillment is `Initialized`.
pub proof fn lemma_one_of_two_wins(store: Store, id: i64)
    requires
        store.status(id) == Some(FulfillmentStatus::New),
    ensures
        ({
            let request = Request::SetFulfillmentStatus {
                fulfillment_id: id,
                fulfillment_status: FulfillmentStatus::Initialized,
            };
            &&& store.accepts(request)
            &&& !store.serve(request).accepts(request)
            &&& store.moves(seq![request, request], id) == 1
            &&& store.serve_all(seq![request, request]).status(id) == Some(
                FulfillmentStatus::Initialized,
            )
        }),
{
    let request = Request::SetFulfillmentStatus {
        fulfillment_id: id,
        fulfillment_status: FulfillmentStatus::Initialized,
    };
    let both = seq![request, request];
    lemma_follows_is_one_step(FulfillmentStatus::Initialized, FulfillmentStatus::New);
    assert(both.drop_last() =~= seq![request]);
    assert(seq![request].drop_last() =~= Seq::<Request>::empty());
    assert(store.moves(Seq::<Request>::empty(), id) == 0);
    assert(store.moves(seq![request], id) == 1);
}

/// The line items with their identifiers, after one more line item.
proof fn lemma_records_after_push(store: Store, item: LineItemDetails)
    requires
        store.line_items is Some,
    ensures
        store.add_line_item(item).line_item_records() == store.line_item_records().push(
            Record { id: store.next_line_item_id() as i64, data: item },
        ),
{
    assert(store.add_line_item(item).line_item_records() =~= store.line_item_records().push(
        Record { id: store.next_line_item_id() as i64, data: item },
    ));
}

/// A line item is admitted to a fulfillment that exists and is `New`, and
/// to no other. The line item that is admitted is stored under the next
/// identifier with nothing of it fulfilled, and is the last of the line
/// items of its fulfillment.
pub proof fn lemma_admitted_line_item(
    store: Store,
    fulfillment_id: i64,
    product_id: i64,
    quantity: i64,
)
    requires
        store.line_items is Some,
        store.next_line_item_id() <= i64::MAX,
    ensures
        store.admits(fulfillment_id) <==> store.status(fulfillment_id) == Some(
            FulfillmentStatus::New,
        ),
        ({
            let item = LineItemDetails::spec_unfulfilled(fulfillment_id, product_id, quantity);
            let record = Record { id: store.next_line_item_id() as i64, data: item };
            let after = store.add_line_item(item);
            &&& item.quantity_fulfilled == 0
            &&& store.line_item(record.id) is None
            &&& after.line_item(record.id) == Some(record)
            &&& after.line_items_of(fulfillment_id) == store.line_items_of(fulfillment_id).push(
                record,
            )
        }),
{
    let item = LineItemDetails::spec_unfulfilled(fulfillment_id, product_id, quantity);
    let record = Record { id: store.next_line_item_id() as i64, data: item };
    let of_fulfillment = |record: Record<LineItemDetails>|
        record.data.fulfillment_id == fulfillment_id;
    lemma_records_after_push(store, item);
    Seq::lemma_filter_push(store.line_item_records(), record, of_fulfillment);
}

/// Whatever is asked, and however much, a line item stays as it was
/// created: attached to the same fulfillment, for the same product and
/// quantity, with nothing of it fulfilled.
pub proof fn lemma_line_item_stays(store: Store, requests: Seq<Request>, id: i64)
    requires
        store.line_item(id) is Some,
    ensures
        store.serve_all(requests).line_item(id) == store.line_item(id),
    decreases requests.len(),
{
    if requests.len() > 0 {
        lemma_line_item_stays(store, requests.drop_last(), id);
    }
}

/// Whatever is asked, the line items of a fulfillment that is no longer
/// `New` stay the ones it has.
proof fn lemma_started_keeps_line_items(store: Store, request: Request, id: i64)
    requires
        store.status(id) matches Some(status) && status != FulfillmentStatus::New,
    ensures
        store.serve(request).line_items_of(id) == store.line_items_of(id),
{
    let of_fulfillment = |record: Record<LineItemDetails>| record.data.fulfillment_id == id;
    match request {
        Request::CreateLineItem { fulfillment_id, product_id, quantity } => {
            if store.accepts(request) {
                let item = LineItemDetails::spec_unfulfilled(fulfillment_id, product_id, quantity);
                let record = Record { id: store.next_line_item_id() as i64, data: item };
                lemma_records_after_push(store, item);
                Seq::lemma_filter_push(store.line_item_records(), record, of_fulfillment);
            }
        },
        _ => {},
    }
}

/// Once a fulfillment has left `New`, no line item is attached to it any
/// more, whatever is asked afterwards: its line items stay the ones it had.
pub proof fn lemma_no_line_item_once_started(store: Store, requests: Seq<Request>, id: i64)
    requires
        store.status(id) matches Some(status) && status != FulfillmentStatus::New,
    ensures
        store.serve_all(requests).line_items_of(id) == store.line_items_of(id),
    decreases requests.len(),
{
    if requests.len() > 0 {
        let before = store.serve_all(requests.drop_last());
        lemma_no_line_item_once_started(store, requests.drop_last(), id);
        lemma_status_walk(store, requests.drop_last(), id);
        lemma_started_keeps_line_items(before, requests.last(), id);
    }
}

/// The first `n` line items with their identifiers, reduced to those of one
/// fulfillment: their identifiers ascend and do not exceed `n`.
proof fn lemma_attached_ascend(store: Store, fulfillment_id: i64, n: int)
    requires
        store.wf(),
        0 <= n <= store.line_item_records().len(),
    ensures
        ({
            let found = attached(store.line_item_records().take(n), fulfillment_id);
            &&& forall|i: int| 0 <= i < found.len() ==> 1 <= #[trigger] found[i].id <= n
            &&& forall|i: int, j: int|
                0 <= i < j < found.len() ==> #[trigger] found[i].id < #[trigger] found[j].id
        }),
    decreases n,
{
    let records = store.line_item_records();
    let of_fulfillment = |record: Record<LineItemDetails>|
        record.data.fulfillment_id == fulfillment_id;
    if n > 0 {
        // The line item at index `n - 1` has the identifier `n`, which is
        // beyond those of all the line items before it.
        let last = records[n - 1];
        let before = attached(records.take(n - 1), fulfillment_id);
        lemma_attached_ascend(store, fulfillment_id, n - 1);
        assert(records.take(n) =~= records.take(n - 1).push(last));
        Seq::lemma_filter_push(records.take(n - 1), last, of_fulfillment);
        assert(attached(records.take(n), fulfillment_id) == if of_fulfillment(last) {
            before.push(last)
        } else {
            before
        });
    }
}

/// The line items of a fulfillment come in the order of their creation,
/// which is the ascending order of their identifiers. Each of them is a
/// stored line item attached to that fulfillment, and every stored line
/// item attached to it is among them; so there are none if nothing is
/// attached to it.
pub proof fn lemma_line_items_in_order(store: Store, fulfillment_id: i64)
    requires
        store.wf(),
    ensures
        ({
            let found = store.line_items_of(fulfillment_id);
            &&& forall|i: int, j: int|
                0 <= i < j < found.len() ==> #[trigger] found[i].id < #[trigger] found[j].id
            &&& forall|i: int|
                0 <= i < found.len() ==> {
                    &&& (#[trigger] found[i]).data.fulfillment_id == fulfillment_id
                    &&& store.line_item(found[i].id) == Some(found[i])
                }
            &&& forall|id: i64|
                (#[trigger] store.line_item(id) matches Some(record)
                    && record.data.fulfillment_id == fulfillment_id) ==> found.contains(
                    store.line_item(id)->0,
                )
            &&& (forall|id: i64|
                #[trigger] store.line_item(id) matches Some(record) ==> record.data.fulfillment_id
                    != fulfillment_id) ==> found.len() == 0
        }),
{
    let records = store.line_item_records();
    let of_fulfillment = |record: Record<LineItemDetails>|
        record.data.fulfillment_id == fulfillment_id;
    let found = store.line_items_of(fulfillment_id);
    assert(records.take(records.len() as int) =~= records);
    lemma_attached_ascend(store, fulfillment_id, records.len() as int);
    assert forall|i: int| 0 <= i < found.len() implies {
        &&& (#[trigger] found[i]).data.fulfillment_id == fulfillment_id
        &&& store.line_item(found[i].id) == Some(found[i])
    } by {
        // What is found is one of the stored line items, the one at some
        // index `k`, and so has the identifier `k + 1`.
        records.lemma_filter_contains_rev(of_fulfillment, found[i]);
        let k = choose|k: int| 0 <= k < records.len() && records[k] == found[i];
        assert(found[i].id == k + 1);
    }
    assert forall|id: i64|
        (#[trigger] store.line_item(id) matches Some(record) && record.data.fulfillment_id
            == fulfillment_id) implies found.contains(store.line_item(id)->0) by {
        records.lemma_filter_contains(of_fulfillment, id - 1);
    }
    if found.len() > 0 {
        assert(store.line_item(found[0].id) == Some(found[0]));
    }
}

} // verus!
