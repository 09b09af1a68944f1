//! The service layer: each user-facing intent becomes a load, a phase check
//! with the typestate transition, and a save. Every operation is specified by
//! a deterministic transition function over the repository's mathematical
//! value; the wall clock and the fresh-id source only choose the `now` and
//! `id` arguments of those transitions.

use vstd::prelude::*;

use crate::errors::Error;
use crate::line_item::LineItem;
use crate::order::Confirmed;
use crate::order::Created;
use crate::order::OrderVariant;
use crate::order::OrderVariantView;
use crate::order::OrderView;
use crate::order::ShippedView;
use crate::repository::MemoryRepository;
use crate::storage::spec_flatten_cancelled;
use crate::storage::spec_flatten_confirmed;
use crate::storage::spec_flatten_created;
use crate::storage::spec_flatten_shipped;
use crate::storage::spec_reconstruct_variant;
use crate::storage::variant_result_matches;
use crate::storage::PersistedOrderView;

verus! {

/// The body of a request to create an order.
#[derive(Clone, Debug)]
pub struct CreateOrderRequest {
    pub items: Vec<LineItem>,
}

/// Relies on uuid::Uuid::new_v4 (via Uuid::as_u128) for a fresh random order
/// id. The value is random; nothing is promised of it.
#[verifier::external_body]
fn fresh_order_id() -> u128 {
    uuid::Uuid::new_v4().as_u128()
}

/// Relies on chrono::Utc::now (via DateTime::timestamp_millis) for the
/// current wall-clock time in milliseconds. The value depends on the clock;
/// nothing is promised of it.
#[verifier::external_body]
fn current_time_millis() -> i64 {
    chrono::Utc::now().timestamp_millis()
}

/// What `create` does to the store: with no items, `EmptyOrder` and no
/// record; otherwise a fresh Created record under `id`, with both timestamps
/// set to `now` (an existing record under `id` would be replaced).
pub open spec fn spec_create(
    pre: Map<u128, PersistedOrderView>,
    id: u128,
    items: Seq<LineItem>,
    now: i64,
) -> (Map<u128, PersistedOrderView>, Result<u128, Error>) {
    if items.len() == 0 {
        (pre, Err(Error::EmptyOrder))
    } else {
        let o = OrderView { id, items, created_at: now, updated_at: now, state: Created };
        (pre.insert(id, spec_flatten_created(o)), Ok(id))
    }
}

/// What `add_line_item` does to the store: the stored order must exist,
/// reconstruct, and be in the Created phase; then the item is appended and
/// `updated_at` becomes `now`.
pub open spec fn spec_add_line_item(
    pre: Map<u128, PersistedOrderView>,
    order_id: u128,
    item: LineItem,
    now: i64,
) -> (Map<u128, PersistedOrderView>, Result<(), Error>) {
    if !pre.contains_key(order_id) {
        (pre, Err(Error::OrderNotFound(order_id)))
    } else {
        match spec_reconstruct_variant(pre[order_id]) {
            Err(e) => (pre, Err(e)),
            Ok(OrderVariantView::Created(o)) => {
                let o2 = OrderView { items: o.items.push(item), updated_at: now, ..o };
                (pre.insert(o2.id, spec_flatten_created(o2)), Ok(()))
            },
            Ok(_) => (
                pre,
                Err(Error::InvalidOrderType { id: order_id, actual: pre[order_id].state }),
            ),
        }
    }
}

/// What `remove_line_item` does to the store: the stored order must exist,
/// reconstruct, and be in the Created phase; every item with the given id is
/// removed and `updated_at` becomes `now`. If the removal empties the order,
/// it is immediately cancelled (at `now`) instead of being left empty.
pub open spec fn spec_remove_line_item(
    pre: Map<u128, PersistedOrderView>,
    order_id: u128,
    item_id: u128,
    now: i64,
) -> (Map<u128, PersistedOrderView>, Result<(), Error>) {
    if !pre.contains_key(order_id) {
        (pre, Err(Error::OrderNotFound(order_id)))
    } else {
        match spec_reconstruct_variant(pre[order_id]) {
            Err(e) => (pre, Err(e)),
            Ok(OrderVariantView::Created(o)) => {
                let kept = o.items.filter(|i: LineItem| i.id != item_id);
                if kept.len() == 0 {
                    let o2 = OrderView {
                        id: o.id,
                        items: kept,
                        created_at: o.created_at,
                        updated_at: now,
                        state: crate::order::Cancelled { cancelled_at: now },
                    };
                    (pre.insert(o2.id, spec_flatten_cancelled(o2)), Ok(()))
                } else {
                    let o2 = OrderView { items: kept, updated_at: now, ..o };
                    (pre.insert(o2.id, spec_flatten_created(o2)), Ok(()))
                }
            },
            Ok(_) => (
                pre,
                Err(Error::InvalidOrderType { id: order_id, actual: pre[order_id].state }),
            ),
        }
    }
}

/// What `confirm` does to the store: the stored order must exist,
/// reconstruct, and be in the Created phase; it becomes Confirmed at `now`,
/// with items and both timestamps unchanged.
pub open spec fn spec_confirm(
    pre: Map<u128, PersistedOrderView>,
    order_id: u128,
    now: i64,
) -> (Map<u128, PersistedOrderView>, Result<(), Error>) {
    if !pre.contains_key(order_id) {
        (pre, Err(Error::OrderNotFound(order_id)))
    } else {
        match spec_reconstruct_variant(pre[order_id]) {
            Err(e) => (pre, Err(e)),
            Ok(OrderVariantView::Created(o)) => {
                let o2 = OrderView {
                    id: o.id,
                    items: o.items,
                    created_at: o.created_at,
                    updated_at: o.updated_at,
                    state: Confirmed { confirmed_at: now },
                };
                (pre.insert(o2.id, spec_flatten_confirmed(o2)), Ok(()))
            },
            Ok(_) => (
                pre,
                Err(Error::InvalidOrderType { id: order_id, actual: pre[order_id].state }),
            ),
        }
    }
}

/// What `cancel` does to the store: the stored order must exist, reconstruct,
/// and be in the Created or Confirmed phase; it becomes Cancelled at `now`,
/// with items and both timestamps unchanged.
pub open spec fn spec_cancel(
    pre: Map<u128, PersistedOrderView>,
    order_id: u128,
    now: i64,
) -> (Map<u128, PersistedOrderView>, Result<(), Error>) {
    if !pre.contains_key(order_id) {
        (pre, Err(Error::OrderNotFound(order_id)))
    } else {
        match spec_reconstruct_variant(pre[order_id]) {
            Err(e) => (pre, Err(e)),
            Ok(OrderVariantView::Created(o)) => {
                let o2 = OrderView {
                    id: o.id,
                    items: o.items,
                    created_at: o.created_at,
                    updated_at: o.updated_at,
                    state: crate::order::Cancelled { cancelled_at: now },
                };
                (pre.insert(o2.id, spec_flatten_cancelled(o2)), Ok(()))
            },
            Ok(OrderVariantView::Confirmed(o)) => {
                let o2 = OrderView {
                    id: o.id,
                    items: o.items,
                    created_at: o.created_at,
                    updated_at: o.updated_at,
                    state: crate::order::Cancelled { cancelled_at: now },
                };
                (pre.insert(o2.id, spec_flatten_cancelled(o2)), Ok(()))
            },
            Ok(_) => (
                pre,
                Err(Error::InvalidOrderType { id: order_id, actual: pre[order_id].state }),
            ),
        }
    }
}

/// What `ship` does to the store: the stored order must exist, reconstruct,
/// and be in the Confirmed phase; it becomes Shipped with the given shipped
/// timestamp and tracking id, keeping its confirmed timestamp.
pub open spec fn spec_ship(
    pre: Map<u128, PersistedOrderView>,
    order_id: u128,
    shipped_at: i64,
    tracking_id: Seq<char>,
) -> (Map<u128, PersistedOrderView>, Result<(), Error>) {
    if !pre.contains_key(order_id) {
        (pre, Err(Error::OrderNotFound(order_id)))
    } else {
        match spec_reconstruct_variant(pre[order_id]) {
            Err(e) => (pre, Err(e)),
            Ok(OrderVariantView::Confirmed(o)) => {
                let o2 = OrderView {
                    id: o.id,
                    items: o.items,
                    created_at: o.created_at,
                    updated_at: o.updated_at,
                    state: ShippedView {
                        confirmed_at: o.state.confirmed_at,
                        shipped_at,
                        tracking_id,
                    },
                };
                (pre.insert(o2.id, spec_flatten_shipped(o2)), Ok(()))
            },
            Ok(_) => (
                pre,
                Err(Error::InvalidOrderType { id: order_id, actual: pre[order_id].state }),
            ),
        }
    }
}

/// What `get` returns: the stored order at its own phase, `OrderNotFound` if
/// the id is absent.
pub open spec fn spec_get(pre: Map<u128, PersistedOrderView>, id: u128) -> Result<
    OrderVariantView,
    Error,
> {
    if !pre.contains_key(id) {
        Err(Error::OrderNotFound(id))
    } else {
        spec_reconstruct_variant(pre[id])
    }
}

/// Orchestrates state transitions over an in-memory repository: loads an
/// order, enforces the phase preconditions of the requested operation,
/// applies the typestate transition and saves the result.
pub struct OrderService {
    repo: MemoryRepository,
}

impl View for OrderService {
    type V = Map<u128, PersistedOrderView>;

    closed spec fn view(&self) -> Map<u128, PersistedOrderView> {
        self.repo@
    }
}

impl OrderService {
    pub fn new(repo: MemoryRepository) -> (r: OrderService)
        ensures
            r@ == repo@,
    {
        OrderService { repo }
    }

    /// Creates an order with the given id and creation time: the
    /// deterministic core of [`OrderService::create`].
    pub fn create_at(&mut self, id: u128, now: i64, items: Vec<LineItem>) -> (r: Result<
        u128,
        Error,
    >)
        ensures
            final(self)@ == spec_create(old(self)@, id, items@, now).0,
            r == spec_create(old(self)@, id, items@, now).1,
    {
        match crate::order::Order::<Created>::new(id, items, now) {
            Err(e) => Err(e),
            Ok(order) => {
                match self.repo.save(OrderVariant::from(order)) {
                    Err(e) => Err(e),
                    Ok(_) => Ok(id),
                }
            },
        }
    }

    /// Creates a new order in the Created phase from the given items, under a
    /// fresh random id, timestamped with the current wall-clock time, and
    /// returns its id. Fails with `EmptyOrder`, storing nothing, if and only
    /// if `items` is empty.
    pub fn create(&mut self, items: Vec<LineItem>) -> (r: Result<u128, Error>)
        ensures
            items@.len() == 0 ==> final(self)@ == old(self)@ && r == Err::<u128, Error>(
                Error::EmptyOrder,
            ),
            items@.len() > 0 ==> r is Ok,
            items@.len() > 0 ==> (exists|id: u128, now: i64|
                final(self)@ == (#[trigger] spec_create(old(self)@, id, items@, now)).0 && r
                    == spec_create(old(self)@, id, items@, now).1),
    {
        let id = fresh_order_id();
        let now = current_time_millis();
        let r = self.create_at(id, now, items);
        proof {
            if items@.len() > 0 {
                assert(r == Ok::<u128, Error>(id));
                assert(self@ == spec_create(old(self)@, id, items@, now).0);
            }
        }
        r
    }

    /// Appends an item to the stored order with the given id at the given
    /// time: the deterministic core of [`OrderService::add_line_item`].
    pub fn add_line_item_at(&mut self, order_id: u128, item: LineItem, now: i64) -> (r: Result<
        (),
        Error,
    >)
        ensures
            final(self)@ == spec_add_line_item(old(self)@, order_id, item, now).0,
            r == spec_add_line_item(old(self)@, order_id, item, now).1,
    {
        match self.repo.get(order_id) {
            Err(e) => Err(e),
            Ok(OrderVariant::Created(mut order)) => {
                order.add_line_item(item, now);
                match self.repo.save(OrderVariant::from(order)) {
                    Err(e) => Err(e),
                    Ok(_) => Ok(()),
                }
            },
            Ok(v) => {
                proof {
                    crate::storage::lemma_reconstruct_variant_state(old(self)@[order_id]);
                }
                let actual = v.state();
                Err(Error::InvalidOrderType { id: order_id, actual })
            },
        }
    }

    /// Appends an item to the stored order with the given id, timestamped
    /// with the current wall-clock time. Requires the order to exist and to
    /// be in the Created phase; fails with `OrderNotFound` or
    /// `InvalidOrderType` otherwise, changing nothing.
    pub fn add_line_item(&mut self, order_id: u128, item: LineItem) -> (r: Result<(), Error>)
        ensures
            exists|now: i64|
                final(self)@ == (#[trigger] spec_add_line_item(
                    old(self)@,
                    order_id,
                    item,
                    now,
                )).0 && r == spec_add_line_item(old(self)@, order_id, item, now).1,
    {
        let now = current_time_millis();
        let r = self.add_line_item_at(order_id, item, now);
        r
    }

    /// Removes an item from the stored order with the given id at the given
    /// time: the deterministic core of [`OrderService::remove_line_item`].
    /// If the removal empties the order, the order is cancelled instead of
    /// being left empty.
    pub fn remove_line_item_at(&mut self, order_id: u128, item_id: u128, now: i64) -> (r: Result<
        (),
        Error,
    >)
        ensures
            final(self)@ == spec_remove_line_item(old(self)@, order_id, item_id, now).0,
            r == spec_remove_line_item(old(self)@, order_id, item_id, now).1,
    {
        match self.repo.get(order_id) {
            Err(e) => Err(e),
            Ok(OrderVariant::Created(mut order)) => {
                order.remove_item(item_id, now);
                if order.line_items.len() == 0 {
                    let cancelled = order.cancel(now);
                    match self.repo.save(OrderVariant::from(cancelled)) {
                        Err(e) => Err(e),
                        Ok(_) => Ok(()),
                    }
                } else {
                    match self.repo.save(OrderVariant::from(order)) {
                        Err(e) => Err(e),
                        Ok(_) => Ok(()),
                    }
                }
            },
            Ok(v) => {
                proof {
                    crate::storage::lemma_reconstruct_variant_state(old(self)@[order_id]);
                }
                let actual = v.state();
                Err(Error::InvalidOrderType { id: order_id, actual })
            },
        }
    }

    /// Removes an item from the stored order with the given id, timestamped
    /// with the current wall-clock time. Requires the order to exist and to
    /// be in the Created phase. If the removal empties the order, the order
    /// is cancelled instead of being left empty.
    pub fn remove_line_item(&mut self, order_id: u128, item_id: u128) -> (r: Result<(), Error>)
        ensures
            exists|now: i64|
                final(self)@ == (#[trigger] spec_remove_line_item(
                    old(self)@,
                    order_id,
                    item_id,
                    now,
                )).0 && r == spec_remove_line_item(old(self)@, order_id, item_id, now).1,
    {
        let now = current_time_millis();
        let r = self.remove_line_item_at(order_id, item_id, now);
        r
    }

    /// Confirms the stored order with the given id at the given time: the
    /// deterministic core of [`OrderService::confirm`].
    pub fn confirm_at(&mut self, order_id: u128, now: i64) -> (r: Result<(), Error>)
        ensures
            final(self)@ == spec_confirm(old(self)@, order_id, now).0,
            r == spec_confirm(old(self)@, order_id, now).1,
    {
        match self.repo.get(order_id) {
            Err(e) => Err(e),
            Ok(OrderVariant::Created(order)) => {
                let confirmed = order.confirm(now);
                match self.repo.save(OrderVariant::from(confirmed)) {
                    Err(e) => Err(e),
                    Ok(_) => Ok(()),
                }
            },
            Ok(v) => {
                proof {
                    crate::storage::lemma_reconstruct_variant_state(old(self)@[order_id]);
                }
                let actual = v.state();
                Err(Error::InvalidOrderType { id: order_id, actual })
            },
        }
    }

    /// Confirms the stored order with the given id, timestamped with the
    /// current wall-clock time. Requires the order to exist and to be in the
    /// Created phase; fails with `OrderNotFound` or `InvalidOrderType`
    /// otherwise, changing nothing.
    pub fn confirm(&mut self, order_id: u128) -> (r: Result<(), Error>)
        ensures
            exists|now: i64|
                final(self)@ == (#[trigger] spec_confirm(old(self)@, order_id, now)).0 && r
                    == spec_confirm(old(self)@, order_id, now).1,
    {
        let now = current_time_millis();
        let r = self.confirm_at(order_id, now);
        r
    }

    /// Cancels the stored order with the given id at the given time: the
    /// deterministic core of [`OrderService::cancel`].
    pub fn cancel_at(&mut self, order_id: u128, now: i64) -> (r: Result<(), Error>)
        ensures
            final(self)@ == spec_cancel(old(self)@, order_id, now).0,
            r == spec_cancel(old(self)@, order_id, now).1,
    {
        match self.repo.get(order_id) {
            Err(e) => Err(e),
            Ok(OrderVariant::Created(order)) => {
                let cancelled = order.cancel(now);
                match self.repo.save(OrderVariant::from(cancelled)) {
                    Err(e) => Err(e),
                    Ok(_) => Ok(()),
                }
            },
            Ok(OrderVariant::Confirmed(order)) => {
                let cancelled = order.cancel(now);
                match self.repo.save(OrderVariant::from(cancelled)) {
                    Err(e) => Err(e),
                    Ok(_) => Ok(()),
                }
            },
            Ok(v) => {
                proof {
                    crate::storage::lemma_reconstruct_variant_state(old(self)@[order_id]);
                }
                let actual = v.state();
                Err(Error::InvalidOrderType { id: order_id, actual })
            },
        }
    }

    /// Cancels the stored order with the given id, timestamped with the
    /// current wall-clock time. Requires the order to exist and to be in the
    /// Created or Confirmed phase; fails with `OrderNotFound` or
    /// `InvalidOrderType` otherwise, changing nothing.
    pub fn cancel(&mut self, order_id: u128) -> (r: Result<(), Error>)
        ensures
            exists|now: i64|
                final(self)@ == (#[trigger] spec_cancel(old(self)@, order_id, now)).0 && r
                    == spec_cancel(old(self)@, order_id, now).1,
    {
        let now = current_time_millis();
        let r = self.cancel_at(order_id, now);
        r
    }

    /// Ships the stored order with the given id, with the given shipped
    /// timestamp and tracking id. Requires the order to exist and to be in
    /// the Confirmed phase; fails with `OrderNotFound` or `InvalidOrderType`
    /// otherwise, changing nothing.
    pub fn ship(&mut self, order_id: u128, shipped_at: i64, tracking_id: String) -> (r: Result<
        (),
        Error,
    >)
        ensures
            final(self)@ == spec_ship(old(self)@, order_id, shipped_at, tracking_id@).0,
            r == spec_ship(old(self)@, order_id, shipped_at, tracking_id@).1,
    {
        match self.repo.get(order_id) {
            Err(e) => Err(e),
            Ok(OrderVariant::Confirmed(order)) => {
                let shipped = order.ship(shipped_at, tracking_id);
                match self.repo.save(OrderVariant::from(shipped)) {
                    Err(e) => Err(e),
                    Ok(_) => Ok(()),
                }
            },
            Ok(v) => {
                proof {
                    crate::storage::lemma_reconstruct_variant_state(old(self)@[order_id]);
                }
                let actual = v.state();
                Err(Error::InvalidOrderType { id: order_id, actual })
            },
        }
    }

    /// Retrieves the stored order with the given id at its current phase.
    pub fn get(&self, id: u128) -> (r: Result<OrderVariant, Error>)
        ensures
            variant_result_matches(r, spec_get(self@, id)),
    {
        self.repo.get(id)
    }
}

/// For every non-empty item sequence, `create` succeeds, and the order then
/// stored under the returned id is in the Created phase, holds exactly the
/// given items, and has `created_at == updated_at`.
pub proof fn lemma_create_nonempty_stores_created(
    pre: Map<u128, PersistedOrderView>,
    id: u128,
    items: Seq<LineItem>,
    now: i64,
)
    requires
        items.len() > 0,
    ensures
        spec_create(pre, id, items, now).1 == Ok::<u128, Error>(id),
        spec_get(spec_create(pre, id, items, now).0, id) matches Ok(OrderVariantView::Created(o))
            && o.id == id && o.items == items && o.created_at == o.updated_at && o.created_at
            == now,
{
    let o = OrderView { id, items, created_at: now, updated_at: now, state: Created };
    crate::storage::lemma_round_trip_created(o);
}

/// `create` with an empty item sequence always fails with `EmptyOrder` and
/// stores no record.
pub proof fn lemma_create_empty_stores_nothing(
    pre: Map<u128, PersistedOrderView>,
    id: u128,
    items: Seq<LineItem>,
    now: i64,
)
    requires
        items.len() == 0,
    ensures
        spec_create(pre, id, items, now).0 == pre,
        spec_create(pre, id, items, now).1 == Err::<u128, Error>(Error::EmptyOrder),
{
}

/// For every stored order in the Created phase, `add_line_item` succeeds,
/// increases the stored item count by exactly one, and sets the stored
/// `updated_at` to the call time; whenever the call time is not earlier than
/// the last update, the stored `updated_at` is monotonic.
pub proof fn lemma_add_line_item_increases_count(
    pre: Map<u128, PersistedOrderView>,
    order_id: u128,
    item: LineItem,
    now: i64,
)
    requires
        pre.contains_key(order_id),
        spec_reconstruct_variant(pre[order_id]) matches Ok(v) && v is Created,
        pre[order_id].id == order_id,
    ensures
        ({
            let (post, r) = spec_add_line_item(pre, order_id, item, now);
            &&& r == Ok::<(), Error>(())
            &&& post.contains_key(order_id)
            &&& post[order_id].items.len() == pre[order_id].items.len() + 1
            &&& post[order_id].updated_at == now
            &&& now >= pre[order_id].updated_at ==> post[order_id].updated_at
                >= pre[order_id].updated_at
        }),
{
}

/// Removing the last remaining item from a stored Created order transitions
/// it to Cancelled, not to an empty Created order.
pub proof fn lemma_remove_last_item_cancels(
    pre: Map<u128, PersistedOrderView>,
    order_id: u128,
    item_id: u128,
    now: i64,
)
    requires
        pre.contains_key(order_id),
        spec_reconstruct_variant(pre[order_id]) matches Ok(v) && v is Created,
        pre[order_id].id == order_id,
        forall|j: int|
            0 <= j < pre[order_id].items.len() ==> (#[trigger] pre[order_id].items[j]).id
                == item_id,
    ensures
        ({
            let (post, r) = spec_remove_line_item(pre, order_id, item_id, now);
            r == Ok::<(), Error>(()) && post[order_id].state is Cancelled
                && post[order_id].cancelled_at == Some(now) && post[order_id].items.len() == 0
        }),
{
    let pred = |i: LineItem| i.id != item_id;
    assert(pre[order_id].items.all(|i: LineItem| !pred(i)));
    pre[order_id].items.lemma_all_neg_filter_empty(pred);
}

/// Removing an item that is not the last one leaves the stored order in the
/// Created phase, holding exactly the items whose id was not removed.
pub proof fn lemma_remove_non_last_item_keeps_created(
    pre: Map<u128, PersistedOrderView>,
    order_id: u128,
    item_id: u128,
    now: i64,
)
    requires
        pre.contains_key(order_id),
        spec_reconstruct_variant(pre[order_id]) matches Ok(v) && v is Created,
        pre[order_id].id == order_id,
        exists|j: int|
            0 <= j < pre[order_id].items.len() && (#[trigger] pre[order_id].items[j]).id
                != item_id,
    ensures
        ({
            let (post, r) = spec_remove_line_item(pre, order_id, item_id, now);
            r == Ok::<(), Error>(()) && post[order_id].state is Created && post[order_id].items
                == pre[order_id].items.filter(|i: LineItem| i.id != item_id)
                && post[order_id].items.len() > 0 && post[order_id].updated_at == now
        }),
{
    let pred = |i: LineItem| i.id != item_id;
    let j = choose|j: int|
        0 <= j < pre[order_id].items.len() && (#[trigger] pre[order_id].items[j]).id != item_id;
    pre[order_id].items.lemma_filter_contains(pred, j);
}

/// `confirm` on a stored order in any phase other than Created always fails
/// with `InvalidOrderType` and does not change the store.
pub proof fn lemma_confirm_non_created_fails(
    pre: Map<u128, PersistedOrderView>,
    order_id: u128,
    now: i64,
)
    requires
        pre.contains_key(order_id),
        spec_reconstruct_variant(pre[order_id]) matches Ok(v) && !(v is Created),
    ensures
        spec_confirm(pre, order_id, now).0 == pre,
        spec_confirm(pre, order_id, now).1 == Err::<(), Error>(
            Error::InvalidOrderType { id: order_id, actual: pre[order_id].state },
        ),
{
}

/// `ship` succeeds exactly when the stored order exists, reconstructs, and
/// is in the Confirmed phase.
pub proof fn lemma_ship_succeeds_only_from_confirmed(
    pre: Map<u128, PersistedOrderView>,
    order_id: u128,
    shipped_at: i64,
    tracking_id: Seq<char>,
)
    ensures
        spec_ship(pre, order_id, shipped_at, tracking_id).1 is Ok <==> ({
            &&& pre.contains_key(order_id)
            &&& spec_reconstruct_variant(pre[order_id]) matches Ok(v)
            &&& v is Confirmed
        }),
{
}

/// A shipped order round-trips through storage: after a successful `ship`,
/// `get` returns a Shipped order whose tracking id, shipped timestamp and
/// confirmed timestamp are exactly as given and as stored at confirmation.
pub proof fn lemma_ship_round_trips(
    pre: Map<u128, PersistedOrderView>,
    order_id: u128,
    shipped_at: i64,
    tracking_id: Seq<char>,
)
    requires
        pre.contains_key(order_id),
        spec_reconstruct_variant(pre[order_id]) matches Ok(v) && v is Confirmed,
        pre[order_id].id == order_id,
    ensures
        ({
            let (post, r) = spec_ship(pre, order_id, shipped_at, tracking_id);
            &&& r == Ok::<(), Error>(())
            &&& spec_get(post, order_id) matches Ok(OrderVariantView::Shipped(s))
            &&& s.state.tracking_id == tracking_id
            &&& s.state.shipped_at == shipped_at
            &&& Some(s.state.confirmed_at) == pre[order_id].confirmed_at
            &&& s.items == pre[order_id].items
        }),
{
    match spec_reconstruct_variant(pre[order_id]) {
        Ok(OrderVariantView::Confirmed(o)) => {
            let o2 = OrderView {
                id: o.id,
                items: o.items,
                created_at: o.created_at,
                updated_at: o.updated_at,
                state: ShippedView { confirmed_at: o.state.confirmed_at, shipped_at, tracking_id },
            };
            crate::storage::lemma_round_trip_shipped(o2);
        },
        _ => {},
    }
}

} // verus!

