//! The order aggregate: a struct generic over a phase marker type, so that
//! only phase-appropriate operations exist on each concrete phase, together
//! with the phase-erased `OrderVariant` used wherever the phase is only known
//! at run time.

use vstd::prelude::*;

use crate::errors::Error;
use crate::line_item::LineItem;
use crate::storage::OrderState;

verus! {

/// Marker type for an order that is still open for modifications.
#[derive(Clone, Copy, Debug, PartialEq, Eq, Structural)]
pub struct Created;

/// Marker type for an order that has been confirmed (items are frozen).
#[derive(Clone, Copy, Debug, PartialEq, Eq, Structural)]
pub struct Confirmed {
    pub confirmed_at: i64,
}

/// Marker type for an order that has been cancelled.
#[derive(Clone, Copy, Debug, PartialEq, Eq, Structural)]
pub struct Cancelled {
    pub cancelled_at: i64,
}

/// Marker type for an order that has been shipped. It carries the confirmed
/// timestamp, the shipped timestamp and a tracking id.
#[derive(Clone, Debug, PartialEq, Eq)]
pub struct Shipped {
    pub confirmed_at: i64,
    pub shipped_at: i64,
    pub tracking_id: String,
}

/// The mathematical value of a [`Shipped`] marker: the tracking id as a
/// character sequence.
#[verifier::ext_equal]
pub struct ShippedView {
    pub confirmed_at: i64,
    pub shipped_at: i64,
    pub tracking_id: Seq<char>,
}

impl View for Created {
    type V = Created;

    open spec fn view(&self) -> Created {
        Created
    }
}

impl View for Confirmed {
    type V = Confirmed;

    open spec fn view(&self) -> Confirmed {
        *self
    }
}

impl View for Cancelled {
    type V = Cancelled;

    open spec fn view(&self) -> Cancelled {
        *self
    }
}

impl View for Shipped {
    type V = ShippedView;

    open spec fn view(&self) -> ShippedView {
        ShippedView {
            confirmed_at: self.confirmed_at,
            shipped_at: self.shipped_at,
            tracking_id: self.tracking_id@,
        }
    }
}

/// The core order aggregate, generic over its phase.
#[derive(Clone, Debug, PartialEq, Eq)]
pub struct Order<State> {
    pub id: u128,
    pub line_items: Vec<LineItem>,
    pub created_at: i64,
    pub updated_at: i64,
    pub state: State,
}

/// The mathematical value of an [`Order`]: the same fields with the line
/// items as a sequence and the phase data as its own view.
#[verifier::ext_equal]
pub struct OrderView<SV> {
    pub id: u128,
    pub items: Seq<LineItem>,
    pub created_at: i64,
    pub updated_at: i64,
    pub state: SV,
}

impl<State: View> View for Order<State> {
    type V = OrderView<<State as View>::V>;

    open spec fn view(&self) -> OrderView<<State as View>::V> {
        OrderView {
            id: self.id,
            items: self.line_items@,
            created_at: self.created_at,
            updated_at: self.updated_at,
            state: self.state@,
        }
    }
}

impl Order<Created> {
    /// Creates a new order in the Created phase, with both timestamps set to
    /// `now`. Fails with `EmptyOrder` if and only if `items` is empty.
    pub fn new(id: u128, items: Vec<LineItem>, now: i64) -> (r: Result<Order<Created>, Error>)
        ensures
            items@.len() == 0 ==> r == Err::<Order<Created>, Error>(Error::EmptyOrder),
            items@.len() > 0 ==> (r matches Ok(o) && o@ == (OrderView {
                id,
                items: items@,
                created_at: now,
                updated_at: now,
                state: Created,
            })),
    {
        if items.is_empty() {
            Err(Error::EmptyOrder)
        } else {
            Ok(Order { id, line_items: items, created_at: now, updated_at: now, state: Created })
        }
    }

    /// Appends an item and bumps `updated_at` to `now`. No upper bound on the
    /// item count is enforced.
    pub fn add_line_item(&mut self, item: LineItem, now: i64)
        ensures
            final(self)@ == (OrderView {
                items: old(self)@.items.push(item),
                updated_at: now,
                ..old(self)@
            }),
    {
        self.line_items.push(item);
        self.updated_at = now;
    }

    /// Removes every item whose id is `item_id` and bumps `updated_at` to
    /// `now`. A missing id is an idempotent no-op; emptying the list is the
    /// caller's concern, not the aggregate's.
    pub fn remove_item(&mut self, item_id: u128, now: i64)
        ensures
            final(self)@ == (OrderView {
                items: old(self)@.items.filter(|i: LineItem| i.id != item_id),
                updated_at: now,
                ..old(self)@
            }),
    {
        let mut kept: Vec<LineItem> = Vec::new();
        let mut i: usize = 0;
        while i < self.line_items.len()
            invariant
                i <= self.line_items.len(),
                kept@ == self.line_items@.subrange(0, i as int).filter(
                    |it: LineItem| it.id != item_id,
                ),
            decreases self.line_items.len() - i,
        {
            let ghost prefix = self.line_items@.subrange(0, i as int);
            let item = self.line_items[i];
            if item.id != item_id {
                kept.push(item);
            }
            i = i + 1;
            proof {
                assert(self.line_items@.subrange(0, i as int) =~= prefix.push(item));
                prefix.lemma_filter_push(item, |it: LineItem| it.id != item_id);
            }
        }
        proof {
            assert(self.line_items@.subrange(0, self.line_items@.len() as int)
                =~= self.line_items@);
        }
        self.line_items = kept;
        self.updated_at = now;
    }

    /// Confirms the order: items are frozen from here on. Unconditional;
    /// `updated_at` is kept as it was.
    pub fn confirm(self, confirmed_at: i64) -> (r: Order<Confirmed>)
        ensures
            r@ == (OrderView {
                id: self@.id,
                items: self@.items,
                created_at: self@.created_at,
                updated_at: self@.updated_at,
                state: Confirmed { confirmed_at },
            }),
    {
        Order {
            id: self.id,
            line_items: self.line_items,
            created_at: self.created_at,
            updated_at: self.updated_at,
            state: Confirmed { confirmed_at },
        }
    }

    /// Cancels the created order. Unconditional.
    pub fn cancel(self, cancelled_at: i64) -> (r: Order<Cancelled>)
        ensures
            r@ == (OrderView {
                id: self@.id,
                items: self@.items,
                created_at: self@.created_at,
                updated_at: self@.updated_at,
                state: Cancelled { cancelled_at },
            }),
    {
        Order {
            id: self.id,
            line_items: self.line_items,
            created_at: self.created_at,
            updated_at: self.updated_at,
            state: Cancelled { cancelled_at },
        }
    }
}

impl Order<Confirmed> {
    /// Ships the confirmed order. The tracking id is accepted as an opaque
    /// string, not validated for format.
    pub fn ship(self, shipped_at: i64, tracking_id: String) -> (r: Order<Shipped>)
        ensures
            r@ == (OrderView {
                id: self@.id,
                items: self@.items,
                created_at: self@.created_at,
                updated_at: self@.updated_at,
                state: ShippedView {
                    confirmed_at: self@.state.confirmed_at,
                    shipped_at,
                    tracking_id: tracking_id@,
                },
            }),
    {
        Order {
            id: self.id,
            line_items: self.line_items,
            created_at: self.created_at,
            updated_at: self.updated_at,
            state: Shipped { confirmed_at: self.state.confirmed_at, shipped_at, tracking_id },
        }
    }

    pub fn confirmed_at(&self) -> (r: i64)
        ensures
            r == self@.state.confirmed_at,
    {
        self.state.confirmed_at
    }

    /// Cancels the confirmed order (cancellation is permitted
    /// post-confirmation, pre-shipment).
    pub fn cancel(self, cancelled_at: i64) -> (r: Order<Cancelled>)
        ensures
            r@ == (OrderView {
                id: self@.id,
                items: self@.items,
                created_at: self@.created_at,
                updated_at: self@.updated_at,
                state: Cancelled { cancelled_at },
            }),
    {
        Order {
            id: self.id,
            line_items: self.line_items,
            created_at: self.created_at,
            updated_at: self.updated_at,
            state: Cancelled { cancelled_at },
        }
    }
}

impl Order<Cancelled> {
    pub fn cancelled_at(&self) -> (r: i64)
        ensures
            r == self@.state.cancelled_at,
    {
        self.state.cancelled_at
    }
}

impl Order<Shipped> {
    /// Returns a copy of the tracking id of the shipped order.
    pub fn tracking_id(&self) -> (r: String)
        ensures
            r@ == self@.state.tracking_id,
    {
        self.state.tracking_id.clone()
    }

    pub fn confirmed_at(&self) -> (r: i64)
        ensures
            r == self@.state.confirmed_at,
    {
        self.state.confirmed_at
    }

    pub fn shipped_at(&self) -> (r: i64)
        ensures
            r == self@.state.shipped_at,
    {
        self.state.shipped_at
    }
}

/// A closed sum over the four concrete phases, used wherever an order of
/// unknown, runtime-determined phase must be handled.
#[derive(Clone, Debug, PartialEq)]
pub enum OrderVariant {
    Created(Order<Created>),
    Confirmed(Order<Confirmed>),
    Shipped(Order<Shipped>),
    Cancelled(Order<Cancelled>),
}

/// The mathematical value of an [`OrderVariant`].
#[verifier::ext_equal]
pub enum OrderVariantView {
    Created(OrderView<Created>),
    Confirmed(OrderView<Confirmed>),
    Shipped(OrderView<ShippedView>),
    Cancelled(OrderView<Cancelled>),
}

impl View for OrderVariant {
    type V = OrderVariantView;

    open spec fn view(&self) -> OrderVariantView {
        match self {
            OrderVariant::Created(o) => OrderVariantView::Created(o@),
            OrderVariant::Confirmed(o) => OrderVariantView::Confirmed(o@),
            OrderVariant::Shipped(o) => OrderVariantView::Shipped(o@),
            OrderVariant::Cancelled(o) => OrderVariantView::Cancelled(o@),
        }
    }
}

impl OrderVariantView {
    /// The id of the carried order, whichever the phase.
    pub open spec fn order_id(self) -> u128 {
        match self {
            OrderVariantView::Created(o) => o.id,
            OrderVariantView::Confirmed(o) => o.id,
            OrderVariantView::Shipped(o) => o.id,
            OrderVariantView::Cancelled(o) => o.id,
        }
    }

    /// The phase of the carried order as a stored discriminator.
    pub open spec fn state_of(self) -> OrderState {
        match self {
            OrderVariantView::Created(_) => OrderState::Created,
            OrderVariantView::Confirmed(_) => OrderState::Confirmed,
            OrderVariantView::Shipped(_) => OrderState::Shipped,
            OrderVariantView::Cancelled(_) => OrderState::Cancelled,
        }
    }
}

impl OrderVariant {
    /// The id of the carried order; defined for all variants.
    pub fn id(&self) -> (r: u128)
        ensures
            r == self@.order_id(),
    {
        match self {
            OrderVariant::Created(order) => order.id,
            OrderVariant::Confirmed(order) => order.id,
            OrderVariant::Shipped(order) => order.id,
            OrderVariant::Cancelled(order) => order.id,
        }
    }

    /// The phase of the carried order as a stored discriminator.
    pub fn state(&self) -> (r: OrderState)
        ensures
            r == self@.state_of(),
    {
        match self {
            OrderVariant::Created(_) => OrderState::Created,
            OrderVariant::Confirmed(_) => OrderState::Confirmed,
            OrderVariant::Shipped(_) => OrderState::Shipped,
            OrderVariant::Cancelled(_) => OrderState::Cancelled,
        }
    }
}

impl From<Order<Created>> for OrderVariant {
    fn from(order: Order<Created>) -> (r: OrderVariant) {
        OrderVariant::Created(order)
    }
}

impl vstd::std_specs::convert::FromSpecImpl<Order<Created>> for OrderVariant {
    open spec fn obeys_from_spec() -> bool {
        true
    }

    open spec fn from_spec(order: Order<Created>) -> OrderVariant {
        OrderVariant::Created(order)
    }
}

impl From<Order<Confirmed>> for OrderVariant {
    fn from(order: Order<Confirmed>) -> (r: OrderVariant) {
        OrderVariant::Confirmed(order)
    }
}

impl vstd::std_specs::convert::FromSpecImpl<Order<Confirmed>> for OrderVariant {
    open spec fn obeys_from_spec() -> bool {
        true
    }

    open spec fn from_spec(order: Order<Confirmed>) -> OrderVariant {
        OrderVariant::Confirmed(order)
    }
}

impl From<Order<Shipped>> for OrderVariant {
    fn from(order: Order<Shipped>) -> (r: OrderVariant) {
        OrderVariant::Shipped(order)
    }
}

impl vstd::std_specs::convert::FromSpecImpl<Order<Shipped>> for OrderVariant {
    open spec fn obeys_from_spec() -> bool {
        true
    }

    open spec fn from_spec(order: Order<Shipped>) -> OrderVariant {
        OrderVariant::Shipped(order)
    }
}

impl From<Order<Cancelled>> for OrderVariant {
    fn from(order: Order<Cancelled>) -> (r: OrderVariant) {
        OrderVariant::Cancelled(order)
    }
}

impl vstd::std_specs::convert::FromSpecImpl<Order<Cancelled>> for OrderVariant {
    open spec fn obeys_from_spec() -> bool {
        true
    }

    open spec fn from_spec(order: Order<Cancelled>) -> OrderVariant {
        OrderVariant::Cancelled(order)
    }
}

} // verus!
