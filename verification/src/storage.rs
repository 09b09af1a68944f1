//! The flattened storage representation of an order: one wide record for all
//! phases, with a discriminator and optional phase-specific fields, and the
//! state-validating mapping between records and typed orders. Flattening is
//! total and lossless; reconstruction is partial and rejects a wrong
//! discriminator or a missing phase-required field.

use vstd::prelude::*;

use crate::errors::Error;
use crate::errors::MissingFieldKind;
use crate::line_item::LineItem;
use crate::order::Cancelled;
use crate::order::Confirmed;
use crate::order::Created;
use crate::order::Order;
use crate::order::OrderVariant;
use crate::order::OrderVariantView;
use crate::order::OrderView;
use crate::order::Shipped;
use crate::order::ShippedView;

verus! {

/// The stored discriminator: which lifecycle phase a flattened record claims.
#[derive(Clone, Copy, Debug, PartialEq, Eq, Structural)]
pub enum OrderState {
    Created,
    Confirmed,
    Shipped,
    Cancelled,
}

/// A flattened, phase-erased record of an order, suitable for storage.
/// Phase-inapplicable fields are left absent.
#[derive(Clone, Debug, PartialEq)]
pub struct PersistedOrder {
    pub id: u128,
    pub items: Vec<LineItem>,
    pub created_at: i64,
    pub updated_at: i64,
    pub state: OrderState,
    pub confirmed_at: Option<i64>,
    pub shipped_at: Option<i64>,
    pub tracking_id: Option<String>,
    pub cancelled_at: Option<i64>,
}

/// The mathematical value of a [`PersistedOrder`].
#[verifier::ext_equal]
pub struct PersistedOrderView {
    pub id: u128,
    pub items: Seq<LineItem>,
    pub created_at: i64,
    pub updated_at: i64,
    pub state: OrderState,
    pub confirmed_at: Option<i64>,
    pub shipped_at: Option<i64>,
    pub tracking_id: Option<Seq<char>>,
    pub cancelled_at: Option<i64>,
}

impl View for PersistedOrder {
    type V = PersistedOrderView;

    open spec fn view(&self) -> PersistedOrderView {
        PersistedOrderView {
            id: self.id,
            items: self.items@,
            created_at: self.created_at,
            updated_at: self.updated_at,
            state: self.state,
            confirmed_at: self.confirmed_at,
            shipped_at: self.shipped_at,
            tracking_id: match self.tracking_id {
                Some(s) => Some(s@),
                None => None,
            },
            cancelled_at: self.cancelled_at,
        }
    }
}

impl PersistedOrderView {
    /// The storage invariant: the set of present optional fields exactly
    /// matches what the discriminator implies. Every flattened order
    /// satisfies it by construction; reads check the "present" half and
    /// signal `MissingField` where it fails.
    pub open spec fn wf(self) -> bool {
        match self.state {
            OrderState::Created => self.confirmed_at is None && self.shipped_at is None
                && self.tracking_id is None && self.cancelled_at is None,
            OrderState::Confirmed => self.confirmed_at is Some && self.shipped_at is None
                && self.tracking_id is None && self.cancelled_at is None,
            OrderState::Shipped => self.confirmed_at is Some && self.shipped_at is Some
                && self.tracking_id is Some && self.cancelled_at is None,
            OrderState::Cancelled => self.confirmed_at is None && self.shipped_at is None
                && self.tracking_id is None && self.cancelled_at is Some,
        }
    }
}

/// What flattening an order in the Created phase stores.
pub open spec fn spec_flatten_created(o: OrderView<Created>) -> PersistedOrderView {
    PersistedOrderView {
        id: o.id,
        items: o.items,
        created_at: o.created_at,
        updated_at: o.updated_at,
        state: OrderState::Created,
        confirmed_at: None,
        shipped_at: None,
        tracking_id: None,
        cancelled_at: None,
    }
}

/// What flattening an order in the Confirmed phase stores.
pub open spec fn spec_flatten_confirmed(o: OrderView<Confirmed>) -> PersistedOrderView {
    PersistedOrderView {
        id: o.id,
        items: o.items,
        created_at: o.created_at,
        updated_at: o.updated_at,
        state: OrderState::Confirmed,
        confirmed_at: Some(o.state.confirmed_at),
        shipped_at: None,
        tracking_id: None,
        cancelled_at: None,
    }
}

/// What flattening an order in the Shipped phase stores.
pub open spec fn spec_flatten_shipped(o: OrderView<ShippedView>) -> PersistedOrderView {
    PersistedOrderView {
        id: o.id,
        items: o.items,
        created_at: o.created_at,
        updated_at: o.updated_at,
        state: OrderState::Shipped,
        confirmed_at: Some(o.state.confirmed_at),
        shipped_at: Some(o.state.shipped_at),
        tracking_id: Some(o.state.tracking_id),
        cancelled_at: None,
    }
}

/// What flattening an order in the Cancelled phase stores.
pub open spec fn spec_flatten_cancelled(o: OrderView<Cancelled>) -> PersistedOrderView {
    PersistedOrderView {
        id: o.id,
        items: o.items,
        created_at: o.created_at,
        updated_at: o.updated_at,
        state: OrderState::Cancelled,
        confirmed_at: None,
        shipped_at: None,
        tracking_id: None,
        cancelled_at: Some(o.state.cancelled_at),
    }
}

/// What flattening an order of runtime-determined phase stores.
pub open spec fn spec_flatten_variant(v: OrderVariantView) -> PersistedOrderView {
    match v {
        OrderVariantView::Created(o) => spec_flatten_created(o),
        OrderVariantView::Confirmed(o) => spec_flatten_confirmed(o),
        OrderVariantView::Shipped(o) => spec_flatten_shipped(o),
        OrderVariantView::Cancelled(o) => spec_flatten_cancelled(o),
    }
}

/// What reading a record as a Created order yields: the order, or
/// `InvalidOrderType` on a wrong discriminator. The Created phase requires no
/// optional field.
pub open spec fn spec_reconstruct_created(p: PersistedOrderView) -> Result<
    OrderView<Created>,
    Error,
> {
    if p.state != OrderState::Created {
        Err(Error::InvalidOrderType { id: p.id, actual: p.state })
    } else {
        Ok(
            OrderView {
                id: p.id,
                items: p.items,
                created_at: p.created_at,
                updated_at: p.updated_at,
                state: Created,
            },
        )
    }
}

/// What reading a record as a Confirmed order yields: `InvalidOrderType` on a
/// wrong discriminator, `MissingField` if `confirmed_at` is absent.
pub open spec fn spec_reconstruct_confirmed(p: PersistedOrderView) -> Result<
    OrderView<Confirmed>,
    Error,
> {
    if p.state != OrderState::Confirmed {
        Err(Error::InvalidOrderType { id: p.id, actual: p.state })
    } else {
        match p.confirmed_at {
            None => Err(Error::MissingField(MissingFieldKind::ConfirmedAt)),
            Some(confirmed_at) => Ok(
                OrderView {
                    id: p.id,
                    items: p.items,
                    created_at: p.created_at,
                    updated_at: p.updated_at,
                    state: Confirmed { confirmed_at },
                },
            ),
        }
    }
}

/// What reading a record as a Shipped order yields: `InvalidOrderType` on a
/// wrong discriminator, `MissingField` for the first absent one of
/// `confirmed_at`, `shipped_at`, `tracking_id`.
pub open spec fn spec_reconstruct_shipped(p: PersistedOrderView) -> Result<
    OrderView<ShippedView>,
    Error,
> {
    if p.state != OrderState::Shipped {
        Err(Error::InvalidOrderType { id: p.id, actual: p.state })
    } else {
        match (p.confirmed_at, p.shipped_at, p.tracking_id) {
            (None, _, _) => Err(Error::MissingField(MissingFieldKind::ConfirmedAt)),
            (Some(_), None, _) => Err(Error::MissingField(MissingFieldKind::ShippedAt)),
            (Some(_), Some(_), None) => Err(Error::MissingField(MissingFieldKind::TrackingId)),
            (Some(confirmed_at), Some(shipped_at), Some(tracking_id)) => Ok(
                OrderView {
                    id: p.id,
                    items: p.items,
                    created_at: p.created_at,
                    updated_at: p.updated_at,
                    state: ShippedView { confirmed_at, shipped_at, tracking_id },
                },
            ),
        }
    }
}

/// What reading a record as a Cancelled order yields: `InvalidOrderType` on a
/// wrong discriminator, `MissingField` if `cancelled_at` is absent.
pub open spec fn spec_reconstruct_cancelled(p: PersistedOrderView) -> Result<
    OrderView<Cancelled>,
    Error,
> {
    if p.state != OrderState::Cancelled {
        Err(Error::InvalidOrderType { id: p.id, actual: p.state })
    } else {
        match p.cancelled_at {
            None => Err(Error::MissingField(MissingFieldKind::CancelledAt)),
            Some(cancelled_at) => Ok(
                OrderView {
                    id: p.id,
                    items: p.items,
                    created_at: p.created_at,
                    updated_at: p.updated_at,
                    state: Cancelled { cancelled_at },
                },
            ),
        }
    }
}

/// What reading a record at its own discriminator yields: an order of the
/// claimed phase, or `MissingField` if a phase-required field is absent.
pub open spec fn spec_reconstruct_variant(p: PersistedOrderView) -> Result<
    OrderVariantView,
    Error,
> {
    match p.state {
        OrderState::Created => match spec_reconstruct_created(p) {
            Ok(o) => Ok(OrderVariantView::Created(o)),
            Err(e) => Err(e),
        },
        OrderState::Confirmed => match spec_reconstruct_confirmed(p) {
            Ok(o) => Ok(OrderVariantView::Confirmed(o)),
            Err(e) => Err(e),
        },
        OrderState::Shipped => match spec_reconstruct_shipped(p) {
            Ok(o) => Ok(OrderVariantView::Shipped(o)),
            Err(e) => Err(e),
        },
        OrderState::Cancelled => match spec_reconstruct_cancelled(p) {
            Ok(o) => Ok(OrderVariantView::Cancelled(o)),
            Err(e) => Err(e),
        },
    }
}

/// Relates an executable reconstruction result to its specification: errors
/// agree exactly, and a recovered order has the specified value.
pub open spec fn reconstruct_matches<S: View>(
    r: Result<Order<S>, Error>,
    s: Result<OrderView<<S as View>::V>, Error>,
) -> bool {
    match s {
        Ok(ov) => r matches Ok(o) && o@ == ov,
        Err(e) => r == Err::<Order<S>, Error>(e),
    }
}

/// Relates an executable variant reconstruction result to its specification.
pub open spec fn variant_result_matches(
    r: Result<OrderVariant, Error>,
    s: Result<OrderVariantView, Error>,
) -> bool {
    match s {
        Ok(vv) => r matches Ok(v) && v@ == vv,
        Err(e) => r == Err::<OrderVariant, Error>(e),
    }
}

/// Copies a line-item vector element by element.
fn copy_line_items(v: &Vec<LineItem>) -> (r: Vec<LineItem>)
    ensures
        r@ == v@,
{
    let mut r: Vec<LineItem> = Vec::new();
    let mut i: usize = 0;
    while i < v.len()
        invariant
            i <= v.len(),
            r@ == v@.subrange(0, i as int),
        decreases v.len() - i,
    {
        r.push(v[i]);
        i = i + 1;
        proof {
            assert(r@ =~= v@.subrange(0, i as int));
        }
    }
    proof {
        assert(r@ =~= v@);
    }
    r
}

impl Order<Created> {
    /// Flattens the order into its storage record.
    pub fn flatten(self) -> (r: PersistedOrder)
        ensures
            r@ == spec_flatten_created(self@),
            r@.wf(),
    {
        PersistedOrder {
            id: self.id,
            items: self.line_items,
            created_at: self.created_at,
            updated_at: self.updated_at,
            state: OrderState::Created,
            confirmed_at: None,
            shipped_at: None,
            tracking_id: None,
            cancelled_at: None,
        }
    }

    /// Reads a stored record as a Created order, rejecting any other
    /// discriminator.
    pub fn reconstruct(rec: &PersistedOrder) -> (r: Result<Order<Created>, Error>)
        ensures
            reconstruct_matches(r, spec_reconstruct_created(rec@)),
    {
        if !matches!(rec.state, OrderState::Created) {
            return Err(Error::InvalidOrderType { id: rec.id, actual: rec.state });
        }
        Ok(
            Order {
                id: rec.id,
                line_items: copy_line_items(&rec.items),
                created_at: rec.created_at,
                updated_at: rec.updated_at,
                state: Created,
            },
        )
    }
}

impl Order<Confirmed> {
    /// Flattens the order into its storage record.
    pub fn flatten(self) -> (r: PersistedOrder)
        ensures
            r@ == spec_flatten_confirmed(self@),
            r@.wf(),
    {
        PersistedOrder {
            id: self.id,
            items: self.line_items,
            created_at: self.created_at,
            updated_at: self.updated_at,
            state: OrderState::Confirmed,
            confirmed_at: Some(self.state.confirmed_at),
            shipped_at: None,
            tracking_id: None,
            cancelled_at: None,
        }
    }

    /// Reads a stored record as a Confirmed order, rejecting any other
    /// discriminator and a missing `confirmed_at`.
    pub fn reconstruct(rec: &PersistedOrder) -> (r: Result<Order<Confirmed>, Error>)
        ensures
            reconstruct_matches(r, spec_reconstruct_confirmed(rec@)),
    {
        if !matches!(rec.state, OrderState::Confirmed) {
            return Err(Error::InvalidOrderType { id: rec.id, actual: rec.state });
        }
        match rec.confirmed_at {
            None => Err(Error::MissingField(MissingFieldKind::ConfirmedAt)),
            Some(confirmed_at) => Ok(
                Order {
                    id: rec.id,
                    line_items: copy_line_items(&rec.items),
                    created_at: rec.created_at,
                    updated_at: rec.updated_at,
                    state: Confirmed { confirmed_at },
                },
            ),
        }
    }
}

impl Order<Shipped> {
    /// Flattens the order into its storage record.
    pub fn flatten(self) -> (r: PersistedOrder)
        ensures
            r@ == spec_flatten_shipped(self@),
            r@.wf(),
    {
        PersistedOrder {
            id: self.id,
            items: self.line_items,
            created_at: self.created_at,
            updated_at: self.updated_at,
            state: OrderState::Shipped,
            confirmed_at: Some(self.state.confirmed_at),
            shipped_at: Some(self.state.shipped_at),
            tracking_id: Some(self.state.tracking_id),
            cancelled_at: None,
        }
    }

    /// Reads a stored record as a Shipped order, rejecting any other
    /// discriminator and any missing one of `confirmed_at`, `shipped_at`,
    /// `tracking_id`.
    pub fn reconstruct(rec: &PersistedOrder) -> (r: Result<Order<Shipped>, Error>)
        ensures
            reconstruct_matches(r, spec_reconstruct_shipped(rec@)),
    {
        if !matches!(rec.state, OrderState::Shipped) {
            return Err(Error::InvalidOrderType { id: rec.id, actual: rec.state });
        }
        let confirmed_at = match rec.confirmed_at {
            None => {
                return Err(Error::MissingField(MissingFieldKind::ConfirmedAt));
            },
            Some(t) => t,
        };
        let shipped_at = match rec.shipped_at {
            None => {
                return Err(Error::MissingField(MissingFieldKind::ShippedAt));
            },
            Some(t) => t,
        };
        let tracking_id = match &rec.tracking_id {
            None => {
                return Err(Error::MissingField(MissingFieldKind::TrackingId));
            },
            Some(s) => s.clone(),
        };
        Ok(
            Order {
                id: rec.id,
                line_items: copy_line_items(&rec.items),
                created_at: rec.created_at,
                updated_at: rec.updated_at,
                state: Shipped { confirmed_at, shipped_at, tracking_id },
            },
        )
    }
}

impl Order<Cancelled> {
    /// Flattens the order into its storage record.
    pub fn flatten(self) -> (r: PersistedOrder)
        ensures
            r@ == spec_flatten_cancelled(self@),
            r@.wf(),
    {
        PersistedOrder {
            id: self.id,
            items: self.line_items,
            created_at: self.created_at,
            updated_at: self.updated_at,
            state: OrderState::Cancelled,
            confirmed_at: None,
            shipped_at: None,
            tracking_id: None,
            cancelled_at: Some(self.state.cancelled_at),
        }
    }

    /// Reads a stored record as a Cancelled order, rejecting any other
    /// discriminator and a missing `cancelled_at`.
    pub fn reconstruct(rec: &PersistedOrder) -> (r: Result<Order<Cancelled>, Error>)
        ensures
            reconstruct_matches(r, spec_reconstruct_cancelled(rec@)),
    {
        if !matches!(rec.state, OrderState::Cancelled) {
            return Err(Error::InvalidOrderType { id: rec.id, actual: rec.state });
        }
        match rec.cancelled_at {
            None => Err(Error::MissingField(MissingFieldKind::CancelledAt)),
            Some(cancelled_at) => Ok(
                Order {
                    id: rec.id,
                    line_items: copy_line_items(&rec.items),
                    created_at: rec.created_at,
                    updated_at: rec.updated_at,
                    state: Cancelled { cancelled_at },
                },
            ),
        }
    }
}

impl OrderVariant {
    /// Flattens an order of runtime-determined phase into its storage record.
    pub fn flatten(self) -> (r: PersistedOrder)
        ensures
            r@ == spec_flatten_variant(self@),
            r@.wf(),
    {
        match self {
            OrderVariant::Created(o) => o.flatten(),
            OrderVariant::Confirmed(o) => o.flatten(),
            OrderVariant::Shipped(o) => o.flatten(),
            OrderVariant::Cancelled(o) => o.flatten(),
        }
    }
}

/// Reads a stored record at its own discriminator, yielding an order of the
/// claimed phase, or `MissingField` if a phase-required field is absent.
pub fn reconstruct_variant(rec: &PersistedOrder) -> (r: Result<OrderVariant, Error>)
    ensures
        variant_result_matches(r, spec_reconstruct_variant(rec@)),
{
    match rec.state {
        OrderState::Created => match Order::<Created>::reconstruct(rec) {
            Ok(o) => Ok(OrderVariant::Created(o)),
            Err(e) => Err(e),
        },
        OrderState::Confirmed => match Order::<Confirmed>::reconstruct(rec) {
            Ok(o) => Ok(OrderVariant::Confirmed(o)),
            Err(e) => Err(e),
        },
        OrderState::Shipped => match Order::<Shipped>::reconstruct(rec) {
            Ok(o) => Ok(OrderVariant::Shipped(o)),
            Err(e) => Err(e),
        },
        OrderState::Cancelled => match Order::<Cancelled>::reconstruct(rec) {
            Ok(o) => Ok(OrderVariant::Cancelled(o)),
            Err(e) => Err(e),
        },
    }
}

/// Round-trip law for the Created phase: reconstructing a flattened order
/// gives the order back, field for field.
pub proof fn lemma_round_trip_created(o: OrderView<Created>)
    ensures
        spec_reconstruct_created(spec_flatten_created(o)) == Ok::<OrderView<Created>, Error>(o),
{
    assert(spec_reconstruct_created(spec_flatten_created(o)) matches Ok(o2) && o2 =~= o);
}

/// Round-trip law for the Confirmed phase.
pub proof fn lemma_round_trip_confirmed(o: OrderView<Confirmed>)
    ensures
        spec_reconstruct_confirmed(spec_flatten_confirmed(o)) == Ok::<
            OrderView<Confirmed>,
            Error,
        >(o),
{
    assert(spec_reconstruct_confirmed(spec_flatten_confirmed(o)) matches Ok(o2) && o2 =~= o);
}

/// Round-trip law for the Shipped phase: the tracking id and both timestamps
/// are recovered exactly as stored.
pub proof fn lemma_round_trip_shipped(o: OrderView<ShippedView>)
    ensures
        spec_reconstruct_shipped(spec_flatten_shipped(o)) == Ok::<
            OrderView<ShippedView>,
            Error,
        >(o),
{
    assert(spec_reconstruct_shipped(spec_flatten_shipped(o)) matches Ok(o2) && o2 =~= o);
}

/// Round-trip law for the Cancelled phase.
pub proof fn lemma_round_trip_cancelled(o: OrderView<Cancelled>)
    ensures
        spec_reconstruct_cancelled(spec_flatten_cancelled(o)) == Ok::<
            OrderView<Cancelled>,
            Error,
        >(o),
{
    assert(spec_reconstruct_cancelled(spec_flatten_cancelled(o)) matches Ok(o2) && o2 =~= o);
}

/// Round-trip law for every concrete phase at once: reconstructing any
/// flattened order gives the order back, so flattening drops no field.
pub proof fn lemma_round_trip_variant(v: OrderVariantView)
    ensures
        spec_reconstruct_variant(spec_flatten_variant(v)) == Ok::<OrderVariantView, Error>(v),
{
    match v {
        OrderVariantView::Created(o) => lemma_round_trip_created(o),
        OrderVariantView::Confirmed(o) => lemma_round_trip_confirmed(o),
        OrderVariantView::Shipped(o) => lemma_round_trip_shipped(o),
        OrderVariantView::Cancelled(o) => lemma_round_trip_cancelled(o),
    }
}

/// A record that reconstructs at its own discriminator yields an order of
/// exactly the phase the discriminator claims.
pub proof fn lemma_reconstruct_variant_state(p: PersistedOrderView)
    ensures
        spec_reconstruct_variant(p) matches Ok(v) ==> v.state_of() == p.state,
{
}

/// Type-mismatch law for the typed read path: a record holding a Confirmed
/// order, read as a Created order, fails with `InvalidOrderType`.
pub proof fn lemma_read_confirmed_as_created_fails(p: PersistedOrderView)
    requires
        p.state is Confirmed,
    ensures
        spec_reconstruct_created(p) == Err::<OrderView<Created>, Error>(
            Error::InvalidOrderType { id: p.id, actual: OrderState::Confirmed },
        ),
{
}

/// A well-formed record always reconstructs at its own discriminator:
/// `MissingField` can only signal a record that violates the storage
/// invariant.
pub proof fn lemma_wf_reconstructs(p: PersistedOrderView)
    requires
        p.wf(),
    ensures
        spec_reconstruct_variant(p) is Ok,
{
}

} // verus!
