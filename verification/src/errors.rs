//! The error taxonomy of the library. Every failure is reported by value;
//! none of the verified functions panics.

use vstd::prelude::*;

use crate::storage::OrderState;

verus! {

/// Which phase-specific column of a stored record was absent when a
/// reconstruction required it.
#[derive(Clone, Copy, Debug, PartialEq, Eq, Structural)]
pub enum MissingFieldKind {
    ConfirmedAt,
    ShippedAt,
    TrackingId,
    CancelledAt,
}

/// Everything that can go wrong while creating, transitioning, storing or
/// loading an order. All variants are recoverable and are surfaced to the
/// caller; none is process-fatal.
#[derive(Clone, Copy, Debug, PartialEq, Eq, Structural)]
pub enum Error {
    /// Creation was attempted with zero line items.
    EmptyOrder,
    /// A transition's internal precondition failed. Reserved for stricter
    /// aggregate-level checks; nothing constructs it today.
    InvalidTransition,
    /// No record exists for the given order id.
    OrderNotFound(u128),
    /// An operation was attempted against an order whose current phase does
    /// not permit it, or a typed read found a phase mismatch. Carries the
    /// order's id and its actual stored phase.
    InvalidOrderType { id: u128, actual: OrderState },
    /// A stored record's discriminator claims a phase whose required field is
    /// absent: a corruption signal.
    MissingField(MissingFieldKind),
    /// The storage backend itself failed. The in-memory repository never
    /// produces it; it is part of the taxonomy for other backends.
    RepositoryBackendFailure,
}

} // verus!
