//! An order-lifecycle library: a typestate-driven `Order` aggregate that moves
//! through a fixed sequence of phases (Created, Confirmed, Shipped, with
//! cancellation from Created or Confirmed), a phase-erased storage record with
//! a state-validating mapping back to typed orders, an in-memory keyed
//! repository, and a service layer that enforces each operation's legal source
//! phases.

pub mod errors;
pub mod item;
pub mod line_item;
pub mod order;
pub mod repository;
pub mod service;
pub mod storage;
