//! The immutable value object identifying a product and a quantity.

use vstd::prelude::*;

verus! {

/// A product id together with a quantity. Immutable; equal by value.
#[derive(Clone, Copy, Debug, PartialEq, Eq, Structural)]
pub struct LineItem {
    pub id: u128,
    pub quantity: usize,
}

impl LineItem {
    pub fn new(id: u128, quantity: usize) -> (r: LineItem)
        ensures
            r.id == id,
            r.quantity == quantity,
    {
        LineItem { id, quantity }
    }
}

} // verus!
