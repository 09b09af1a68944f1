//! A plain product/quantity pair, kept alongside [`crate::line_item::LineItem`].

use vstd::prelude::*;

verus! {

#[derive(Debug)]
pub struct Item {
    pub id: u128,
    pub quantity: usize,
}

} // verus!
