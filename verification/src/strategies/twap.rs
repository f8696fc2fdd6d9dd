//! Time-weighted average price execution: divides a large order into equal
//! parts spread over a defined period. The splitting logic itself is not
//! implemented; the strategy currently emits no child orders.

use vstd::prelude::*;
use crate::models::{ChildOrder, ParentOrder};
use crate::strategies::common::OrderSplitStrategy;

verus! {

pub struct TWAPStrategy;

impl OrderSplitStrategy for TWAPStrategy {
    fn split(&self, parent_order: &ParentOrder) -> (r: Vec<ChildOrder>)
        ensures
            r@ == Seq::<ChildOrder>::empty(),
    {
        Vec::new()
    }
}

} // verus!
