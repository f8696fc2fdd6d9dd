//! Volume-weighted average price execution: aligns child orders with the
//! natural volume distribution of the day. The splitting logic itself is
//! not implemented; the strategy currently emits no child orders.

use vstd::prelude::*;
use crate::models::{ChildOrder, ParentOrder};
use crate::strategies::common::OrderSplitStrategy;

verus! {

pub struct VWAPStrategy;

impl OrderSplitStrategy for VWAPStrategy {
    fn split(&self, _parent_order: &ParentOrder) -> (r: Vec<ChildOrder>)
        ensures
            r@ == Seq::<ChildOrder>::empty(),
    {
        Vec::new()
    }
}

} // verus!
