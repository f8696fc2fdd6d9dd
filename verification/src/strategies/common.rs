//! The capability shared by all order-splitting strategies, and helpers
//! common to their implementations.

use vstd::prelude::*;
use vstd::string::StringExecFns;
use crate::decimal::{dec_digits, u64_to_dec};
use crate::models::orders::Side;
use crate::models::{ChildOrder, ParentOrder};

verus! {

/// A strategy that decomposes a parent order into child orders.
pub trait OrderSplitStrategy {
    fn split(&self, parent_order: &ParentOrder) -> Vec<ChildOrder>;
}

/// Whether a trading signal agrees with the parent order's side.
pub open spec fn signal_matches(signal: Option<Side>, side: Side) -> bool {
    signal == Some(side)
}

/// The pass-through split that the signal-driven strategies share: when the
/// signal agrees with the parent's side, the whole parent becomes one child
/// order scheduled at the parent's own timestamp; otherwise nothing is
/// emitted.
pub fn split_for_signal(signal: Option<Side>, parent_order: &ParentOrder) -> (r: Vec<ChildOrder>)
    ensures
        r@.len() == if signal_matches(signal, parent_order.order_common.side) {
            1int
        } else {
            0int
        },
        r@.len() == 1 ==> {
            &&& parent_order.order_common.same_descriptor(r@[0].order_common)
            &&& r@[0].order_common.id@ == parent_order.order_common.id@
            &&& r@[0].order_common.quantity == parent_order.order_common.quantity
            &&& r@[0].strategy_id@ == parent_order.strategy_id@
            &&& r@[0].parent_id@ == parent_order.order_common.id@
            &&& r@[0].insert_at == Some(parent_order.order_common.timestamp)
        },
{
    let matches = match signal {
        Some(s) => s == parent_order.order_common.side,
        None => false,
    };
    if !matches {
        return Vec::new();
    }

    let order = parent_order.order_common.with_id_and_quantity(
        parent_order.order_common.id.clone(),
        parent_order.order_common.quantity,
    );
    let child = ChildOrder {
        order_common: order,
        strategy_id: parent_order.strategy_id.clone(),
        parent_id: parent_order.order_common.id.clone(),
        insert_at: Some(parent_order.order_common.timestamp),
    };
    let mut children: Vec<ChildOrder> = Vec::new();
    children.push(child);
    children
}

/// Total quantity carried by a sequence of child orders.
pub open spec fn sum_child_qty(s: Seq<ChildOrder>) -> int
    decreases s.len(),
{
    if s.len() == 0 {
        0
    } else {
        sum_child_qty(s.drop_last()) + s.last().order_common.quantity
    }
}

/// The identifier of the `idx`-th child of a parent order:
/// the parent's identifier, a dash, and the index in decimal.
pub open spec fn child_id(parent_id: Seq<char>, idx: nat) -> Seq<char> {
    parent_id + "-"@ + dec_digits(idx)
}

/// Builds the identifier of the `idx`-th child order.
pub fn make_child_id(parent_id: &String, idx: u64) -> (r: String)
    ensures
        r@ == child_id(parent_id@, idx as nat),
{
    let mut s = parent_id.clone();
    s.append("-");
    let digits = u64_to_dec(idx);
    s.append(digits.as_str());
    s
}

/// Child identifiers of distinct indices under one parent differ.
pub proof fn lemma_child_id_distinct(parent_id: Seq<char>, i: nat, j: nat)
    requires
        i != j,
    ensures
        child_id(parent_id, i) != child_id(parent_id, j),
{
    let p = parent_id + "-"@;
    assert(child_id(parent_id, i) == p + dec_digits(i)) by {
        assert(parent_id + "-"@ + dec_digits(i) =~= p + dec_digits(i));
    }
    assert(child_id(parent_id, j) == p + dec_digits(j)) by {
        assert(parent_id + "-"@ + dec_digits(j) =~= p + dec_digits(j));
    }
    crate::decimal::lemma_prefixed_dec_distinct(p, i, j);
}

} // verus!
