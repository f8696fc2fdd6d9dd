//! A self-contained adverse-selection splitter: the market state is set by
//! the caller, and the parent order is decomposed into child orders whose
//! count, sizes and schedule depend on that state.

use vstd::prelude::*;
use crate::models::orders::Side;
use crate::models::{ChildOrder, ParentOrder};
use crate::numeric::SCALE;
use crate::strategies::common::{
    OrderSplitStrategy, child_id, lemma_child_id_distinct, make_child_id, sum_child_qty,
};
use crate::sys::{now_epoch_millis, rand_upto};

verus! {

/// Market state enum for adverse selection strategy.
#[derive(Clone, Copy, Debug, PartialEq, Eq, Structural)]
pub enum MarketState {
    Normal,
    BuyerInformed,
    SellerInformed,
    HighVolatility,
}

/// Configuration for adverse selection strategy. `size_variation_pct` is a
/// ratio in millionths (`SCALE` stands for 1.0).
#[derive(Clone, Copy, Debug)]
pub struct AdverseSelectionConfig {
    pub max_splits: usize,
    pub min_split_interval_ms: u64,
    pub max_split_interval_ms: u64,
    pub size_variation_pct: u64,
}

/// The configuration used when the caller supplies none.
pub open spec fn default_config() -> AdverseSelectionConfig {
    AdverseSelectionConfig {
        max_splits: 5,
        min_split_interval_ms: 1000,
        max_split_interval_ms: 10000,
        size_variation_pct: 200_000,
    }
}

impl Default for AdverseSelectionConfig {
    fn default() -> (r: Self)
        ensures
            r == default_config(),
    {
        AdverseSelectionConfig {
            max_splits: 5,
            min_split_interval_ms: 1000,
            max_split_interval_ms: 10000,
            size_variation_pct: 200_000,
        }
    }
}

/// Adverse selection strategy implementation.
#[derive(Clone, Debug)]
pub struct AdverseSelectionStrategy {
    pub config: AdverseSelectionConfig,
    pub market_state: MarketState,
}

/// How many child orders a split produces: derived from the market state
/// and the parent's side, clamped to at least one.
pub open spec fn num_splits_of(
    cfg: AdverseSelectionConfig,
    state: MarketState,
    side: Side,
) -> int {
    let raw = match state {
        MarketState::Normal => cfg.max_splits / 2,
        MarketState::BuyerInformed => if side == Side::Buy {
            cfg.max_splits as usize
        } else {
            cfg.max_splits / 3
        },
        MarketState::SellerInformed => if side == Side::Sell {
            cfg.max_splits as usize
        } else {
            cfg.max_splits / 3
        },
        MarketState::HighVolatility => cfg.max_splits as usize,
    };
    if raw == 0 {
        1
    } else {
        raw as int
    }
}

/// The base schedule interval for a market state, in milliseconds.
pub open spec fn base_interval_of(state: MarketState) -> u64 {
    match state {
        MarketState::Normal => 5000,
        MarketState::BuyerInformed => 8000,
        MarketState::SellerInformed => 8000,
        MarketState::HighVolatility => 3000,
    }
}

/// The scheduled time of child `k >= 1`: `now` plus `base * k`, shifted by
/// a jitter draw `jv` (in millionths of `base`, drawn from `[0, 400000]`,
/// centered by subtracting a fifth of `base`), topping out at `u64::MAX`.
pub open spec fn sched_time_of(now: u64, base: u64, k: int, jv: int) -> int {
    let raw = now + base * k - base / 5 + (base * jv) / (SCALE as int);
    if raw > u64::MAX {
        u64::MAX as int
    } else {
        raw
    }
}

impl AdverseSelectionStrategy {
    pub fn new(config: Option<AdverseSelectionConfig>) -> (r: Self)
        ensures
            r.config == match config {
                Some(c) => c,
                None => default_config(),
            },
            r.market_state == MarketState::Normal,
    {
        Self {
            config: match config {
                Some(c) => c,
                None => AdverseSelectionConfig::default(),
            },
            market_state: MarketState::Normal,
        }
    }

    pub fn update_market_state(&mut self, state: MarketState)
        ensures
            final(self).market_state == state,
            final(self).config == old(self).config,
    {
        self.market_state = state;
    }

    /// Splits the parent order at the given wall-clock time: the number of
    /// children follows the market state and the parent's side, every child
    /// clones the parent's descriptor under a fresh unique identifier, the
    /// quantities sum exactly to the parent's quantity, the first child is
    /// scheduled immediately and the rest at jittered multiples of the base
    /// interval.
    pub fn split_at(&self, parent_order: &ParentOrder, now_ms: u64) -> (r: Vec<ChildOrder>)
        ensures
            r@.len() == num_splits_of(self.config, self.market_state, parent_order.order_common.side),
            sum_child_qty(r@) == parent_order.order_common.quantity,
            r@.len() >= 1,
            forall|k: int| #![trigger r@[k]] 0 <= k < r@.len() ==> {
                &&& parent_order.order_common.same_descriptor(r@[k].order_common)
                &&& r@[k].order_common.id@ == child_id(parent_order.order_common.id@, k as nat)
                &&& r@[k].order_common.quantity <= parent_order.order_common.quantity
                &&& r@[k].strategy_id@ == parent_order.strategy_id@
                &&& r@[k].parent_id@ == parent_order.order_common.id@
                &&& r@[k].insert_at is Some
                &&& k >= 1 ==> exists|jv: int|
                    0 <= jv <= 400_000 && r@[k].insert_at == Some(
                        sched_time_of(
                            now_ms,
                            base_interval_of(self.market_state),
                            k,
                            jv,
                        ) as u64,
                    )
            },
            r@[0].insert_at == Some(now_ms),
            forall|k1: int, k2: int|
                0 <= k1 < r@.len() && 0 <= k2 < r@.len() && k1 != k2
                    ==> r@[k1].order_common.id@ != r@[k2].order_common.id@,
    {
        let mut child_orders: Vec<ChildOrder> = Vec::new();

        let raw_splits: usize = match self.market_state {
            MarketState::Normal => self.config.max_splits / 2,
            MarketState::BuyerInformed => {
                if parent_order.order_common.side == Side::Buy {
                    self.config.max_splits
                } else {
                    self.config.max_splits / 3
                }
            },
            MarketState::SellerInformed => {
                if parent_order.order_common.side == Side::Sell {
                    self.config.max_splits
                } else {
                    self.config.max_splits / 3
                }
            },
            MarketState::HighVolatility => self.config.max_splits,
        };
        let num_splits: usize = if raw_splits == 0 {
            1
        } else {
            raw_splits
        };

        let base_quantity64: u64 = (parent_order.order_common.quantity as u64) / (num_splits
            as u64);
        proof {
            assert(base_quantity64 <= parent_order.order_common.quantity) by {
                vstd::arithmetic::div_mod::lemma_div_basics_5(
                    parent_order.order_common.quantity as int,
                    num_splits as int,
                );
            }
        }
        let base_quantity: u32 = base_quantity64 as u32;
        let mut remaining_quantity: u32 = parent_order.order_common.quantity;

        let base_interval: u64 = match self.market_state {
            MarketState::Normal => 5000,
            MarketState::BuyerInformed => 8000,
            MarketState::SellerInformed => 8000,
            MarketState::HighVolatility => 3000,
        };

        let ghost parent_qty = parent_order.order_common.quantity;
        let mut i: usize = 0;
        while i < num_splits
            invariant
                0 <= i <= num_splits,
                num_splits == num_splits_of(
                    self.config,
                    self.market_state,
                    parent_order.order_common.side,
                ),
                base_interval == base_interval_of(self.market_state),
                base_interval <= 8000,
                i == num_splits ==> remaining_quantity == 0,
                child_orders@.len() == i,
                remaining_quantity + sum_child_qty(child_orders@) == parent_qty,
                remaining_quantity <= parent_qty,
                parent_qty == parent_order.order_common.quantity,
                forall|k: int| #![trigger child_orders@[k]] 0 <= k < i ==> {
                    &&& parent_order.order_common.same_descriptor(child_orders@[k].order_common)
                    &&& child_orders@[k].order_common.id@ == child_id(
                        parent_order.order_common.id@,
                        k as nat,
                    )
                    &&& child_orders@[k].order_common.quantity <= parent_qty
                    &&& child_orders@[k].strategy_id@ == parent_order.strategy_id@
                    &&& child_orders@[k].parent_id@ == parent_order.order_common.id@
                    &&& child_orders@[k].insert_at is Some
                    &&& k >= 1 ==> exists|jv: int|
                        0 <= jv <= 400_000 && child_orders@[k].insert_at == Some(
                            sched_time_of(now_ms, base_interval_of(self.market_state), k, jv)
                                as u64,
                        )
                },
                i > 0 ==> child_orders@[0].insert_at == Some(now_ms),
            decreases num_splits - i,
        {
            let quantity: u32 = if i < num_splits - 1 {
                let jq = rand_upto(200_000);
                proof {
                    assert((base_quantity as u64) * jq <= 0xFFFF_FFFFu64 * 200_000)
                        by (nonlinear_arith)
                        requires base_quantity <= u32::MAX, jq <= 200_000u64,
                    ;
                }
                let jittered64: u64 = (base_quantity as u64) - (base_quantity as u64) / 10 + (
                (base_quantity as u64) * jq) / SCALE;
                let jittered: u32 = if jittered64 > (u32::MAX as u64) {
                    u32::MAX
                } else {
                    jittered64 as u32
                };
                let floored: u32 = if jittered < 1 {
                    1
                } else {
                    jittered
                };
                if floored < remaining_quantity {
                    floored
                } else {
                    remaining_quantity
                }
            } else {
                remaining_quantity
            };

            remaining_quantity = remaining_quantity - quantity;

            let mut insert_at: u64 = now_ms;
            let ghost mut jvg: int = 0;
            if i > 0 {
                let jv = rand_upto(400_000);
                proof {
                    assert((base_interval as int) * (i as int) >= (base_interval as int) * 1)
                        by (nonlinear_arith)
                        requires i >= 1, base_interval >= 0,
                    ;
                    assert(base_interval / 5 <= base_interval);
                    assert((base_interval as int) * (i as int) <= 8000 * (usize::MAX as int))
                        by (nonlinear_arith)
                        requires base_interval <= 8000, 0 <= i <= usize::MAX,
                    ;
                    assert((base_interval as int) * (jv as int) <= 8000 * 400_000)
                        by (nonlinear_arith)
                        requires base_interval <= 8000, 0 <= jv <= 400_000,
                    ;
                }
                let t: u128 = (now_ms as u128) + (base_interval as u128) * (i as u128) - ((
                base_interval / 5) as u128) + (((base_interval as u128) * (jv as u128)) / (
                SCALE as u128));
                let clamped: u64 = if t > (u64::MAX as u128) {
                    u64::MAX
                } else {
                    t as u64
                };
                proof {
                    assert(clamped == sched_time_of(
                        now_ms,
                        base_interval_of(self.market_state),
                        i as int,
                        jv as int,
                    ));
                    jvg = jv as int;
                }
                insert_at = clamped;
            }

            let id = make_child_id(&parent_order.order_common.id, i as u64);
            let order = parent_order.order_common.with_id_and_quantity(id, quantity);

            let child_order = ChildOrder {
                order_common: order,
                strategy_id: parent_order.strategy_id.clone(),
                parent_id: parent_order.order_common.id.clone(),
                insert_at: Some(insert_at),
            };

            proof {
                assert(child_orders@.push(child_order).drop_last() =~= child_orders@);
            }
            child_orders.push(child_order);

            proof {
                if i >= 1 {
                    assert(0 <= jvg <= 400_000 && child_orders@[i as int].insert_at == Some(
                        sched_time_of(now_ms, base_interval_of(self.market_state), i as int, jvg)
                            as u64,
                    ));
                    assert(exists|jv: int|
                        0 <= jv <= 400_000 && child_orders@[i as int].insert_at == Some(
                            sched_time_of(
                                now_ms,
                                base_interval_of(self.market_state),
                                i as int,
                                jv,
                            ) as u64,
                        ));
                }
            }

            i = i + 1;
        }

        proof {
            assert forall|k1: int, k2: int|
                0 <= k1 < child_orders@.len() && 0 <= k2 < child_orders@.len() && k1 != k2
                    implies child_orders@[k1].order_common.id@
                    != child_orders@[k2].order_common.id@ by {
                lemma_child_id_distinct(parent_order.order_common.id@, k1 as nat, k2 as nat);
            }
        }

        child_orders
    }
}

impl OrderSplitStrategy for AdverseSelectionStrategy {
    /// Splits at the current wall-clock time. The count, quantity-sum and
    /// identifier guarantees hold whatever the clock reads.
    fn split(&self, parent_order: &ParentOrder) -> (r: Vec<ChildOrder>)
        ensures
            r@.len() == num_splits_of(self.config, self.market_state, parent_order.order_common.side),
            sum_child_qty(r@) == parent_order.order_common.quantity,
            r@.len() >= 1,
            forall|k: int| #![trigger r@[k]] 0 <= k < r@.len() ==> {
                &&& parent_order.order_common.same_descriptor(r@[k].order_common)
                &&& r@[k].order_common.id@ == child_id(parent_order.order_common.id@, k as nat)
                &&& r@[k].strategy_id@ == parent_order.strategy_id@
                &&& r@[k].parent_id@ == parent_order.order_common.id@
                &&& r@[k].insert_at is Some
            },
            forall|k1: int, k2: int|
                0 <= k1 < r@.len() && 0 <= k2 < r@.len() && k1 != k2
                    ==> r@[k1].order_common.id@ != r@[k2].order_common.id@,
    {
        let now_ms = now_epoch_millis();
        self.split_at(parent_order, now_ms)
    }
}

} // verus!
