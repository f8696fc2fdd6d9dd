//! A child order: a sized, time-scheduled fragment of a parent order
//! produced by a splitting strategy.

use vstd::prelude::*;
use super::orders::{
    CFD, Futures, Options, Order, OrderType, ProductType, Side, Swap, TimeInForce, Validate,
};

verus! {

/// A fragment of a parent order, carrying a back-reference to the parent
/// and the absolute epoch-millisecond timestamp at which it should be
/// inserted into the market.
#[derive(Clone, Debug)]
pub struct ChildOrder {
    pub order_common: Order,
    pub strategy_id: String,
    pub parent_id: String,
    pub insert_at: Option<u64>,
}

impl ChildOrder {
    pub fn new(
        id: String,
        quantity: u32,
        product_type: ProductType,
        order_type: OrderType,
        price: Option<u64>,
        timestamp: u64,
        expiry_date: Option<u64>,
        symbol: String,
        side: Side,
        currency: String,
        exchange: Option<String>,
        timeinforce: Option<TimeInForce>,
        futures_opt: Option<Futures>,
        options_opt: Option<Options>,
        swap_opt: Option<Swap>,
        cfd_opt: Option<CFD>,
        notional: Option<i64>,
        nonce: Option<u64>,
        strategy_id: String,
        parent_id: String,
        insert_at: Option<u64>,
    ) -> (r: ChildOrder)
        ensures
            r.order_common == (Order {
                id,
                quantity,
                product_type,
                order_type,
                price,
                timestamp,
                expiry_date,
                symbol,
                side,
                currency,
                exchange,
                timeinforce,
                futures_opt,
                options_opt,
                swap_opt,
                cfd_opt,
                notional,
                nonce,
            }),
            r.strategy_id == strategy_id,
            r.parent_id == parent_id,
            r.insert_at == insert_at,
    {
        ChildOrder {
            order_common: Order::new(
                id,
                quantity,
                product_type,
                order_type,
                price,
                timestamp,
                expiry_date,
                symbol,
                side,
                currency,
                exchange,
                timeinforce,
                futures_opt,
                options_opt,
                swap_opt,
                cfd_opt,
                notional,
                nonce,
            ),
            strategy_id,
            parent_id,
            insert_at,
        }
    }

    /// The first validation failure: the child's own identifiers are checked
    /// before the common order structure.
    pub open spec fn first_error(&self) -> Option<Seq<char>> {
        if self.strategy_id@.len() == 0 {
            Some("Strategy ID cannot be empty"@)
        } else if self.parent_id@.len() == 0 {
            Some("Parent ID cannot be empty"@)
        } else {
            self.order_common.first_error()
        }
    }
}

impl Validate for ChildOrder {
    open spec fn valid(&self) -> bool {
        self.first_error() is None
    }

    fn validate(&self) -> (r: Result<(), String>)
        ensures
            r is Err ==> r->Err_0@ == self.first_error()->0,
    {
        if self.strategy_id.as_str().is_empty() {
            return Err("Strategy ID cannot be empty".to_owned());
        }
        if self.parent_id.as_str().is_empty() {
            return Err("Parent ID cannot be empty".to_owned());
        }
        self.order_common.validate()
    }
}

} // verus!
