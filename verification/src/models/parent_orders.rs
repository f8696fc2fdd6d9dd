//! A parent order: the common order structure plus the identifier of the
//! strategy that will split it.

use vstd::prelude::*;
use super::orders::{
    CFD, Futures, Options, Order, OrderType, ProductType, Side, Swap, TimeInForce, Validate,
};

verus! {

/// Structure representing a parent order.
#[derive(Clone, Debug)]
pub struct ParentOrder {
    pub order_common: Order,
    pub strategy_id: String,
}

impl ParentOrder {
    pub fn new(
        id: String,
        quantity: u32,
        product_type: ProductType,
        order_type: OrderType,
        price: Option<u64>,
        timestamp: u64,
        expiry_date: Option<u64>,
        symbol: String,
        side: Side,
        currency: String,
        exchange: Option<String>,
        timeinforce: Option<TimeInForce>,
        futures_opt: Option<Futures>,
        options_opt: Option<Options>,
        swap_opt: Option<Swap>,
        cfd_opt: Option<CFD>,
        strategy_id: String,
    ) -> (r: ParentOrder)
        ensures
            r.order_common == (Order {
                id,
                quantity,
                product_type,
                order_type,
                price,
                timestamp,
                expiry_date,
                symbol,
                side,
                currency,
                exchange,
                timeinforce,
                futures_opt,
                options_opt,
                swap_opt,
                cfd_opt,
                notional: None::<i64>,
                nonce: None::<u64>,
            }),
            r.strategy_id == strategy_id,
    {
        ParentOrder {
            order_common: Order::new(
                id,
                quantity,
                product_type,
                order_type,
                price,
                timestamp,
                expiry_date,
                symbol,
                side,
                currency,
                exchange,
                timeinforce,
                futures_opt,
                options_opt,
                swap_opt,
                cfd_opt,
                None,
                None,
            ),
            strategy_id,
        }
    }
}

impl Validate for ParentOrder {
    open spec fn valid(&self) -> bool {
        true
    }

    fn validate(&self) -> (r: Result<(), String>) {
        Ok(())
    }
}

} // verus!
