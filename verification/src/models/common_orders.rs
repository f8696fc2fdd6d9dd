//! An earlier, self-contained variant of the order data model kept for
//! callers that still speak it.

use vstd::prelude::*;

verus! {

#[derive(Clone, Copy, Debug)]
pub enum ProductType {
    Spot,
    Futures,
    Options,
    Swap,
    CFD,
}

#[derive(Clone, Copy, Debug)]
pub enum OrderType {
    Market,
    Limit,
}

#[derive(Clone, Copy, Debug, PartialEq, Eq, Structural)]
pub enum Side {
    Buy,
    Sell,
}

#[derive(Clone, Copy, Debug)]
pub enum OptionType {
    Call,
    Put,
}

#[derive(Clone, Copy, Debug)]
pub enum TimeInForce {
    /// Good-Til-Canceled
    GTC,
    /// Immediate-Or-Cancel
    IOC,
    /// Good-Til-Date
    GTD,
}

#[derive(Clone, Copy, Debug)]
pub enum AssetClass {
    Stock,
    Bond,
    Commodity,
    Currency,
    Crypto,
    ETF,
    MutualFund,
    Index,
    Equity,
    Derivative,
    Insurance,
    Loan,
}

#[derive(Clone, Debug)]
pub struct Spot {
    pub asset_class: Option<AssetClass>,
}

#[derive(Clone, Debug)]
pub struct Futures {
    pub contract_symbol: String,
    pub delivery_date: u64,
}

#[derive(Clone, Copy, Debug)]
pub struct Options {
    pub strike_price: i64,
    pub option_type: OptionType,
    pub expiry_date: u64,
}

#[derive(Clone, Debug)]
pub struct Swap {
    pub fixed_rate: i64,
    pub floating_rate_index: String,
    pub notional_amount: i64,
}

/// Common structure for orders.
#[derive(Clone, Debug)]
pub struct OrderCommon {
    pub id: String,
    pub quantity: u32,
    pub product_type: ProductType,
    pub order_type: OrderType,
    /// Price in integer ticks, if the order carries one.
    pub price: Option<u64>,
    pub timestamp: u64,
    pub expiry_date: Option<u64>,
    pub symbol: String,
    pub side: Side,
    pub timeinforce: Option<TimeInForce>,
    pub futures_opt: Option<Futures>,
    pub options_opt: Option<Options>,
    pub swap_opt: Option<Swap>,
    pub cfd_opt: Option<String>,
}

impl OrderCommon {
    pub fn new(
        id: String,
        quantity: u32,
        product_type: ProductType,
        order_type: OrderType,
        price: Option<u64>,
        timestamp: u64,
        expiry_date: Option<u64>,
        symbol: String,
        side: Side,
        timeinforce: Option<TimeInForce>,
        futures_opt: Option<Futures>,
        options_opt: Option<Options>,
        swap_opt: Option<Swap>,
        cfd_opt: Option<String>,
    ) -> (r: OrderCommon)
        ensures
            r == (OrderCommon {
                id,
                quantity,
                product_type,
                order_type,
                price,
                timestamp,
                expiry_date,
                symbol,
                side,
                timeinforce,
                futures_opt,
                options_opt,
                swap_opt,
                cfd_opt,
            }),
    {
        OrderCommon {
            id,
            quantity,
            product_type,
            order_type,
            price,
            timestamp,
            expiry_date,
            symbol,
            side,
            timeinforce,
            futures_opt,
            options_opt,
            swap_opt,
            cfd_opt,
        }
    }
}

/// Trait defining common behaviors for orders.
pub trait OrderTrait: Sized {
    fn new(
        id: String,
        quantity: u32,
        product_type: ProductType,
        order_type: OrderType,
        price: Option<u64>,
        timestamp: u64,
        expiry_date: Option<u64>,
        symbol: String,
        side: Side,
        timeinforce: Option<TimeInForce>,
        futures_opt: Option<Futures>,
        options_opt: Option<Options>,
        swap_opt: Option<Swap>,
        cfd_opt: Option<String>,
    ) -> Self;
}

impl OrderTrait for OrderCommon {
    fn new(
        id: String,
        quantity: u32,
        product_type: ProductType,
        order_type: OrderType,
        price: Option<u64>,
        timestamp: u64,
        expiry_date: Option<u64>,
        symbol: String,
        side: Side,
        timeinforce: Option<TimeInForce>,
        futures_opt: Option<Futures>,
        options_opt: Option<Options>,
        swap_opt: Option<Swap>,
        cfd_opt: Option<String>,
    ) -> Self {
        OrderCommon::new(
            id,
            quantity,
            product_type,
            order_type,
            price,
            timestamp,
            expiry_date,
            symbol,
            side,
            timeinforce,
            futures_opt,
            options_opt,
            swap_opt,
            cfd_opt,
        )
    }
}

} // verus!
