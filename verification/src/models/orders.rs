//! The common order structure and the per-product descriptors.
//!
//! Monetary amounts that a caller may need to flag as negative (margins,
//! fees, rates, notionals) are signed fixed-point integers in a
//! caller-chosen scale; prices are unsigned integer ticks.

use vstd::prelude::*;

verus! {

#[derive(Clone, Copy, Debug)]
pub enum ProductType {
    Spot,
    Futures,
    Options,
    Swap,
    CFD,
}

#[derive(Clone, Copy, Debug)]
pub enum OrderType {
    Market,
    Limit,
}

#[derive(Clone, Copy, Debug, PartialEq, Eq, Structural)]
pub enum Side {
    Buy,
    Sell,
}

#[derive(Clone, Copy, Debug)]
pub enum OptionType {
    Call,
    Put,
}

#[derive(Clone, Copy, Debug)]
pub enum TimeInForce {
    /// Good-Til-Canceled
    GTC,
    /// Immediate-Or-Cancel
    IOC,
    /// Good-Til-Date
    GTD,
    /// Fill-Or-Kill
    FOK,
}

#[derive(Clone, Copy, Debug)]
pub enum AssetClass {
    Stock,
    Bond,
    Commodity,
    Currency,
    Crypto,
    ETF,
    MutualFund,
    Index,
    Equity,
    Derivative,
    Insurance,
    Loan,
}

/// Validation of an order or of a product descriptor. `valid` is the
/// mathematical well-formedness condition; `validate` decides it.
pub trait Validate {
    spec fn valid(&self) -> bool;

    fn validate(&self) -> (r: Result<(), String>)
        ensures
            r is Ok <==> self.valid(),
    ;
}

#[derive(Clone, Copy, Debug)]
pub struct Spot {
    pub asset_class: Option<AssetClass>,
}

impl Validate for Spot {
    open spec fn valid(&self) -> bool {
        true
    }

    fn validate(&self) -> (r: Result<(), String>) {
        Ok(())
    }
}

#[derive(Clone, Copy, Debug)]
pub struct Futures {
    pub delivery_date: Option<u64>,
    pub contract_size: Option<i64>,
    pub margin: Option<i64>,
    pub commission: Option<i64>,
    pub overnight_fee: Option<i64>,
}

impl Futures {
    /// The first validation failure, if any, as its message.
    pub open spec fn first_error(&self) -> Option<Seq<char>> {
        if self.contract_size is Some && self.contract_size->0 <= 0 {
            Some("Contract size must be greater than zero"@)
        } else if self.margin is Some && self.margin->0 < 0 {
            Some("Margin cannot be negative"@)
        } else if self.commission is Some && self.commission->0 < 0 {
            Some("Commission cannot be negative"@)
        } else if self.overnight_fee is Some && self.overnight_fee->0 < 0 {
            Some("Overnight fee cannot be negative"@)
        } else {
            None
        }
    }

    pub fn validate(&self) -> (r: Result<(), String>)
        ensures
            r is Ok <==> self.first_error() is None,
            r is Err ==> r->Err_0@ == self.first_error()->0,
    {
        if let Some(contract_size) = self.contract_size {
            if contract_size <= 0 {
                return Err("Contract size must be greater than zero".to_owned());
            }
        }
        if let Some(margin) = self.margin {
            if margin < 0 {
                return Err("Margin cannot be negative".to_owned());
            }
        }
        if let Some(commission) = self.commission {
            if commission < 0 {
                return Err("Commission cannot be negative".to_owned());
            }
        }
        if let Some(overnight_fee) = self.overnight_fee {
            if overnight_fee < 0 {
                return Err("Overnight fee cannot be negative".to_owned());
            }
        }
        Ok(())
    }
}

#[derive(Clone, Copy, Debug)]
pub struct Options {
    pub strike_price: i64,
    pub option_type: OptionType,
    pub expiry_date: u64,
}

impl Options {
    pub open spec fn first_error(&self) -> Option<Seq<char>> {
        if self.strike_price <= 0 {
            Some("Strike price must be greater than zero"@)
        } else {
            None
        }
    }

    pub fn validate(&self) -> (r: Result<(), String>)
        ensures
            r is Ok <==> self.first_error() is None,
            r is Err ==> r->Err_0@ == self.first_error()->0,
    {
        if self.strike_price <= 0 {
            return Err("Strike price must be greater than zero".to_owned());
        }
        Ok(())
    }
}

#[derive(Clone, Debug)]
pub struct Swap {
    pub fixed_rate: i64,
    pub floating_rate_index: String,
    pub notional_amount: i64,
}

impl Swap {
    pub open spec fn first_error(&self) -> Option<Seq<char>> {
        if self.fixed_rate < 0 {
            Some("Fixed rate cannot be negative"@)
        } else if self.notional_amount <= 0 {
            Some("Notional amount must be greater than zero"@)
        } else if self.floating_rate_index@.len() == 0 {
            Some("Floating rate index cannot be empty"@)
        } else {
            None
        }
    }

    pub fn validate(&self) -> (r: Result<(), String>)
        ensures
            r is Ok <==> self.first_error() is None,
            r is Err ==> r->Err_0@ == self.first_error()->0,
    {
        if self.fixed_rate < 0 {
            return Err("Fixed rate cannot be negative".to_owned());
        }
        if self.notional_amount <= 0 {
            return Err("Notional amount must be greater than zero".to_owned());
        }
        if self.floating_rate_index.as_str().is_empty() {
            return Err("Floating rate index cannot be empty".to_owned());
        }
        Ok(())
    }
}

#[derive(Clone, Copy, Debug)]
pub struct CFD {
    pub leverage: Option<u32>,
    pub margin: Option<i64>,
    pub commission: Option<i64>,
    pub overnight_fee: Option<i64>,
    pub dividend_adjustment: Option<i64>,
    pub contract_size: Option<i64>,
}

impl CFD {
    pub open spec fn first_error(&self) -> Option<Seq<char>> {
        if self.leverage is Some && self.leverage->0 == 0 {
            Some("Leverage must be greater than zero"@)
        } else if self.margin is Some && self.margin->0 < 0 {
            Some("Margin cannot be negative"@)
        } else if self.commission is Some && self.commission->0 < 0 {
            Some("Commission cannot be negative"@)
        } else if self.overnight_fee is Some && self.overnight_fee->0 < 0 {
            Some("Overnight fee cannot be negative"@)
        } else {
            None
        }
    }

    pub fn validate(&self) -> (r: Result<(), String>)
        ensures
            r is Ok <==> self.first_error() is None,
            r is Err ==> r->Err_0@ == self.first_error()->0,
    {
        if let Some(leverage) = self.leverage {
            if leverage == 0 {
                return Err("Leverage must be greater than zero".to_owned());
            }
        }
        if let Some(margin) = self.margin {
            if margin < 0 {
                return Err("Margin cannot be negative".to_owned());
            }
        }
        if let Some(commission) = self.commission {
            if commission < 0 {
                return Err("Commission cannot be negative".to_owned());
            }
        }
        if let Some(overnight_fee) = self.overnight_fee {
            if overnight_fee < 0 {
                return Err("Overnight fee cannot be negative".to_owned());
            }
        }
        Ok(())
    }
}

/// Two optional strings that spell the same text.
pub open spec fn opt_string_like(a: Option<String>, b: Option<String>) -> bool {
    match (a, b) {
        (Some(x), Some(y)) => x@ == y@,
        (None, None) => true,
        _ => false,
    }
}

/// Two swap descriptors with the same content.
pub open spec fn swap_like(a: Swap, b: Swap) -> bool {
    &&& a.fixed_rate == b.fixed_rate
    &&& a.floating_rate_index@ == b.floating_rate_index@
    &&& a.notional_amount == b.notional_amount
}

/// Two optional swap descriptors with the same content.
pub open spec fn opt_swap_like(a: Option<Swap>, b: Option<Swap>) -> bool {
    match (a, b) {
        (Some(x), Some(y)) => swap_like(x, y),
        (None, None) => true,
        _ => false,
    }
}

/// Common structure for orders.
#[derive(Clone, Debug)]
pub struct Order {
    pub id: String,
    pub quantity: u32,
    pub product_type: ProductType,
    pub order_type: OrderType,
    /// Price in integer ticks, if the order carries one.
    pub price: Option<u64>,
    pub timestamp: u64,
    pub expiry_date: Option<u64>,
    pub symbol: String,
    pub side: Side,
    pub currency: String,
    pub exchange: Option<String>,
    pub timeinforce: Option<TimeInForce>,
    pub futures_opt: Option<Futures>,
    pub options_opt: Option<Options>,
    pub swap_opt: Option<Swap>,
    pub cfd_opt: Option<CFD>,
    pub notional: Option<i64>,
    pub nonce: Option<u64>,
}

impl Order {
    pub fn new(
        id: String,
        quantity: u32,
        product_type: ProductType,
        order_type: OrderType,
        price: Option<u64>,
        timestamp: u64,
        expiry_date: Option<u64>,
        symbol: String,
        side: Side,
        currency: String,
        exchange: Option<String>,
        timeinforce: Option<TimeInForce>,
        futures_opt: Option<Futures>,
        options_opt: Option<Options>,
        swap_opt: Option<Swap>,
        cfd_opt: Option<CFD>,
        notional: Option<i64>,
        nonce: Option<u64>,
    ) -> (r: Order)
        ensures
            r == (Order {
                id,
                quantity,
                product_type,
                order_type,
                price,
                timestamp,
                expiry_date,
                symbol,
                side,
                currency,
                exchange,
                timeinforce,
                futures_opt,
                options_opt,
                swap_opt,
                cfd_opt,
                notional,
                nonce,
            }),
    {
        Order {
            id,
            quantity,
            product_type,
            order_type,
            price,
            timestamp,
            expiry_date,
            symbol,
            side,
            currency,
            exchange,
            timeinforce,
            futures_opt,
            options_opt,
            swap_opt,
            cfd_opt,
            notional,
            nonce,
        }
    }

    /// The given order describes the same contract as this one: every field
    /// but the identifier and the quantity carries the same content.
    pub open spec fn same_descriptor(&self, o: Order) -> bool {
        &&& o.product_type == self.product_type
        &&& o.order_type == self.order_type
        &&& o.price == self.price
        &&& o.timestamp == self.timestamp
        &&& o.expiry_date == self.expiry_date
        &&& o.symbol@ == self.symbol@
        &&& o.side == self.side
        &&& o.currency@ == self.currency@
        &&& opt_string_like(o.exchange, self.exchange)
        &&& o.timeinforce == self.timeinforce
        &&& o.futures_opt == self.futures_opt
        &&& o.options_opt == self.options_opt
        &&& opt_swap_like(o.swap_opt, self.swap_opt)
        &&& o.cfd_opt == self.cfd_opt
        &&& o.notional == self.notional
        &&& o.nonce == self.nonce
    }

    /// A copy of the order that carries a fresh identifier and quantity but
    /// is otherwise unchanged.
    pub fn with_id_and_quantity(&self, id: String, quantity: u32) -> (r: Order)
        ensures
            r.id == id,
            r.quantity == quantity,
            self.same_descriptor(r),
    {
        Order {
            id,
            quantity,
            product_type: self.product_type,
            order_type: self.order_type,
            price: self.price,
            timestamp: self.timestamp,
            expiry_date: self.expiry_date,
            symbol: self.symbol.clone(),
            side: self.side,
            currency: self.currency.clone(),
            exchange: match &self.exchange {
                Some(e) => Some(e.clone()),
                None => None,
            },
            timeinforce: self.timeinforce,
            futures_opt: self.futures_opt,
            options_opt: self.options_opt,
            swap_opt: match &self.swap_opt {
                Some(s) => Some(
                    Swap {
                        fixed_rate: s.fixed_rate,
                        floating_rate_index: s.floating_rate_index.clone(),
                        notional_amount: s.notional_amount,
                    },
                ),
                None => None,
            },
            cfd_opt: self.cfd_opt,
            notional: self.notional,
            nonce: self.nonce,
        }
    }

    /// The first validation failure of the order itself or of its product
    /// descriptors, checked in field order.
    pub open spec fn first_error(&self) -> Option<Seq<char>> {
        if self.id@.len() == 0 {
            Some("ID cannot be empty"@)
        } else if self.quantity == 0 {
            Some("Quantity must be greater than zero"@)
        } else if self.symbol@.len() == 0 {
            Some("Symbol cannot be empty"@)
        } else if self.currency@.len() == 0 {
            Some("Currency cannot be empty"@)
        } else if self.notional is Some && self.notional->0 <= 0 {
            Some("Notional must be greater than zero"@)
        } else if self.futures_opt is Some && self.futures_opt->0.first_error() is Some {
            self.futures_opt->0.first_error()
        } else if self.options_opt is Some && self.options_opt->0.first_error() is Some {
            self.options_opt->0.first_error()
        } else if self.swap_opt is Some && self.swap_opt->0.first_error() is Some {
            self.swap_opt->0.first_error()
        } else if self.cfd_opt is Some && self.cfd_opt->0.first_error() is Some {
            self.cfd_opt->0.first_error()
        } else {
            None
        }
    }
}

impl Validate for Order {
    open spec fn valid(&self) -> bool {
        self.first_error() is None
    }

    fn validate(&self) -> (r: Result<(), String>)
        ensures
            r is Err ==> r->Err_0@ == self.first_error()->0,
    {
        if self.id.as_str().is_empty() {
            return Err("ID cannot be empty".to_owned());
        }
        if self.quantity == 0 {
            return Err("Quantity must be greater than zero".to_owned());
        }
        if self.symbol.as_str().is_empty() {
            return Err("Symbol cannot be empty".to_owned());
        }
        if self.currency.as_str().is_empty() {
            return Err("Currency cannot be empty".to_owned());
        }
        if let Some(notional) = self.notional {
            if notional <= 0 {
                return Err("Notional must be greater than zero".to_owned());
            }
        }
        if let Some(futures) = &self.futures_opt {
            futures.validate()?;
        }
        if let Some(options) = &self.options_opt {
            options.validate()?;
        }
        if let Some(swap) = &self.swap_opt {
            swap.validate()?;
        }
        if let Some(cfd) = &self.cfd_opt {
            cfd.validate()?;
        }
        Ok(())
    }
}

} // verus!
