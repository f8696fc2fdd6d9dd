//! Tests of the order data model. Prices are integer ticks (hundredths);
//! rate-like fields are in millionths.

use strategy_execution_engine::models::orders::{
    CFD, Futures, OptionType, Options, Order, OrderType, ProductType, Side, Swap, TimeInForce,
    Validate,
};

#[test]
fn test_create_product_type() {
    let spot = ProductType::Spot;
    let futures = ProductType::Futures;
    let options = ProductType::Options;
    let swap = ProductType::Swap;
    let cfd = ProductType::CFD;

    assert_eq!(format!("{:?}", spot), "Spot");
    assert_eq!(format!("{:?}", futures), "Futures");
    assert_eq!(format!("{:?}", options), "Options");
    assert_eq!(format!("{:?}", swap), "Swap");
    assert_eq!(format!("{:?}", cfd), "CFD");
}

#[test]
fn test_create_order_type() {
    let market = OrderType::Market;
    let limit = OrderType::Limit;

    assert_eq!(format!("{:?}", market), "Market");
    assert_eq!(format!("{:?}", limit), "Limit");
}

#[test]
fn test_create_side() {
    let buy = Side::Buy;
    let sell = Side::Sell;

    assert_eq!(format!("{:?}", buy), "Buy");
    assert_eq!(format!("{:?}", sell), "Sell");
}

#[test]
fn test_create_option_type() {
    let call = OptionType::Call;
    let put = OptionType::Put;

    assert_eq!(format!("{:?}", call), "Call");
    assert_eq!(format!("{:?}", put), "Put");
}

#[test]
fn test_create_time_in_force() {
    let gtc = TimeInForce::GTC;
    let ioc = TimeInForce::IOC;
    let fok = TimeInForce::FOK;

    assert_eq!(format!("{:?}", gtc), "GTC");
    assert_eq!(format!("{:?}", ioc), "IOC");
    assert_eq!(format!("{:?}", fok), "FOK");
}

#[test]
fn test_create_futures() {
    let futures = Futures {
        delivery_date: Some(20240101),
        contract_size: Some(100),
        margin: Some(50_000),
        commission: Some(20_000),
        overnight_fee: Some(10_000),
    };

    assert_eq!(futures.delivery_date, Some(20240101));
    assert_eq!(futures.contract_size, Some(100));
    assert_eq!(futures.margin, Some(50_000));
    assert_eq!(futures.commission, Some(20_000));
    assert_eq!(futures.overnight_fee, Some(10_000));
}

#[test]
fn test_create_options() {
    let options = Options {
        strike_price: 300_000,
        option_type: OptionType::Call,
        expiry_date: 20241231,
    };

    assert_eq!(options.strike_price, 300_000);
    assert_eq!(format!("{:?}", options.option_type), "Call");
    assert_eq!(options.expiry_date, 20241231);
}

#[test]
fn test_create_swap() {
    let swap = Swap {
        fixed_rate: 1_500_000,
        floating_rate_index: String::from("LIBOR"),
        notional_amount: 1_000_000,
    };

    assert_eq!(swap.fixed_rate, 1_500_000);
    assert_eq!(swap.floating_rate_index, "LIBOR");
    assert_eq!(swap.notional_amount, 1_000_000);
}

#[test]
fn test_create_cfd() {
    let cfd = CFD {
        leverage: Some(10),
        margin: Some(50_000),
        commission: Some(20_000),
        overnight_fee: Some(10_000),
        dividend_adjustment: Some(5_000),
        contract_size: Some(100),
    };

    assert_eq!(cfd.leverage, Some(10));
    assert_eq!(cfd.margin, Some(50_000));
    assert_eq!(cfd.commission, Some(20_000));
    assert_eq!(cfd.overnight_fee, Some(10_000));
    assert_eq!(cfd.dividend_adjustment, Some(5_000));
    assert_eq!(cfd.contract_size, Some(100));
}

#[test]
fn test_create_order() {
    let order = Order::new(
        String::from("order1"),
        100,
        ProductType::Spot,
        OrderType::Market,
        Some(300_000),
        1622512800,
        Some(1625114800),
        String::from("AAPL"),
        Side::Buy,
        String::from("USD"),
        Some(String::from("NASDAQ")),
        Some(TimeInForce::GTC),
        None,
        None,
        None,
        None,
        None,
        None,
    );

    assert_eq!(order.id, "order1");
    assert_eq!(order.quantity, 100);
    assert_eq!(format!("{:?}", order.product_type), "Spot");
    assert_eq!(format!("{:?}", order.order_type), "Market");
    assert_eq!(order.price, Some(300_000));
    assert_eq!(order.timestamp, 1622512800);
    assert_eq!(order.expiry_date, Some(1625114800));
    assert_eq!(order.symbol, "AAPL");
    assert_eq!(format!("{:?}", order.side), "Buy");
    assert_eq!(order.currency, "USD");
    assert_eq!(order.exchange, Some(String::from("NASDAQ")));
    assert_eq!(format!("{:?}", order.timeinforce), "Some(GTC)");
    assert!(order.futures_opt.is_none());
    assert!(order.options_opt.is_none());
    assert!(order.swap_opt.is_none());
    assert!(order.cfd_opt.is_none());
}

#[test]
fn test_order_with_futures() {
    let futures = Futures {
        delivery_date: Some(20240101),
        contract_size: Some(100),
        margin: Some(50_000),
        commission: Some(20_000),
        overnight_fee: Some(10_000),
    };

    let order = Order::new(
        String::from("order2"),
        50,
        ProductType::Futures,
        OrderType::Limit,
        Some(320_000),
        1622512800,
        None,
        String::from("ES"),
        Side::Sell,
        String::from("USD"),
        Some(String::from("CME")),
        Some(TimeInForce::GTC),
        Some(futures),
        None,
        None,
        None,
        None,
        None,
    );

    assert_eq!(order.id, "order2");
    assert_eq!(order.quantity, 50);
    assert_eq!(format!("{:?}", order.product_type), "Futures");
    assert_eq!(format!("{:?}", order.order_type), "Limit");
    assert_eq!(order.price, Some(320_000));
    assert_eq!(order.timestamp, 1622512800);
    assert_eq!(order.expiry_date, None);
    assert_eq!(order.symbol, "ES");
    assert_eq!(format!("{:?}", order.side), "Sell");
    assert_eq!(order.currency, "USD");
    assert_eq!(order.exchange, Some(String::from("CME")));
    assert_eq!(format!("{:?}", order.timeinforce), "Some(GTC)");
    assert!(order.futures_opt.is_some());
    assert!(order.options_opt.is_none());
    assert!(order.swap_opt.is_none());
    assert!(order.cfd_opt.is_none());
}

#[test]
fn test_order_with_options() {
    let options = Options {
        strike_price: 300_000,
        option_type: OptionType::Call,
        expiry_date: 20241231,
    };

    let order = Order::new(
        String::from("order3"),
        75,
        ProductType::Options,
        OrderType::Market,
        Some(300_000),
        1622512800,
        Some(1625114800),
        String::from("AAPL"),
        Side::Buy,
        String::from("USD"),
        Some(String::from("NASDAQ")),
        Some(TimeInForce::GTC),
        None,
        Some(options),
        None,
        None,
        None,
        None,
    );

    assert_eq!(order.id, "order3");
    assert_eq!(order.quantity, 75);
    assert_eq!(format!("{:?}", order.product_type), "Options");
    assert_eq!(format!("{:?}", order.order_type), "Market");
    assert_eq!(order.price, Some(300_000));
    assert_eq!(order.timestamp, 1622512800);
    assert_eq!(order.expiry_date, Some(1625114800));
    assert_eq!(order.symbol, "AAPL");
    assert_eq!(format!("{:?}", order.side), "Buy");
    assert_eq!(order.currency, "USD");
    assert_eq!(order.exchange, Some(String::from("NASDAQ")));
    assert_eq!(format!("{:?}", order.timeinforce), "Some(GTC)");
    assert!(order.futures_opt.is_none());
    assert!(order.options_opt.is_some());
    assert!(order.swap_opt.is_none());
    assert!(order.cfd_opt.is_none());
}

fn plain_order(id: &str, quantity: u32) -> Order {
    Order::new(
        String::from(id),
        quantity,
        ProductType::Spot,
        OrderType::Market,
        Some(300_000),
        1622512800,
        None,
        String::from("AAPL"),
        Side::Buy,
        String::from("USD"),
        None,
        None,
        None,
        None,
        None,
        None,
        None,
        None,
    )
}

#[test]
fn order_validate_rejects_zero_quantity() {
    let order = plain_order("order6", 0);
    assert_eq!(
        order.validate(),
        Err(String::from("Quantity must be greater than zero"))
    );
}

#[test]
fn order_validate_rejects_empty_id() {
    let order = plain_order("", 10);
    assert_eq!(order.validate(), Err(String::from("ID cannot be empty")));
}

#[test]
fn order_validate_rejects_bad_descriptor() {
    let mut order = plain_order("order7", 10);
    order.futures_opt = Some(Futures {
        delivery_date: None,
        contract_size: Some(0),
        margin: None,
        commission: None,
        overnight_fee: None,
    });
    assert_eq!(
        order.validate(),
        Err(String::from("Contract size must be greater than zero"))
    );
    order.futures_opt = None;
    order.notional = Some(0);
    assert_eq!(
        order.validate(),
        Err(String::from("Notional must be greater than zero"))
    );
    order.notional = Some(100_000);
    assert!(order.validate().is_ok());
}

#[test]
fn swap_validate_checks_fields() {
    let swap = Swap {
        fixed_rate: -1,
        floating_rate_index: String::from("LIBOR"),
        notional_amount: 1,
    };
    assert_eq!(
        swap.validate(),
        Err(String::from("Fixed rate cannot be negative"))
    );
    let swap = Swap {
        fixed_rate: 0,
        floating_rate_index: String::new(),
        notional_amount: 1,
    };
    assert_eq!(
        swap.validate(),
        Err(String::from("Floating rate index cannot be empty"))
    );
}
