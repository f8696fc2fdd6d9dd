//! Tests of the child-order record and its validation. Prices are integer
//! ticks (hundredths).

use strategy_execution_engine::models::child_orders::ChildOrder;
use strategy_execution_engine::models::orders::{
    Order, OrderType, ProductType, Side, TimeInForce,
};
use strategy_execution_engine::Validate;

fn create_valid_order() -> Order {
    Order::new(
        "test_id".to_string(),
        100,
        ProductType::Futures,
        OrderType::Limit,
        Some(10_000),
        1234567890,
        Some(1234567890),
        "AAPL".to_string(),
        Side::Buy,
        "USD".to_string(),
        Some("NYSE".to_string()),
        Some(TimeInForce::GTC),
        None,
        None,
        None,
        None,
        Some(100_000),
        Some(1),
    )
}

fn create_child(strategy_id: &str, parent_id: &str) -> ChildOrder {
    ChildOrder::new(
        "test_id".to_string(),
        100,
        ProductType::Futures,
        OrderType::Limit,
        Some(10_000),
        1234567890,
        Some(1234567890),
        "AAPL".to_string(),
        Side::Buy,
        "USD".to_string(),
        Some("NYSE".to_string()),
        Some(TimeInForce::GTC),
        None,
        None,
        None,
        None,
        Some(100_000),
        Some(1),
        strategy_id.to_string(),
        parent_id.to_string(),
        Some(1234567890),
    )
}

#[test]
fn test_child_order_creation() {
    let order = create_child("strategy_1", "parent_1");

    assert_eq!(order.strategy_id, "strategy_1");
    assert_eq!(order.parent_id, "parent_1");
    assert!(order.insert_at.is_some());
}

#[test]
fn test_child_order_validate_success() {
    let order = create_child("strategy_1", "parent_1");

    assert!(order.validate().is_ok());
}

#[test]
fn test_child_order_validate_empty_strategy_id() {
    let order = create_child("", "parent_1");

    assert!(order.validate().is_err());
}

#[test]
fn test_child_order_validate_empty_parent_id() {
    let order = create_child("strategy_1", "");

    assert!(order.validate().is_err());
}

#[test]
fn test_child_order_common_order_validation() {
    let mut order = create_valid_order();
    order.quantity = 0;

    let child_order = ChildOrder {
        order_common: order,
        strategy_id: "strategy_1".to_string(),
        parent_id: "parent_1".to_string(),
        insert_at: Some(1234567890),
    };

    assert!(child_order.validate().is_err());
}
