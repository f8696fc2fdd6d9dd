//! Tests of the messaging configuration and clients, the decimal
//! renderer, and the pass-through splitters.

use strategy_execution_engine::clients::{
    ClientType, MessagingClient, MessagingService, ZeroMQClient,
};
use strategy_execution_engine::config::{Config, ConfigError};
use strategy_execution_engine::models::common_orders;
use strategy_execution_engine::models::common_orders::OrderTrait;
use strategy_execution_engine::decimal::u64_to_dec;
use strategy_execution_engine::models::orders::{
    Order, OrderType, ProductType, Side,
};
use strategy_execution_engine::models::ParentOrder;
use strategy_execution_engine::strategies::common::{
    make_child_id, split_for_signal, OrderSplitStrategy,
};
use strategy_execution_engine::strategies::twap::TWAPStrategy;
use strategy_execution_engine::strategies::vwap::VWAPStrategy;

#[test]
fn decimal_rendering_exact() {
    assert_eq!(u64_to_dec(0), "0");
    assert_eq!(u64_to_dec(7), "7");
    assert_eq!(u64_to_dec(907), "907");
    assert_eq!(u64_to_dec(18_446_744_073_709_551_615), "18446744073709551615");
}

#[test]
fn child_ids_compose_parent_and_index() {
    let parent = String::from("ord-17");
    assert_eq!(make_child_id(&parent, 0), "ord-17-0");
    assert_eq!(make_child_id(&parent, 12), "ord-17-12");
}

#[test]
fn config_wraps_supplied_urls() {
    let config = Config::new(
        Some("localhost:9092".to_string()),
        None,
        Some("amqp://localhost".to_string()),
        None,
        Some("redis://localhost".to_string()),
    )
    .unwrap();

    assert_eq!(config.kafka.unwrap().kafka_url, "localhost:9092");
    assert!(config.nats.is_none());
    assert_eq!(config.rabbitmq.unwrap().rabbitmq_url, "amqp://localhost");
    assert!(config.zeromq.is_none());
    assert_eq!(config.redis.unwrap().redis_url, "redis://localhost");
}

#[test]
fn config_error_spells_variable() {
    let err = ConfigError::MissingEnvVar("NATS_URL".to_string());
    assert_eq!(err.message(), "missing environment variable: NATS_URL");
}

#[test]
fn zeromq_client_round_trip() {
    let client = ZeroMQClient::new();
    assert!(client.produce("test_topic", "Hello, ZeroMQ!").is_ok());
    assert_eq!(client.consume("test_topic"), Ok("ZeroMQ message".to_string()));
}

#[test]
fn messaging_service_dispatches_in_process_backend() {
    let service = MessagingService::new(ClientType::ZeroMQ).unwrap();
    assert!(service.produce("test_topic", "Hello!").is_ok());
    assert_eq!(service.consume("test_topic"), Ok("ZeroMQ message".to_string()));

    assert!(MessagingService::new(ClientType::Kafka).is_none());
    assert!(MessagingService::new(ClientType::Redis).is_none());
}

fn tiny_parent() -> ParentOrder {
    let order = Order::new(
        "p".to_string(),
        10,
        ProductType::Spot,
        OrderType::Market,
        None,
        0,
        None,
        "X".to_string(),
        Side::Buy,
        "USD".to_string(),
        None,
        None,
        None,
        None,
        None,
        None,
        None,
        None,
    );
    ParentOrder { order_common: order, strategy_id: "s".to_string() }
}

#[test]
fn twap_and_vwap_emit_no_children_yet() {
    let parent = tiny_parent();
    assert!(TWAPStrategy.split(&parent).is_empty());
    assert!(VWAPStrategy.split(&parent).is_empty());
}

#[test]
fn order_common_construction() {
    let order: common_orders::OrderCommon = OrderTrait::new(
        "oc-1".to_string(),
        40,
        common_orders::ProductType::Spot,
        common_orders::OrderType::Limit,
        Some(12_345),
        1622512800,
        None,
        "AAPL".to_string(),
        common_orders::Side::Buy,
        Some(common_orders::TimeInForce::IOC),
        None,
        None,
        None,
        Some("cfd-note".to_string()),
    );
    assert_eq!(order.id, "oc-1");
    assert_eq!(order.quantity, 40);
    assert_eq!(order.price, Some(12_345));
    assert_eq!(format!("{:?}", order.side), "Buy");
    assert_eq!(order.cfd_opt, Some("cfd-note".to_string()));
}

#[test]
fn signal_split_passes_parent_through_on_match() {
    let parent = tiny_parent();

    let children = split_for_signal(Some(Side::Buy), &parent);
    assert_eq!(children.len(), 1);
    assert_eq!(children[0].order_common.id, "p");
    assert_eq!(children[0].order_common.quantity, 10);
    assert_eq!(children[0].parent_id, "p");
    assert_eq!(children[0].strategy_id, "s");
    assert_eq!(children[0].insert_at, Some(0));

    assert!(split_for_signal(Some(Side::Sell), &parent).is_empty());
    assert!(split_for_signal(None, &parent).is_empty());
}
