//! Scenario tests of the estimators, the signal generator and the cooldown
//! gate. Prices are integer ticks (hundredths); ratios are in millionths.

use strategy_execution_engine::models::orders::{
    Order, OrderType as ModelOrderType, ProductType, Side, TimeInForce,
};
use strategy_execution_engine::strategies::adverse_selection::{
    AdverseSelectionConfig, AdverseSelectionStrategy, ConfigIssue, MarketData, MarketState,
    OrderBook, OrderType, SignalReason, Strategy, StrategySignal, StrategyState, Ticker, Trade,
};

const NOW: u64 = 1_700_000_000_000;

fn new_strategy() -> AdverseSelectionStrategy {
    AdverseSelectionStrategy::new(AdverseSelectionConfig::default()).unwrap()
}

fn trade(price: u64, size: u32) -> Trade {
    Trade { timestamp: NOW, price, size, side: Side::Buy }
}

fn book(bid_size: u32, ask_size: u32) -> OrderBook {
    let mut b = OrderBook::default();
    b.bids.push((10_000, bid_size));
    b.asks.push((10_100, ask_size));
    b
}

fn make_order(id: &str, quantity: u32, price: u64, side: Side) -> Order {
    Order::new(
        id.to_string(),
        quantity,
        ProductType::Spot,
        ModelOrderType::Market,
        Some(price),
        NOW,
        None,
        "BTC/USD".to_string(),
        side,
        "USD".to_string(),
        None,
        Some(TimeInForce::GTC),
        None,
        None,
        None,
        None,
        None,
        None,
    )
}

#[test]
fn imbalance_zero_with_few_snapshots() {
    let mut strategy = new_strategy();
    assert_eq!(strategy.calculate_order_imbalance(), 0);
    strategy.recent_order_books.push_back(book(10, 10));
    assert_eq!(strategy.calculate_order_imbalance(), 0);
}

#[test]
fn imbalance_full_scale_on_one_sided_pressure() {
    let mut strategy = new_strategy();
    strategy.recent_order_books.push_back(book(10, 10));
    strategy.recent_order_books.push_back(book(15, 8));
    assert_eq!(strategy.calculate_order_imbalance(), 1_000_000);
}

#[test]
fn imbalance_exact_mixed_value() {
    let mut strategy = new_strategy();
    strategy.recent_order_books.push_back(book(10, 10));
    strategy.recent_order_books.push_back(book(12, 11));
    assert_eq!(strategy.calculate_order_imbalance(), 333_333);
}

#[test]
fn imbalance_stays_within_unit_range() {
    let mut strategy = new_strategy();
    strategy.recent_order_books.push_back(book(1, 4_000_000_000));
    strategy.recent_order_books.push_back(book(4_000_000_000, 1));
    let imbalance = strategy.calculate_order_imbalance();
    assert!(-1_000_000 <= imbalance && imbalance <= 1_000_000);
    assert!(imbalance > 0);
}

#[test]
fn price_impact_exact_value() {
    let mut strategy = new_strategy();
    strategy.recent_trades.push_back(trade(10_000, 1));
    assert_eq!(strategy.calculate_price_impact(), 0);
    strategy.recent_trades.push_back(trade(10_100, 1));
    assert_eq!(strategy.calculate_price_impact(), 10_000);
}

#[test]
fn weighted_reference_price_exact_value() {
    let mut strategy = new_strategy();
    strategy.update_position(&make_order("b1", 100, 10_000, Side::Buy));
    assert_eq!(strategy.reference_price, Some(10_000));
    strategy.update_position(&make_order("b2", 100, 10_200, Side::Buy));
    assert_eq!(strategy.position.size, 200);
    assert_eq!(strategy.reference_price, Some(10_100));
}

#[test]
fn position_flip_resets_reference_price() {
    let mut strategy = new_strategy();
    strategy.update_position(&make_order("b1", 100, 10_000, Side::Buy));
    strategy.update_position(&make_order("s1", 150, 10_500, Side::Sell));
    assert_eq!(strategy.position.size, -50);
    assert_eq!(strategy.reference_price, Some(10_500));
}

#[test]
fn reduction_keeps_reference_price() {
    let mut strategy = new_strategy();
    strategy.update_position(&make_order("b1", 100, 10_000, Side::Buy));
    strategy.update_position(&make_order("s1", 40, 12_000, Side::Sell));
    assert_eq!(strategy.position.size, 60);
    assert_eq!(strategy.reference_price, Some(10_000));
}

#[test]
fn stop_loss_emits_full_size_market_sell() {
    let mut strategy = new_strategy();
    strategy.position.size = 100;
    strategy.reference_price = Some(10_000);
    strategy.recent_order_books.push_back(book(10, 10));

    let signal = strategy.on_market_data_at(&MarketData::Trade(trade(9_800, 1)), NOW);

    match signal {
        Some(StrategySignal::Sell { price, size, order_type, reason }) => {
            assert_eq!(price, 9_800);
            assert_eq!(size, 100);
            assert_eq!(order_type, OrderType::Market);
            assert_eq!(reason, SignalReason::StopLoss);
            assert_eq!(reason.text(), "Stop loss");
        },
        other => panic!("expected a stop-loss sell, got {:?}", other),
    }
}

#[test]
fn take_profit_emits_full_size_market_sell() {
    let mut strategy = new_strategy();
    strategy.position.size = 100;
    strategy.reference_price = Some(10_000);
    strategy.recent_order_books.push_back(book(10, 10));

    let signal = strategy.on_market_data_at(&MarketData::Trade(trade(10_250, 1)), NOW);

    match signal {
        Some(StrategySignal::Sell { size, order_type, reason, .. }) => {
            assert_eq!(size, 100);
            assert_eq!(order_type, OrderType::Market);
            assert_eq!(reason, SignalReason::TakeProfit);
        },
        other => panic!("expected a take-profit sell, got {:?}", other),
    }
}

#[test]
fn short_stop_loss_emits_buy() {
    let mut strategy = new_strategy();
    strategy.position.size = -80;
    strategy.reference_price = Some(10_000);
    strategy.recent_order_books.push_back(book(10, 10));

    let signal = strategy.on_market_data_at(&MarketData::Trade(trade(10_200, 1)), NOW);

    match signal {
        Some(StrategySignal::Buy { size, order_type, reason, .. }) => {
            assert_eq!(size, 80);
            assert_eq!(order_type, OrderType::Market);
            assert_eq!(reason, SignalReason::StopLoss);
        },
        other => panic!("expected a stop-loss buy, got {:?}", other),
    }
}

fn feed_eligible_conditions(strategy: &mut AdverseSelectionStrategy) {
    strategy.recent_order_books.push_back(book(10, 10));
    strategy.recent_order_books.push_back(book(15, 8));
    strategy.recent_trades.push_back(trade(10_000, 1));
    strategy.recent_trades.push_back(trade(10_100, 1));
}

#[test]
fn cooldown_suppresses_second_trigger_but_not_reclassification() {
    let mut strategy = new_strategy();
    feed_eligible_conditions(&mut strategy);
    strategy.last_adverse_detection = Some(NOW);

    // 100 seconds after the last detection: within the 300 s cooldown.
    let fired = strategy.detect_adverse_selection_at(NOW + 100_000);
    assert!(!fired);
    assert_eq!(*strategy.get_market_state(), MarketState::BuyerInformed);
    assert_eq!(strategy.last_adverse_detection, Some(NOW));

    // 400 seconds after: the cooldown has lapsed, the trigger re-fires.
    let fired_later = strategy.detect_adverse_selection_at(NOW + 400_000);
    assert!(fired_later);
    assert_eq!(strategy.last_adverse_detection, Some(NOW + 400_000));
}

#[test]
fn trigger_follows_informed_flow_when_flat() {
    let mut strategy = new_strategy();
    strategy.recent_order_books.push_back(book(10, 10));
    strategy.recent_order_books.push_back(book(15, 8));
    strategy.recent_trades.push_back(trade(10_000, 1));

    let signal = strategy.on_market_data_at(&MarketData::Trade(trade(10_100, 1)), NOW);

    match signal {
        Some(StrategySignal::Buy { size, order_type, reason, .. }) => {
            assert_eq!(size, 1);
            assert_eq!(order_type, OrderType::Limit);
            assert_eq!(reason, SignalReason::FollowingInformedFlow);
        },
        other => panic!("expected a following buy, got {:?}", other),
    }
    assert_eq!(*strategy.get_market_state(), MarketState::BuyerInformed);
    assert!(strategy.last_adverse_detection.is_some());
}

#[test]
fn trigger_protects_long_position() {
    let mut strategy = new_strategy();
    strategy.position.size = 70;
    feed_eligible_conditions(&mut strategy);

    let ticker = Ticker { timestamp: NOW, bid: 10_000, ask: 10_100, last: 10_050 };
    let signal = strategy.on_market_data_at(&MarketData::Ticker(ticker), NOW);

    match signal {
        Some(StrategySignal::Sell { size, order_type, reason, .. }) => {
            assert_eq!(size, 70);
            assert_eq!(order_type, OrderType::Market);
            assert_eq!(reason, SignalReason::AdverseSelectionProtection);
        },
        other => panic!("expected a protective sell, got {:?}", other),
    }
}

#[test]
fn trade_window_evicts_oldest_beyond_capacity() {
    let mut strategy = new_strategy();
    for i in 0..105u64 {
        strategy.on_market_data_at(&MarketData::Trade(trade(10_000 + i, 1)), NOW);
    }
    assert_eq!(strategy.recent_trades.len(), 100);
    assert_eq!(strategy.recent_trades[0].price, 10_005);
}

#[test]
fn book_window_evicts_oldest_beyond_window_size() {
    let mut strategy = new_strategy();
    for i in 0..25u32 {
        strategy.on_market_data_at(&MarketData::OrderBook(book(10 + i, 10)), NOW);
    }
    assert_eq!(strategy.recent_order_books.len(), 20);
    assert_eq!(strategy.recent_order_books[0].bids[0].1, 15);
}

#[test]
fn lifecycle_state_and_reset() {
    let mut strategy = new_strategy();
    assert_eq!(strategy.name(), "Adverse Selection Strategy");
    assert!(strategy.description().contains("superior information"));
    strategy.set_state(StrategyState::Running);
    assert_eq!(*strategy.state(), StrategyState::Running);

    strategy.on_order_executed(&make_order("b1", 100, 10_000, Side::Buy));
    assert_eq!(strategy.position.size, 100);
    feed_eligible_conditions(&mut strategy);

    strategy.reset();
    assert_eq!(*strategy.state(), StrategyState::Idle);
    assert_eq!(strategy.recent_trades.len(), 0);
    assert_eq!(strategy.recent_order_books.len(), 0);
    assert_eq!(strategy.position.size, 0);
    assert!(strategy.reference_price.is_none());
    assert!(strategy.last_adverse_detection.is_none());
    assert_eq!(*strategy.get_market_state(), MarketState::Normal);
}

#[test]
fn config_validation_rejects_each_issue() {
    let mut config = AdverseSelectionConfig::default();
    assert!(config.validate().is_ok());

    config.max_splits = 0;
    assert_eq!(config.validate(), Err(ConfigIssue::NoSplits));
    assert!(AdverseSelectionStrategy::new(config).is_err());

    config.max_splits = 5;
    config.min_split_interval_ms = 4000;
    assert_eq!(config.validate(), Err(ConfigIssue::IntervalBoundsReversed));

    config.min_split_interval_ms = 500;
    config.size_variation_pct = 1_500_000;
    assert_eq!(config.validate(), Err(ConfigIssue::VariationAboveOne));
    assert_eq!(
        config.validate().unwrap_err().text(),
        "size_variation_pct exceeds 1.0"
    );
}
