//! The adverse-selection engine: a rolling market window, a market-regime
//! estimator, a position ledger, a signal generator, and an adaptive
//! order splitter.
//!
//! Pure ratios (thresholds, percentages) are fixed-point integers in
//! millionths (`SCALE` stands for 1.0); prices are integer ticks and trade
//! sizes integer units in caller-chosen scales.

use vstd::prelude::*;
use vstd::math::abs;
use std::collections::VecDeque;
use crate::models::orders::{Order, Side};
use crate::models::{ChildOrder, ParentOrder};
use crate::numeric::{SCALE, div_trunc};
use crate::strategies::common::{
    OrderSplitStrategy, child_id, lemma_child_id_distinct, make_child_id, sum_child_qty,
};
use crate::sys::{now_epoch_millis, rand_upto};

verus! {

/// Strategy trait and related types.
pub trait Strategy {
    fn name(&self) -> &str;

    fn description(&self) -> &str;

    fn state(&self) -> &StrategyState;

    fn set_state(&mut self, state: StrategyState);

    fn on_market_data(&mut self, data: &MarketData) -> Option<StrategySignal>;

    fn on_order_executed(&mut self, order: &Order);

    fn on_order_cancelled(&mut self, order: &Order);

    fn reset(&mut self);
}

/// Strategy lifecycle state; the caller checks it before consulting the
/// strategy at all.
#[derive(Clone, Copy, Debug, PartialEq, Eq, Structural)]
pub enum StrategyState {
    Idle,
    Running,
    Paused,
    Error,
}

/// Order side enum.
#[derive(Clone, Copy, Debug, PartialEq, Eq, Structural)]
pub enum OrderSide {
    Buy,
    Sell,
}

/// Order type enum.
#[derive(Clone, Copy, Debug, PartialEq, Eq, Structural)]
pub enum OrderType {
    Market,
    Limit,
    StopLoss,
    TakeProfit,
}

/// Why a signal was emitted.
#[derive(Clone, Copy, Debug, PartialEq, Eq, Structural)]
pub enum SignalReason {
    StopLoss,
    TakeProfit,
    AdverseSelectionProtection,
    FollowingInformedFlow,
}

impl SignalReason {
    /// The reason spelled out, as it is reported to callers.
    pub fn text(&self) -> (r: &'static str)
        ensures
            *self == SignalReason::StopLoss ==> r@ == "Stop loss"@,
            *self == SignalReason::TakeProfit ==> r@ == "Take profit"@,
            *self == SignalReason::AdverseSelectionProtection ==> r@
                == "Adverse selection protection"@,
            *self == SignalReason::FollowingInformedFlow ==> r@ == "Following informed flow"@,
    {
        match self {
            SignalReason::StopLoss => "Stop loss",
            SignalReason::TakeProfit => "Take profit",
            SignalReason::AdverseSelectionProtection => "Adverse selection protection",
            SignalReason::FollowingInformedFlow => "Following informed flow",
        }
    }
}

/// Strategy signal.
#[derive(Clone, Copy, Debug, PartialEq, Eq, Structural)]
pub enum StrategySignal {
    Buy { price: u64, size: u64, order_type: OrderType, reason: SignalReason },
    Sell { price: u64, size: u64, order_type: OrderType, reason: SignalReason },
}

/// Trade data.
#[derive(Clone, Copy, Debug)]
pub struct Trade {
    pub timestamp: u64,
    pub price: u64,
    pub size: u32,
    pub side: Side,
}

/// Order book data: resting (price, size) levels per side.
#[derive(Debug)]
pub struct OrderBook {
    pub bids: Vec<(u64, u32)>,
    pub asks: Vec<(u64, u32)>,
}

impl Default for OrderBook {
    fn default() -> (r: Self)
        ensures
            r.bids@ == Seq::<(u64, u32)>::empty(),
            r.asks@ == Seq::<(u64, u32)>::empty(),
    {
        OrderBook { bids: Vec::new(), asks: Vec::new() }
    }
}

/// Copies a vector of book levels.
fn dup_levels(levels: &Vec<(u64, u32)>) -> (r: Vec<(u64, u32)>)
    ensures
        r@ == levels@,
{
    let mut out: Vec<(u64, u32)> = Vec::new();
    let mut i: usize = 0;
    while i < levels.len()
        invariant
            0 <= i <= levels@.len(),
            out@ == levels@.take(i as int),
        decreases levels@.len() - i,
    {
        out.push(levels[i]);
        proof {
            assert(levels@.take(i + 1 as int) =~= levels@.take(i as int).push(levels@[i as int]));
        }
        i = i + 1;
    }
    proof {
        assert(levels@.take(levels@.len() as int) =~= levels@);
    }
    out
}

impl OrderBook {
    /// A copy of the snapshot.
    pub fn duplicate(&self) -> (r: OrderBook)
        ensures
            r.bids@ == self.bids@,
            r.asks@ == self.asks@,
    {
        OrderBook { bids: dup_levels(&self.bids), asks: dup_levels(&self.asks) }
    }
}

/// Ticker data.
#[derive(Clone, Copy, Debug)]
pub struct Ticker {
    pub timestamp: u64,
    pub bid: u64,
    pub ask: u64,
    pub last: u64,
}

/// Candle data.
#[derive(Clone, Copy, Debug)]
pub struct Candle {
    pub timestamp: u64,
    pub open: u64,
    pub high: u64,
    pub low: u64,
    pub close: u64,
    pub volume: u64,
}

/// Market data types.
#[derive(Debug)]
pub enum MarketData {
    Trade(Trade),
    OrderBook(OrderBook),
    Ticker(Ticker),
}

/// Position data. Only `size` is maintained by the engine; the ledger keeps
/// a single volume-weighted reference price per net directional exposure in
/// the strategy's `reference_price` instead of computing realized PnL.
#[derive(Clone, Copy, Debug, PartialEq, Eq, Structural)]
pub struct Position {
    pub size: i64,
    pub avg_price: u64,
    pub unrealized_pnl: i64,
    pub realized_pnl: i64,
}

impl Default for Position {
    fn default() -> (r: Self)
        ensures
            r == (Position { size: 0i64, avg_price: 0u64, unrealized_pnl: 0i64, realized_pnl: 0i64 }),
    {
        Position { size: 0, avg_price: 0, unrealized_pnl: 0, realized_pnl: 0 }
    }
}

/// Configuration parameters for the Adverse Selection strategy. All ratio
/// fields are in millionths: `imbalance_threshold`, `price_impact_threshold`,
/// `trade_size_threshold`, `stop_loss_pct`, `take_profit_pct` and
/// `size_variation_pct`; `cooldown_period` is in seconds, the split
/// intervals in milliseconds, and `max_position_size` in trade-size units.
#[derive(Clone, Copy, Debug)]
pub struct AdverseSelectionConfig {
    /// Threshold for order imbalance to detect potential informed trading.
    pub imbalance_threshold: u64,
    /// Window size for the order-book history.
    pub window_size: usize,
    /// Threshold for price impact to detect adverse selection.
    pub price_impact_threshold: u64,
    /// Threshold for trade size anomaly detection (multiplier over average).
    pub trade_size_threshold: u64,
    /// Cooldown period after detecting adverse selection (in seconds).
    pub cooldown_period: u64,
    /// Maximum position size allowed.
    pub max_position_size: u64,
    /// Stop loss percentage.
    pub stop_loss_pct: u64,
    /// Take profit percentage.
    pub take_profit_pct: u64,
    /// Maximum splits.
    pub max_splits: usize,
    /// Minimum split interval (milliseconds).
    pub min_split_interval_ms: u64,
    /// Maximum split interval (milliseconds).
    pub max_split_interval_ms: u64,
    /// Size variation percentage.
    pub size_variation_pct: u64,
}

/// The default configuration.
pub open spec fn default_adverse_config() -> AdverseSelectionConfig {
    AdverseSelectionConfig {
        imbalance_threshold: 700_000,
        window_size: 20,
        price_impact_threshold: 1_000,
        trade_size_threshold: 2_000_000,
        cooldown_period: 300,
        max_position_size: 1,
        stop_loss_pct: 10_000,
        take_profit_pct: 20_000,
        max_splits: 5,
        min_split_interval_ms: 500,
        max_split_interval_ms: 3000,
        size_variation_pct: 200_000,
    }
}

impl Default for AdverseSelectionConfig {
    fn default() -> (r: Self)
        ensures
            r == default_adverse_config(),
    {
        AdverseSelectionConfig {
            imbalance_threshold: 700_000,
            window_size: 20,
            price_impact_threshold: 1_000,
            trade_size_threshold: 2_000_000,
            cooldown_period: 300,
            max_position_size: 1,
            stop_loss_pct: 10_000,
            take_profit_pct: 20_000,
            max_splits: 5,
            min_split_interval_ms: 500,
            max_split_interval_ms: 3000,
            size_variation_pct: 200_000,
        }
    }
}

/// A reason the configuration is rejected at construction time.
#[derive(Clone, Copy, Debug, PartialEq, Eq, Structural)]
pub enum ConfigIssue {
    /// `max_splits` is zero: no split could produce any child order.
    NoSplits,
    /// The minimum split interval exceeds the maximum.
    IntervalBoundsReversed,
    /// The size variation exceeds 1.0: child quantities would be negative.
    VariationAboveOne,
}

impl ConfigIssue {
    /// The issue spelled out.
    pub fn text(&self) -> (r: &'static str)
        ensures
            *self == ConfigIssue::NoSplits ==> r@ == "max_splits must be at least 1"@,
            *self == ConfigIssue::IntervalBoundsReversed ==> r@
                == "min_split_interval_ms exceeds max_split_interval_ms"@,
            *self == ConfigIssue::VariationAboveOne ==> r@ == "size_variation_pct exceeds 1.0"@,
    {
        match self {
            ConfigIssue::NoSplits => "max_splits must be at least 1",
            ConfigIssue::IntervalBoundsReversed => "min_split_interval_ms exceeds max_split_interval_ms",
            ConfigIssue::VariationAboveOne => "size_variation_pct exceeds 1.0",
        }
    }
}

impl AdverseSelectionConfig {
    /// The first reason this configuration is malformed, if any.
    pub open spec fn first_issue(&self) -> Option<ConfigIssue> {
        if self.max_splits == 0 {
            Some(ConfigIssue::NoSplits)
        } else if self.min_split_interval_ms > self.max_split_interval_ms {
            Some(ConfigIssue::IntervalBoundsReversed)
        } else if self.size_variation_pct > SCALE {
            Some(ConfigIssue::VariationAboveOne)
        } else {
            None
        }
    }

    pub open spec fn is_valid(&self) -> bool {
        self.first_issue() is None
    }

    /// Decides whether the configuration is well formed.
    pub fn validate(&self) -> (r: Result<(), ConfigIssue>)
        ensures
            r is Ok <==> self.is_valid(),
            r is Err ==> r->Err_0 == self.first_issue()->0,
    {
        if self.max_splits == 0 {
            Err(ConfigIssue::NoSplits)
        } else if self.min_split_interval_ms > self.max_split_interval_ms {
            Err(ConfigIssue::IntervalBoundsReversed)
        } else if self.size_variation_pct > SCALE {
            Err(ConfigIssue::VariationAboveOne)
        } else {
            Ok(())
        }
    }
}

/// Market state evaluation.
#[derive(Clone, Copy, Debug, PartialEq, Eq, Structural)]
pub enum MarketState {
    /// Normal market state.
    Normal,
    /// Buyer informed state.
    BuyerInformed,
    /// Seller informed state.
    SellerInformed,
    /// High volatility state.
    HighVolatility,
}

/// Adverse Selection strategy implementation.
#[derive(Debug)]
pub struct AdverseSelectionStrategy {
    /// Configuration parameters.
    pub config: AdverseSelectionConfig,
    /// Current lifecycle state of the strategy.
    pub state: StrategyState,
    /// Recent trades for analysis (capacity `TRADE_WINDOW`).
    pub recent_trades: VecDeque<Trade>,
    /// Recent order book snapshots (capacity `config.window_size`).
    pub recent_order_books: VecDeque<OrderBook>,
    /// When adverse selection was last detected (epoch milliseconds).
    pub last_adverse_detection: Option<u64>,
    /// Current position.
    pub position: Position,
    /// Reference price for position management.
    pub reference_price: Option<u64>,
    /// Current market state.
    pub market_state: MarketState,
}

/// How many trades the rolling window retains.
pub const TRADE_WINDOW: usize = 100;

/// Total size resting in a sequence of book levels.
pub open spec fn level_size_sum(s: Seq<(u64, u32)>) -> int
    decreases s.len(),
{
    if s.len() == 0 {
        0
    } else {
        level_size_sum(s.drop_last()) + s.last().1
    }
}

/// Total size of a sequence of trades.
pub open spec fn trade_size_sum(s: Seq<Trade>) -> int
    decreases s.len(),
{
    if s.len() == 0 {
        0
    } else {
        trade_size_sum(s.drop_last()) + s.last().size
    }
}

/// Order-flow imbalance over the two most recent snapshots, in millionths:
/// the net change of bid volume against ask volume, normalized by the total
/// absolute change; zero with fewer than two snapshots or no change at all.
pub open spec fn imbalance_of(books: Seq<OrderBook>) -> int {
    if books.len() < 2 {
        0
    } else {
        let cur = books[books.len() - 1];
        let prev = books[books.len() - 2];
        let db = level_size_sum(cur.bids@) - level_size_sum(prev.bids@);
        let da = level_size_sum(cur.asks@) - level_size_sum(prev.asks@);
        let total = abs(db) + abs(da);
        if total == 0 {
            0
        } else {
            div_trunc((db - da) * (SCALE as int), total as int)
        }
    }
}

/// Whether the latest trade is abnormally large: at least ten trades are
/// recorded and the latest size exceeds the window mean scaled by the
/// threshold (stated multiplicatively to stay in integers).
pub open spec fn abnormal_size_of(trades: Seq<Trade>, threshold: u64) -> bool {
    trades.len() >= 10 && trades.last().size * trades.len() * SCALE > trade_size_sum(trades)
        * threshold
}

/// Relative price impact of the latest trade against the previous one, in
/// millionths; zero with fewer than two trades or a zero previous price.
pub open spec fn impact_of(trades: Seq<Trade>) -> int {
    if trades.len() < 2 {
        0
    } else {
        let pl = trades.last().price;
        let pp = trades[trades.len() - 2].price;
        if pp == 0 {
            0
        } else {
            abs(pl - pp) * (SCALE as int) / (pp as int)
        }
    }
}

/// The market regime implied by the imbalance and price impact, evaluated
/// in priority order.
pub open spec fn classify_of(imb: int, impact: int, cfg: AdverseSelectionConfig) -> MarketState {
    if abs(imb) > cfg.imbalance_threshold {
        if imb > 0 {
            MarketState::BuyerInformed
        } else {
            MarketState::SellerInformed
        }
    } else if impact > 2 * cfg.price_impact_threshold {
        MarketState::HighVolatility
    } else {
        MarketState::Normal
    }
}

/// Whether current conditions qualify as adverse selection, before the
/// cooldown gate is applied.
pub open spec fn eligible_of(imb: int, abnormal: bool, impact: int, cfg: AdverseSelectionConfig)
    -> bool {
    (abs(imb) > cfg.imbalance_threshold && impact > cfg.price_impact_threshold) || (abnormal
        && impact > cfg.price_impact_threshold)
}

/// Whether a previous detection still suppresses new triggers at `now`.
/// A clock that reads earlier than the last detection does not suppress.
pub open spec fn cooldown_active_at(last: Option<u64>, now: u64, cooldown_s: u64) -> bool {
    match last {
        None => false,
        Some(t) => now >= t && (now - t) / 1000 < cooldown_s,
    }
}

/// The trigger decision over the whole window state.
pub open spec fn trigger_of(
    trades: Seq<Trade>,
    books: Seq<OrderBook>,
    last: Option<u64>,
    cfg: AdverseSelectionConfig,
    now: u64,
) -> bool {
    eligible_of(
        imbalance_of(books),
        abnormal_size_of(trades, cfg.trade_size_threshold),
        impact_of(trades),
        cfg,
    ) && !cooldown_active_at(last, now, cfg.cooldown_period)
}

/// Sums the sizes of a vector of book levels.
fn sum_levels(levels: &Vec<(u64, u32)>) -> (r: u128)
    ensures
        r == level_size_sum(levels@),
        r < 0x1_0000_0000_0000_0000_0000_0000u128,
{
    let mut total: u128 = 0;
    let mut i: usize = 0;
    while i < levels.len()
        invariant
            0 <= i <= levels@.len(),
            total == level_size_sum(levels@.take(i as int)),
            total <= i * (u32::MAX as int),
        decreases levels@.len() - i,
    {
        proof {
            assert(levels@.take(i + 1 as int).drop_last() =~= levels@.take(i as int));
            assert(levels@.take(i + 1 as int).last() == levels@[i as int]);
        }
        total = total + (levels[i].1 as u128);
        i = i + 1;
    }
    proof {
        assert(levels@.take(levels@.len() as int) =~= levels@);
        assert(total < 0x1_0000_0000_0000_0000_0000_0000u128) by (nonlinear_arith)
            requires
                total <= i * (u32::MAX as int),
                i <= usize::MAX,
        ;
    }
    total
}

/// Sums the sizes of the recorded trades.
fn sum_trade_sizes(trades: &VecDeque<Trade>) -> (r: u128)
    ensures
        r == trade_size_sum(trades@),
        r < 0x1_0000_0000_0000_0000_0000_0000u128,
{
    let mut total: u128 = 0;
    let mut i: usize = 0;
    while i < trades.len()
        invariant
            0 <= i <= trades@.len(),
            total == trade_size_sum(trades@.take(i as int)),
            total <= i * (u32::MAX as int),
        decreases trades@.len() - i,
    {
        proof {
            assert(trades@.take(i + 1 as int).drop_last() =~= trades@.take(i as int));
            assert(trades@.take(i + 1 as int).last() == trades@[i as int]);
        }
        total = total + (trades[i].size as u128);
        i = i + 1;
    }
    proof {
        assert(trades@.take(trades@.len() as int) =~= trades@);
        assert(total < 0x1_0000_0000_0000_0000_0000_0000u128) by (nonlinear_arith)
            requires
                total <= i * (u32::MAX as int),
                i <= usize::MAX,
        ;
    }
    total
}

impl AdverseSelectionStrategy {
    /// Create a new instance of the Adverse Selection strategy. A malformed
    /// configuration is rejected with the first issue found.
    pub fn new(config: AdverseSelectionConfig) -> (r: Result<Self, ConfigIssue>)
        ensures
            r is Ok <==> config.is_valid(),
            r is Err ==> r->Err_0 == config.first_issue()->0,
            r is Ok ==> {
                let s = r->Ok_0;
                &&& s.config == config
                &&& s.state == StrategyState::Idle
                &&& s.recent_trades@ == Seq::<Trade>::empty()
                &&& s.recent_order_books@ == Seq::<OrderBook>::empty()
                &&& s.last_adverse_detection is None
                &&& s.position == (Position {
                    size: 0i64,
                    avg_price: 0u64,
                    unrealized_pnl: 0i64,
                    realized_pnl: 0i64,
                })
                &&& s.reference_price is None
                &&& s.market_state == MarketState::Normal
            },
    {
        config.validate()?;
        Ok(
            Self {
                config,
                state: StrategyState::Idle,
                recent_trades: VecDeque::with_capacity(TRADE_WINDOW),
                recent_order_books: VecDeque::with_capacity(20),
                last_adverse_detection: None,
                position: Position::default(),
                reference_price: None,
                market_state: MarketState::Normal,
            },
        )
    }

    /// Calculate order flow imbalance from recent order book data, in
    /// millionths. Zero with fewer than two snapshots, and always within
    /// `[-SCALE, SCALE]`.
    pub fn calculate_order_imbalance(&self) -> (r: i64)
        ensures
            r == imbalance_of(self.recent_order_books@),
            self.recent_order_books@.len() < 2 ==> r == 0,
            -(SCALE as int) <= r <= SCALE as int,
    {
        let n = self.recent_order_books.len();
        if n < 2 {
            return 0;
        }
        let current_book = &self.recent_order_books[n - 1];
        let previous_book = &self.recent_order_books[n - 2];

        let bid_volume_current = sum_levels(&current_book.bids);
        let ask_volume_current = sum_levels(&current_book.asks);
        let bid_volume_previous = sum_levels(&previous_book.bids);
        let ask_volume_previous = sum_levels(&previous_book.asks);

        let bid_change: i128 = (bid_volume_current as i128) - (bid_volume_previous as i128);
        let ask_change: i128 = (ask_volume_current as i128) - (ask_volume_previous as i128);

        let bid_mag: u128 = if bid_change < 0 {
            (-bid_change) as u128
        } else {
            bid_change as u128
        };
        let ask_mag: u128 = if ask_change < 0 {
            (-ask_change) as u128
        } else {
            ask_change as u128
        };
        let total: u128 = bid_mag + ask_mag;
        if total == 0 {
            return 0;
        }

        let numer: i128 = bid_change - ask_change;
        let numer_mag: u128 = if numer < 0 {
            (-numer) as u128
        } else {
            numer as u128
        };
        proof {
            assert(numer_mag <= total);
        }
        proof {
            assert(numer_mag <= 0x2_0000_0000_0000_0000_0000_0000u128);
            assert(numer_mag * (SCALE as u128) <= 0x2_0000_0000_0000_0000_0000_0000u128
                * 0x100000u128) by (nonlinear_arith)
                requires
                    0 <= numer_mag <= 0x2_0000_0000_0000_0000_0000_0000u128,
                    0 <= (SCALE as u128) <= 0x100000u128,
            ;
        }
        let quotient: u128 = (numer_mag * (SCALE as u128)) / total;
        proof {
            crate::numeric::lemma_ratio_bounded(numer as int, total as int);
            if numer >= 0 {
                assert(div_trunc((bid_change - ask_change) * SCALE, total as int) == quotient);
            } else {
                assert((-(numer as int)) * (SCALE as int) == -((numer as int) * (SCALE as int)))
                    by (nonlinear_arith);
                assert(div_trunc((bid_change - ask_change) * SCALE, total as int) == -(
                quotient as int));
            }
        }
        if numer < 0 {
            -(quotient as i64)
        } else {
            quotient as i64
        }
    }

    /// Detect abnormal trade sizes that might indicate informed trading:
    /// with at least ten recorded trades, whether the most recent trade's
    /// size exceeds the window mean scaled by the configured threshold.
    pub fn detect_abnormal_trade_size(&self) -> (r: bool)
        ensures
            r == abnormal_size_of(self.recent_trades@, self.config.trade_size_threshold),
            self.recent_trades@.len() < 10 ==> r == false,
    {
        let n = self.recent_trades.len();
        if n < 10 {
            return false;
        }

        let size_sum = sum_trade_sizes(&self.recent_trades);
        let latest_size = self.recent_trades[n - 1].size;

        proof {
            assert((latest_size as int) * (n as int) <= 0x1_0000_0000_0000_0000_0000_0000int)
                by (nonlinear_arith)
                requires latest_size <= u32::MAX, n <= usize::MAX,
            ;
            assert((latest_size as int) * (n as int) * (SCALE as int)
                <= 0x1_0000_0000_0000_0000_0000_0000int * 0x100000int)
                by (nonlinear_arith)
                requires
                    0 <= (latest_size as int) * (n as int)
                        <= 0x1_0000_0000_0000_0000_0000_0000int,
                    SCALE <= 0x100000u64,
            ;
        }
        let lhs: u128 = (latest_size as u128) * (n as u128) * (SCALE as u128);
        match size_sum.checked_mul(self.config.trade_size_threshold as u128) {
            Some(rhs) => lhs > rhs,
            None => {
                proof {
                    assert(lhs < u128::MAX);
                }
                false
            },
        }
    }

    /// Calculate the relative price impact of the latest trade, in
    /// millionths. Zero with fewer than two trades, and when the previous
    /// price is zero (a guarded division).
    pub fn calculate_price_impact(&self) -> (r: u128)
        ensures
            r == impact_of(self.recent_trades@),
            self.recent_trades@.len() < 2 ==> r == 0,
    {
        let n = self.recent_trades.len();
        if n < 2 {
            return 0;
        }
        let latest_price = self.recent_trades[n - 1].price;
        let previous_price = self.recent_trades[n - 2].price;
        if previous_price == 0 {
            return 0;
        }
        let diff: u64 = if latest_price >= previous_price {
            latest_price - previous_price
        } else {
            previous_price - latest_price
        };
        proof {
            assert((diff as int) * (SCALE as int) <= 0xffff_ffff_ffff_ffffint * 0x100000int)
                by (nonlinear_arith)
                requires diff <= u64::MAX, SCALE <= 0x100000u64,
            ;
        }
        ((diff as u128) * (SCALE as u128)) / (previous_price as u128)
    }

    /// Get current market state.
    pub fn get_market_state(&self) -> (r: &MarketState)
        ensures
            r == self.market_state,
    {
        &self.market_state
    }
}

/// An integer clamped into the `i64` range.
pub open spec fn clamp_i64(x: int) -> int {
    if x > i64::MAX {
        i64::MAX as int
    } else if x < i64::MIN {
        i64::MIN as int
    } else {
        x
    }
}

/// A non-negative integer clamped into the `u64` range.
pub open spec fn clamp_u64(x: int) -> int {
    if x > u64::MAX {
        u64::MAX as int
    } else {
        x
    }
}

/// The execution price carried by an order, or zero when it has none.
pub open spec fn exec_price_of(o: Order) -> u64 {
    match o.price {
        Some(p) => p,
        None => 0,
    }
}

/// The signed position size after an execution, saturating at the `i64`
/// bounds.
pub open spec fn size_after_exec(old_size: i64, side: Side, qty: u32) -> int {
    match side {
        Side::Buy => clamp_i64(old_size + qty),
        Side::Sell => clamp_i64(old_size - qty),
    }
}

/// The volume-weighted reference price: the prior reference weighted by the
/// prior absolute size against the execution price weighted by the traded
/// quantity, divided by the new absolute size. With no prior reference the
/// execution price is taken directly.
pub open spec fn weighted_ref_of(
    old_ref: Option<u64>,
    old_weight: int,
    price: u64,
    qty: u32,
    new_weight: int,
) -> int
    recommends
        new_weight > 0,
{
    match old_ref {
        None => price as int,
        Some(rp) => clamp_u64((rp * old_weight + (price as int) * (qty as int)) / new_weight),
    }
}

/// The reference price after an execution. Crossing through zero resets it
/// to the execution price, discarding the prior average; adding to the net
/// exposure re-weights it; reducing without crossing keeps it. A zero
/// quantity changes nothing.
pub open spec fn ref_after_exec(
    old_size: i64,
    old_ref: Option<u64>,
    side: Side,
    qty: u32,
    price: u64,
) -> Option<u64> {
    if qty == 0 {
        old_ref
    } else {
        match side {
            Side::Buy => if old_size < 0 {
                if size_after_exec(old_size, side, qty) >= 0 {
                    Some(price)
                } else {
                    old_ref
                }
            } else {
                Some(
                    weighted_ref_of(
                        old_ref,
                        old_size as int,
                        price,
                        qty,
                        size_after_exec(old_size, side, qty),
                    ) as u64,
                )
            },
            Side::Sell => if old_size > 0 {
                if size_after_exec(old_size, side, qty) <= 0 {
                    Some(price)
                } else {
                    old_ref
                }
            } else {
                Some(
                    weighted_ref_of(
                        old_ref,
                        -(old_size as int),
                        price,
                        qty,
                        -size_after_exec(old_size, side, qty),
                    ) as u64,
                )
            },
        }
    }
}

/// The absolute value of a signed position size.
pub open spec fn size_mag_of(size: i64) -> int {
    if size >= 0 {
        size as int
    } else {
        -(size as int)
    }
}

/// The position-risk exit, evaluated before anything else: a market-order
/// exit of the full position when the move against (or in favor of) the
/// reference price reaches the stop-loss (or take-profit) ratio. A missing
/// or zero reference price yields no exit (the zero guards the division in
/// the profit-and-loss ratio).
pub open spec fn risk_exit_of(
    pos_size: i64,
    ref_price: Option<u64>,
    price: u64,
    cfg: AdverseSelectionConfig,
) -> Option<StrategySignal> {
    match ref_price {
        None => None,
        Some(rp) => if rp == 0 {
            None
        } else if pos_size > 0 {
            if (rp - price) * SCALE >= cfg.stop_loss_pct * rp {
                Some(
                    StrategySignal::Sell {
                        price,
                        size: pos_size as u64,
                        order_type: OrderType::Market,
                        reason: SignalReason::StopLoss,
                    },
                )
            } else if (price - rp) * SCALE >= cfg.take_profit_pct * rp {
                Some(
                    StrategySignal::Sell {
                        price,
                        size: pos_size as u64,
                        order_type: OrderType::Market,
                        reason: SignalReason::TakeProfit,
                    },
                )
            } else {
                None
            }
        } else if pos_size < 0 {
            if (price - rp) * SCALE >= cfg.stop_loss_pct * rp {
                Some(
                    StrategySignal::Buy {
                        price,
                        size: size_mag_of(pos_size) as u64,
                        order_type: OrderType::Market,
                        reason: SignalReason::StopLoss,
                    },
                )
            } else if (rp - price) * SCALE >= cfg.take_profit_pct * rp {
                Some(
                    StrategySignal::Buy {
                        price,
                        size: size_mag_of(pos_size) as u64,
                        order_type: OrderType::Market,
                        reason: SignalReason::TakeProfit,
                    },
                )
            } else {
                None
            }
        } else {
            None
        },
    }
}

/// The response once an adverse-selection trigger has fired: with positive
/// imbalance, a protective exit of a long position or a speculative follow
/// from flat; mirrored for non-positive imbalance.
pub open spec fn adverse_response_of(
    imb: int,
    pos_size: i64,
    price: u64,
    cfg: AdverseSelectionConfig,
) -> Option<StrategySignal> {
    if imb > 0 {
        if pos_size > 0 {
            Some(
                StrategySignal::Sell {
                    price,
                    size: pos_size as u64,
                    order_type: OrderType::Market,
                    reason: SignalReason::AdverseSelectionProtection,
                },
            )
        } else if pos_size == 0 {
            Some(
                StrategySignal::Buy {
                    price,
                    size: cfg.max_position_size,
                    order_type: OrderType::Limit,
                    reason: SignalReason::FollowingInformedFlow,
                },
            )
        } else {
            None
        }
    } else {
        if pos_size < 0 {
            Some(
                StrategySignal::Buy {
                    price,
                    size: size_mag_of(pos_size) as u64,
                    order_type: OrderType::Market,
                    reason: SignalReason::AdverseSelectionProtection,
                },
            )
        } else if pos_size == 0 {
            Some(
                StrategySignal::Sell {
                    price,
                    size: cfg.max_position_size,
                    order_type: OrderType::Limit,
                    reason: SignalReason::FollowingInformedFlow,
                },
            )
        } else {
            None
        }
    }
}

/// The signal the generator emits for the given window and ledger state at
/// time `now`: nothing with an empty window, a risk exit first, then the
/// adverse-selection response when the trigger fires.
pub open spec fn expected_signal_of(
    trades: Seq<Trade>,
    books: Seq<OrderBook>,
    pos_size: i64,
    ref_price: Option<u64>,
    last: Option<u64>,
    cfg: AdverseSelectionConfig,
    now: u64,
) -> Option<StrategySignal> {
    if trades.len() == 0 || books.len() == 0 {
        None
    } else {
        let price = trades.last().price;
        let risk = risk_exit_of(pos_size, ref_price, price, cfg);
        if risk is Some {
            risk
        } else if trigger_of(trades, books, last, cfg, now) {
            adverse_response_of(imbalance_of(books), pos_size, price, cfg)
        } else {
            None
        }
    }
}

/// Whether a signal-generation pass reaches the detector at all: the
/// window is non-empty and no risk exit short-circuits it.
pub open spec fn detect_runs_of(
    trades: Seq<Trade>,
    books: Seq<OrderBook>,
    pos_size: i64,
    ref_price: Option<u64>,
    cfg: AdverseSelectionConfig,
) -> bool {
    trades.len() > 0 && books.len() > 0 && risk_exit_of(pos_size, ref_price, trades.last().price, cfg)
        is None
}

/// Two order-book snapshots with the same content.
pub open spec fn book_like(a: OrderBook, b: OrderBook) -> bool {
    a.bids@ == b.bids@ && a.asks@ == b.asks@
}

/// The trade window after recording one more trade: appended at the back,
/// with the oldest evicted once the capacity is exceeded.
pub open spec fn trade_window_push(s: Seq<Trade>, t: Trade) -> Seq<Trade> {
    let p = s.push(t);
    if p.len() > TRADE_WINDOW {
        p.subrange(1, p.len() as int)
    } else {
        p
    }
}

/// The order-book window after recording a snapshot with the content of
/// `b`: appended at the back, with the oldest evicted once `cap` is
/// exceeded.
pub open spec fn book_window_push_like(
    pre: Seq<OrderBook>,
    b: OrderBook,
    cap: usize,
    post: Seq<OrderBook>,
) -> bool {
    let shift: int = if pre.len() + 1 > cap {
        1
    } else {
        0
    };
    &&& post.len() == pre.len() + 1 - shift
    &&& forall|i: int| 0 <= i < post.len() - 1 ==> post[i] == pre[i + shift]
    &&& post.len() > 0 ==> book_like(post.last(), b)
}

/// How the market state and the last-detection timestamp move during one
/// signal-generation pass over the given (already updated) window.
pub open spec fn signal_state_step(
    pre: AdverseSelectionStrategy,
    post: AdverseSelectionStrategy,
    trades: Seq<Trade>,
    books: Seq<OrderBook>,
    now: u64,
) -> bool {
    if detect_runs_of(trades, books, pre.position.size, pre.reference_price, pre.config) {
        &&& post.market_state == classify_of(imbalance_of(books), impact_of(trades), pre.config)
        &&& post.last_adverse_detection == if trigger_of(
            trades,
            books,
            pre.last_adverse_detection,
            pre.config,
            now,
        ) {
            Some(now)
        } else {
            pre.last_adverse_detection
        }
    } else {
        &&& post.market_state == pre.market_state
        &&& post.last_adverse_detection == pre.last_adverse_detection
    }
}

/// Everything one market-data event does: the matching window is advanced,
/// the signal of the updated window is returned, the market state and the
/// last-detection timestamp move as the generator dictates, and the rest of
/// the strategy is untouched.
pub open spec fn market_data_step(
    pre: AdverseSelectionStrategy,
    post: AdverseSelectionStrategy,
    data: MarketData,
    r: Option<StrategySignal>,
    now: u64,
) -> bool {
    &&& match data {
        MarketData::Trade(t) => {
            &&& post.recent_trades@ == trade_window_push(pre.recent_trades@, t)
            &&& post.recent_order_books == pre.recent_order_books
        },
        MarketData::OrderBook(b) => {
            &&& post.recent_trades == pre.recent_trades
            &&& book_window_push_like(
                pre.recent_order_books@,
                b,
                pre.config.window_size,
                post.recent_order_books@,
            )
        },
        MarketData::Ticker(_) => {
            &&& post.recent_trades == pre.recent_trades
            &&& post.recent_order_books == pre.recent_order_books
        },
    }
    &&& r == expected_signal_of(
        post.recent_trades@,
        post.recent_order_books@,
        pre.position.size,
        pre.reference_price,
        pre.last_adverse_detection,
        pre.config,
        now,
    )
    &&& signal_state_step(pre, post, post.recent_trades@, post.recent_order_books@, now)
    &&& post.config == pre.config
    &&& post.state == pre.state
    &&& post.position == pre.position
    &&& post.reference_price == pre.reference_price
}

impl AdverseSelectionStrategy {
    /// Detect adverse selection conditions at the given wall-clock time.
    /// The market state is always reclassified; the cooldown suppresses
    /// only the trigger, which — when it fires — restarts the cooldown.
    pub fn detect_adverse_selection_at(&mut self, now_ms: u64) -> (r: bool)
        ensures
            r == trigger_of(
                old(self).recent_trades@,
                old(self).recent_order_books@,
                old(self).last_adverse_detection,
                old(self).config,
                now_ms,
            ),
            final(self).market_state == classify_of(
                imbalance_of(old(self).recent_order_books@),
                impact_of(old(self).recent_trades@),
                old(self).config,
            ),
            final(self).last_adverse_detection == if r {
                Some(now_ms)
            } else {
                old(self).last_adverse_detection
            },
            final(self).config == old(self).config,
            final(self).state == old(self).state,
            final(self).recent_trades == old(self).recent_trades,
            final(self).recent_order_books == old(self).recent_order_books,
            final(self).position == old(self).position,
            final(self).reference_price == old(self).reference_price,
    {
        let imbalance: i64 = self.calculate_order_imbalance();
        let abnormal_size: bool = self.detect_abnormal_trade_size();
        let price_impact: u128 = self.calculate_price_impact();

        let imb_mag: u64 = if imbalance < 0 {
            (-imbalance) as u64
        } else {
            imbalance as u64
        };

        if imb_mag > self.config.imbalance_threshold {
            if imbalance > 0 {
                self.market_state = MarketState::BuyerInformed;
            } else {
                self.market_state = MarketState::SellerInformed;
            }
        } else if price_impact > 2 * (self.config.price_impact_threshold as u128) {
            self.market_state = MarketState::HighVolatility;
        } else {
            self.market_state = MarketState::Normal;
        }

        let in_cooldown: bool = match self.last_adverse_detection {
            Some(t) => now_ms >= t && (now_ms - t) / 1000 < self.config.cooldown_period,
            None => false,
        };

        let is_adverse = ((imb_mag > self.config.imbalance_threshold && price_impact > (
        self.config.price_impact_threshold as u128)) || (abnormal_size && price_impact > (
        self.config.price_impact_threshold as u128))) && !in_cooldown;

        if is_adverse {
            self.last_adverse_detection = Some(now_ms);
        }
        is_adverse
    }

    /// Detect adverse selection conditions at the current wall-clock time.
    /// The reclassified market state does not depend on the clock; the
    /// trigger does, so of it only this is promised: it fires only on
    /// eligible conditions, and it records a detection time when it does.
    pub fn detect_adverse_selection(&mut self) -> (r: bool)
        ensures
            final(self).market_state == classify_of(
                imbalance_of(old(self).recent_order_books@),
                impact_of(old(self).recent_trades@),
                old(self).config,
            ),
            r ==> eligible_of(
                imbalance_of(old(self).recent_order_books@),
                abnormal_size_of(old(self).recent_trades@, old(self).config.trade_size_threshold),
                impact_of(old(self).recent_trades@),
                old(self).config,
            ),
            r ==> final(self).last_adverse_detection is Some,
            !r ==> final(self).last_adverse_detection == old(self).last_adverse_detection,
            final(self).config == old(self).config,
            final(self).state == old(self).state,
            final(self).recent_trades == old(self).recent_trades,
            final(self).recent_order_books == old(self).recent_order_books,
            final(self).position == old(self).position,
            final(self).reference_price == old(self).reference_price,
    {
        let now_ms = now_epoch_millis();
        self.detect_adverse_selection_at(now_ms)
    }

    /// Update position based on an executed order: the signed size moves by
    /// the order quantity (saturating at the `i64` bounds) and the
    /// reference price follows `ref_after_exec`. A zero quantity changes
    /// nothing.
    pub fn update_position(&mut self, order: &Order)
        ensures
            final(self).position.size == size_after_exec(
                old(self).position.size,
                order.side,
                order.quantity,
            ),
            order.quantity == 0 ==> final(self).position == old(self).position
                && final(self).reference_price == old(self).reference_price,
            final(self).reference_price == ref_after_exec(
                old(self).position.size,
                old(self).reference_price,
                order.side,
                order.quantity,
                exec_price_of(*order),
            ),
            final(self).position.avg_price == old(self).position.avg_price,
            final(self).position.unrealized_pnl == old(self).position.unrealized_pnl,
            final(self).position.realized_pnl == old(self).position.realized_pnl,
            final(self).config == old(self).config,
            final(self).state == old(self).state,
            final(self).recent_trades == old(self).recent_trades,
            final(self).recent_order_books == old(self).recent_order_books,
            final(self).last_adverse_detection == old(self).last_adverse_detection,
            final(self).market_state == old(self).market_state,
    {
        let quantity: u32 = order.quantity;
        if quantity == 0 {
            return ;
        }
        let current_price: u64 = match &order.price {
            Some(p) => *p,
            None => 0,
        };
        let q64: i64 = quantity as i64;

        match order.side {
            Side::Buy => {
                let old_size: i64 = self.position.size;
                let new_size: i64 = match old_size.checked_add(q64) {
                    Some(v) => v,
                    None => i64::MAX,
                };
                self.position.size = new_size;
                if old_size < 0 {
                    if new_size >= 0 {
                        self.reference_price = Some(current_price);
                    }
                } else {
                    let old_w: u64 = old_size as u64;
                    let new_w: u64 = new_size as u64;
                    let new_ref: u64 = match self.reference_price {
                        Some(rp) => weighted_ref_exec(rp, old_w, current_price, quantity, new_w),
                        None => current_price,
                    };
                    self.reference_price = Some(new_ref);
                }
            },
            Side::Sell => {
                let old_size: i64 = self.position.size;
                let new_size: i64 = match old_size.checked_sub(q64) {
                    Some(v) => v,
                    None => i64::MIN,
                };
                self.position.size = new_size;
                if old_size > 0 {
                    if new_size <= 0 {
                        self.reference_price = Some(current_price);
                    }
                } else {
                    let old_w: u64 = (-(old_size as i128)) as u64;
                    let new_w: u64 = (-(new_size as i128)) as u64;
                    let new_ref: u64 = match self.reference_price {
                        Some(rp) => weighted_ref_exec(rp, old_w, current_price, quantity, new_w),
                        None => current_price,
                    };
                    self.reference_price = Some(new_ref);
                }
            },
        }
    }

    /// Generate a trading signal at the given wall-clock time, mutating the
    /// market state and cooldown bookkeeping exactly as the detector does
    /// when it is reached.
    pub fn generate_signal_at(&mut self, now_ms: u64) -> (r: Option<StrategySignal>)
        ensures
            r == expected_signal_of(
                old(self).recent_trades@,
                old(self).recent_order_books@,
                old(self).position.size,
                old(self).reference_price,
                old(self).last_adverse_detection,
                old(self).config,
                now_ms,
            ),
            signal_state_step(
                *old(self),
                *final(self),
                old(self).recent_trades@,
                old(self).recent_order_books@,
                now_ms,
            ),
            final(self).config == old(self).config,
            final(self).state == old(self).state,
            final(self).recent_trades == old(self).recent_trades,
            final(self).recent_order_books == old(self).recent_order_books,
            final(self).position == old(self).position,
            final(self).reference_price == old(self).reference_price,
    {
        let n_trades = self.recent_trades.len();
        if n_trades == 0 || self.recent_order_books.len() == 0 {
            return None;
        }

        let current_price: u64 = self.recent_trades[n_trades - 1].price;

        if let Some(rp) = self.reference_price {
            if rp != 0 {
                let pos = self.position.size;
                if pos > 0 {
                    if ratio_reached(rp, current_price, rp, self.config.stop_loss_pct) {
                        return Some(
                            StrategySignal::Sell {
                                price: current_price,
                                size: pos as u64,
                                order_type: OrderType::Market,
                                reason: SignalReason::StopLoss,
                            },
                        );
                    } else if ratio_reached(current_price, rp, rp, self.config.take_profit_pct) {
                        return Some(
                            StrategySignal::Sell {
                                price: current_price,
                                size: pos as u64,
                                order_type: OrderType::Market,
                                reason: SignalReason::TakeProfit,
                            },
                        );
                    }
                } else if pos < 0 {
                    let mag: u64 = (-(pos as i128)) as u64;
                    if ratio_reached(current_price, rp, rp, self.config.stop_loss_pct) {
                        return Some(
                            StrategySignal::Buy {
                                price: current_price,
                                size: mag,
                                order_type: OrderType::Market,
                                reason: SignalReason::StopLoss,
                            },
                        );
                    } else if ratio_reached(rp, current_price, rp, self.config.take_profit_pct) {
                        return Some(
                            StrategySignal::Buy {
                                price: current_price,
                                size: mag,
                                order_type: OrderType::Market,
                                reason: SignalReason::TakeProfit,
                            },
                        );
                    }
                }
            }
        }

        let is_adverse = self.detect_adverse_selection_at(now_ms);
        if is_adverse {
            let imbalance = self.calculate_order_imbalance();
            if imbalance > 0 {
                if self.position.size > 0 {
                    return Some(
                        StrategySignal::Sell {
                            price: current_price,
                            size: self.position.size as u64,
                            order_type: OrderType::Market,
                            reason: SignalReason::AdverseSelectionProtection,
                        },
                    );
                } else if self.position.size == 0 {
                    return Some(
                        StrategySignal::Buy {
                            price: current_price,
                            size: self.config.max_position_size,
                            order_type: OrderType::Limit,
                            reason: SignalReason::FollowingInformedFlow,
                        },
                    );
                }
            } else {
                if self.position.size < 0 {
                    let mag: u64 = (-(self.position.size as i128)) as u64;
                    return Some(
                        StrategySignal::Buy {
                            price: current_price,
                            size: mag,
                            order_type: OrderType::Market,
                            reason: SignalReason::AdverseSelectionProtection,
                        },
                    );
                } else if self.position.size == 0 {
                    return Some(
                        StrategySignal::Sell {
                            price: current_price,
                            size: self.config.max_position_size,
                            order_type: OrderType::Limit,
                            reason: SignalReason::FollowingInformedFlow,
                        },
                    );
                }
            }
        }

        None
    }

    /// Feed one market-data event at the given wall-clock time: the
    /// matching window is advanced and a signal generated from the updated
    /// window.
    pub fn on_market_data_at(&mut self, data: &MarketData, now_ms: u64) -> (r: Option<
        StrategySignal,
    >)
        ensures
            market_data_step(*old(self), *final(self), *data, r, now_ms),
    {
        match data {
            MarketData::Trade(trade) => {
                self.recent_trades.push_back(*trade);
                if self.recent_trades.len() > TRADE_WINDOW {
                    self.recent_trades.pop_front();
                }
            },
            MarketData::OrderBook(order_book) => {
                self.recent_order_books.push_back(order_book.duplicate());
                if self.recent_order_books.len() > self.config.window_size {
                    self.recent_order_books.pop_front();
                }
            },
            MarketData::Ticker(_) => {},
        }

        self.generate_signal_at(now_ms)
    }
}

/// Whether `(a - b) * SCALE >= ratio * base`, decided without leaving the
/// integers; false whenever `a < b`.
fn ratio_reached(a: u64, b: u64, base: u64, ratio: u64) -> (r: bool)
    ensures
        r == ((a - b) * (SCALE as int) >= (ratio as int) * (base as int)),
{
    if a < b {
        proof {
            assert((a - b) * (SCALE as int) < 0) by (nonlinear_arith)
                requires a < b, SCALE >= 1u64,
            ;
            assert((ratio as int) * (base as int) >= 0) by (nonlinear_arith)
                requires ratio >= 0, base >= 0,
            ;
        }
        false
    } else {
        proof {
            assert((a - b) * (SCALE as int) <= 0xffff_ffff_ffff_ffffint * 0x100000int)
                by (nonlinear_arith)
                requires 0 <= a - b <= 0xffff_ffff_ffff_ffffint, SCALE <= 0x100000u64,
            ;
            assert((ratio as int) * (base as int) <= 0xffff_ffff_ffff_ffffint
                * 0xffff_ffff_ffff_ffffint) by (nonlinear_arith)
                requires ratio <= u64::MAX, base <= u64::MAX,
            ;
        }
        ((a - b) as u128) * (SCALE as u128) >= (ratio as u128) * (base as u128)
    }
}

/// The volume-weighted reference price of a widened position, topping out
/// at `u64::MAX`.
fn weighted_ref_exec(rp: u64, old_w: u64, price: u64, qty: u32, new_w: u64) -> (r: u64)
    requires
        new_w > 0,
        old_w <= 0x8000_0000_0000_0000u64,
    ensures
        r == clamp_u64(((rp as int) * (old_w as int) + (price as int) * (qty as int)) / (new_w as int)),
{
    proof {
        assert((rp as int) * (old_w as int) <= 0xffff_ffff_ffff_ffffint
            * 0x8000_0000_0000_0000int) by (nonlinear_arith)
            requires rp <= u64::MAX, old_w <= 0x8000_0000_0000_0000u64,
        ;
        assert((price as int) * (qty as int) <= 0xffff_ffff_ffff_ffffint * 0xffff_ffffint)
            by (nonlinear_arith)
            requires price <= u64::MAX, qty <= u32::MAX,
        ;
    }
    let numer: u128 = (rp as u128) * (old_w as u128) + (price as u128) * (qty as u128);
    let q: u128 = numer / (new_w as u128);
    if q > (u64::MAX as u128) {
        u64::MAX
    } else {
        q as u64
    }
}

/// How many child orders a split of the parent produces: derived from the
/// market state and the parent's side, clamped to at least one.
pub open spec fn split_count_of(cfg: AdverseSelectionConfig, state: MarketState, side: Side)
    -> int {
    let raw = match state {
        MarketState::Normal => cfg.max_splits / 2,
        MarketState::BuyerInformed => if side == Side::Buy {
            cfg.max_splits as usize
        } else {
            cfg.max_splits / 3
        },
        MarketState::SellerInformed => if side == Side::Sell {
            cfg.max_splits as usize
        } else {
            cfg.max_splits / 3
        },
        MarketState::HighVolatility => cfg.max_splits as usize,
    };
    if raw == 0 {
        1
    } else {
        raw as int
    }
}

/// The base schedule interval of a split, in milliseconds: the mid interval
/// in a normal market, the longest when the parent trades with the informed
/// side, the shortest against it or under high volatility.
pub open spec fn split_interval_of(cfg: AdverseSelectionConfig, state: MarketState, side: Side)
    -> int {
    match state {
        MarketState::Normal => ((cfg.min_split_interval_ms as int)
            + (cfg.max_split_interval_ms as int)) / 2,
        MarketState::BuyerInformed => if side == Side::Buy {
            cfg.max_split_interval_ms as int
        } else {
            cfg.min_split_interval_ms as int
        },
        MarketState::SellerInformed => if side == Side::Sell {
            cfg.max_split_interval_ms as int
        } else {
            cfg.min_split_interval_ms as int
        },
        MarketState::HighVolatility => cfg.min_split_interval_ms as int,
    }
}

/// The scheduled time of child `k`: `now` plus a base offset growing with
/// the index (`base * (1 + k/5)`), shifted by a jitter draw `jv` (in
/// millionths of `base`, drawn from `[0, 400000]`, centered by subtracting
/// a fifth of `base`), topping out at `u64::MAX`.
pub open spec fn split_sched_of(now: u64, base: int, k: int, jv: int) -> int {
    clamp_u64(now + base + (base * k) / 5 - base / 5 + (base * jv) / (SCALE as int))
}

impl AdverseSelectionStrategy {
    /// Splits the parent order at the given wall-clock time: the number of
    /// children and their schedule follow the market state and the parent's
    /// side, every child clones the parent's descriptor under a fresh
    /// unique identifier, and the quantities sum exactly to the parent's
    /// quantity. The size variation is capped at 1.0 so quantities stay
    /// non-negative.
    pub fn split_at(&self, parent_order: &ParentOrder, now_ms: u64) -> (r: Vec<ChildOrder>)
        ensures
            r@.len() == split_count_of(
                self.config,
                self.market_state,
                parent_order.order_common.side,
            ),
            sum_child_qty(r@) == parent_order.order_common.quantity,
            r@.len() >= 1,
            forall|k: int| #![trigger r@[k]] 0 <= k < r@.len() ==> {
                &&& parent_order.order_common.same_descriptor(r@[k].order_common)
                &&& r@[k].order_common.id@ == child_id(parent_order.order_common.id@, k as nat)
                &&& r@[k].order_common.quantity <= parent_order.order_common.quantity
                &&& r@[k].strategy_id@ == parent_order.strategy_id@
                &&& r@[k].parent_id@ == parent_order.order_common.id@
                &&& r@[k].insert_at is Some
                &&& exists|jv: int|
                    0 <= jv <= 400_000 && r@[k].insert_at == Some(
                        split_sched_of(
                            now_ms,
                            split_interval_of(
                                self.config,
                                self.market_state,
                                parent_order.order_common.side,
                            ),
                            k,
                            jv,
                        ) as u64,
                    )
            },
            forall|k1: int, k2: int|
                0 <= k1 < r@.len() && 0 <= k2 < r@.len() && k1 != k2
                    ==> r@[k1].order_common.id@ != r@[k2].order_common.id@,
    {
        let mut child_orders: Vec<ChildOrder> = Vec::new();

        let (raw_splits, base_interval): (usize, u64) = match self.market_state {
            MarketState::Normal => {
                let mid: u64 = (((self.config.min_split_interval_ms as u128)
                    + (self.config.max_split_interval_ms as u128)) / 2) as u64;
                (self.config.max_splits / 2, mid)
            },
            MarketState::BuyerInformed => {
                if parent_order.order_common.side == Side::Buy {
                    (self.config.max_splits, self.config.max_split_interval_ms)
                } else {
                    (self.config.max_splits / 3, self.config.min_split_interval_ms)
                }
            },
            MarketState::SellerInformed => {
                if parent_order.order_common.side == Side::Sell {
                    (self.config.max_splits, self.config.max_split_interval_ms)
                } else {
                    (self.config.max_splits / 3, self.config.min_split_interval_ms)
                }
            },
            MarketState::HighVolatility => {
                (self.config.max_splits, self.config.min_split_interval_ms)
            },
        };
        let num_splits: usize = if raw_splits == 0 {
            1
        } else {
            raw_splits
        };

        let base_quantity64: u64 = (parent_order.order_common.quantity as u64) / (num_splits
            as u64);
        proof {
            assert(base_quantity64 <= parent_order.order_common.quantity) by {
                vstd::arithmetic::div_mod::lemma_div_basics_5(
                    parent_order.order_common.quantity as int,
                    num_splits as int,
                );
            }
        }
        let base_quantity: u32 = base_quantity64 as u32;
        let mut remaining_quantity: u32 = parent_order.order_common.quantity;

        let variation: u64 = if self.config.size_variation_pct > SCALE {
            SCALE
        } else {
            self.config.size_variation_pct
        };

        let ghost parent_qty = parent_order.order_common.quantity;
        let mut i: usize = 0;
        while i < num_splits
            invariant
                0 <= i <= num_splits,
                num_splits == split_count_of(
                    self.config,
                    self.market_state,
                    parent_order.order_common.side,
                ),
                base_interval == split_interval_of(
                    self.config,
                    self.market_state,
                    parent_order.order_common.side,
                ),
                variation <= SCALE,
                base_quantity <= parent_qty,
                child_orders@.len() == i,
                remaining_quantity + sum_child_qty(child_orders@) == parent_qty,
                remaining_quantity <= parent_qty,
                i == num_splits ==> remaining_quantity == 0,
                parent_qty == parent_order.order_common.quantity,
                forall|k: int| #![trigger child_orders@[k]] 0 <= k < i ==> {
                    &&& parent_order.order_common.same_descriptor(child_orders@[k].order_common)
                    &&& child_orders@[k].order_common.id@ == child_id(
                        parent_order.order_common.id@,
                        k as nat,
                    )
                    &&& child_orders@[k].order_common.quantity <= parent_qty
                    &&& child_orders@[k].strategy_id@ == parent_order.strategy_id@
                    &&& child_orders@[k].parent_id@ == parent_order.order_common.id@
                    &&& child_orders@[k].insert_at is Some
                    &&& exists|jv: int|
                        0 <= jv <= 400_000 && child_orders@[k].insert_at == Some(
                            split_sched_of(
                                now_ms,
                                split_interval_of(
                                    self.config,
                                    self.market_state,
                                    parent_order.order_common.side,
                                ),
                                k,
                                jv,
                            ) as u64,
                        )
                },
            decreases num_splits - i,
        {
            let quantity: u32 = if i < num_splits - 1 {
                let jq = rand_upto(2 * variation);
                let factor: u64 = SCALE - variation + jq;
                proof {
                    assert((base_quantity as u64) * factor <= 0xffff_ffffu64 * 2_000_000)
                        by (nonlinear_arith)
                        requires base_quantity <= u32::MAX, factor <= 2_000_000u64,
                    ;
                }
                let jittered64: u64 = ((base_quantity as u64) * factor) / SCALE;
                let jittered: u32 = if jittered64 > (u32::MAX as u64) {
                    u32::MAX
                } else {
                    jittered64 as u32
                };
                let floored: u32 = if jittered < 1 {
                    1
                } else {
                    jittered
                };
                if floored < remaining_quantity {
                    floored
                } else {
                    remaining_quantity
                }
            } else {
                remaining_quantity
            };

            remaining_quantity = remaining_quantity - quantity;

            let jv = rand_upto(400_000);
            proof {
                assert((base_interval as u128) * (i as u128) <= 0xffff_ffff_ffff_ffffu128
                    * 0xffff_ffff_ffff_ffffu128) by (nonlinear_arith)
                    requires base_interval <= u64::MAX, i <= u64::MAX,
                ;
                assert((base_interval as u128) * (jv as u128) <= 0xffff_ffff_ffff_ffffu128
                    * 400_000u128) by (nonlinear_arith)
                    requires base_interval <= u64::MAX, jv <= 400_000u64,
                ;
                assert(((base_interval as u128) * (i as u128)) / 5 <= (0xffff_ffff_ffff_ffffu128
                    * 0xffff_ffff_ffff_ffffu128) / 5) by {
                    vstd::arithmetic::div_mod::lemma_div_is_ordered(
                        (base_interval as u128) * (i as u128) as int,
                        0xffff_ffff_ffff_ffffu128 * 0xffff_ffff_ffff_ffffu128 as int,
                        5,
                    );
                }
                assert((base_interval / 5) <= base_interval);
            }
            let step: u128 = ((base_interval as u128) * (i as u128)) / 5;
            let bump: u128 = ((base_interval as u128) * (jv as u128)) / (SCALE as u128);
            let t: u128 = (now_ms as u128) + (base_interval as u128) + step - ((base_interval
                / 5) as u128) + bump;
            let insert_at: u64 = if t > (u64::MAX as u128) {
                u64::MAX
            } else {
                t as u64
            };
            proof {
                assert(insert_at == split_sched_of(
                    now_ms,
                    split_interval_of(
                        self.config,
                        self.market_state,
                        parent_order.order_common.side,
                    ),
                    i as int,
                    jv as int,
                ));
            }

            let id = make_child_id(&parent_order.order_common.id, i as u64);
            let order = parent_order.order_common.with_id_and_quantity(id, quantity);

            let child_order = ChildOrder {
                order_common: order,
                strategy_id: parent_order.strategy_id.clone(),
                parent_id: parent_order.order_common.id.clone(),
                insert_at: Some(insert_at),
            };

            proof {
                assert(child_orders@.push(child_order).drop_last() =~= child_orders@);
            }
            child_orders.push(child_order);

            proof {
                assert(0 <= jv as int <= 400_000 && child_orders@[i as int].insert_at == Some(
                    split_sched_of(
                        now_ms,
                        split_interval_of(
                            self.config,
                            self.market_state,
                            parent_order.order_common.side,
                        ),
                        i as int,
                        jv as int,
                    ) as u64,
                ));
            }

            i = i + 1;
        }

        proof {
            assert forall|k1: int, k2: int|
                0 <= k1 < child_orders@.len() && 0 <= k2 < child_orders@.len() && k1 != k2
                    implies child_orders@[k1].order_common.id@
                    != child_orders@[k2].order_common.id@ by {
                lemma_child_id_distinct(parent_order.order_common.id@, k1 as nat, k2 as nat);
            }
        }

        child_orders
    }
}

impl Strategy for AdverseSelectionStrategy {
    fn name(&self) -> (r: &str)
        ensures
            r@ == "Adverse Selection Strategy"@,
    {
        "Adverse Selection Strategy"
    }

    fn description(&self) -> (r: &str)
        ensures
            r@
                == "A strategy that monitors and adjusts order executions to avoid being exploited by traders with superior information"@,
    {
        "A strategy that monitors and adjusts order executions to avoid being exploited by traders with superior information"
    }

    fn state(&self) -> (r: &StrategyState)
        ensures
            r == self.state,
    {
        &self.state
    }

    fn set_state(&mut self, state: StrategyState)
        ensures
            final(self).state == state,
            final(self).config == old(self).config,
            final(self).recent_trades == old(self).recent_trades,
            final(self).recent_order_books == old(self).recent_order_books,
            final(self).last_adverse_detection == old(self).last_adverse_detection,
            final(self).position == old(self).position,
            final(self).reference_price == old(self).reference_price,
            final(self).market_state == old(self).market_state,
    {
        self.state = state;
    }

    /// Feeds one market-data event at the current wall-clock time; every
    /// promise of `on_market_data_at` holds for whatever the clock read.
    fn on_market_data(&mut self, data: &MarketData) -> (r: Option<StrategySignal>)
        ensures
            exists|now: u64| market_data_step(*old(self), *final(self), *data, r, now),
    {
        let now_ms = now_epoch_millis();
        self.on_market_data_at(data, now_ms)
    }

    fn on_order_executed(&mut self, order: &Order)
        ensures
            final(self).position.size == size_after_exec(
                old(self).position.size,
                order.side,
                order.quantity,
            ),
            order.quantity == 0 ==> final(self).position == old(self).position
                && final(self).reference_price == old(self).reference_price,
            final(self).reference_price == ref_after_exec(
                old(self).position.size,
                old(self).reference_price,
                order.side,
                order.quantity,
                exec_price_of(*order),
            ),
            final(self).config == old(self).config,
            final(self).state == old(self).state,
            final(self).recent_trades == old(self).recent_trades,
            final(self).recent_order_books == old(self).recent_order_books,
            final(self).last_adverse_detection == old(self).last_adverse_detection,
            final(self).market_state == old(self).market_state,
    {
        self.update_position(order);
    }

    fn on_order_cancelled(&mut self, order: &Order)
        ensures
            *final(self) == *old(self),
    {
    }

    fn reset(&mut self)
        ensures
            final(self).config == old(self).config,
            final(self).state == StrategyState::Idle,
            final(self).recent_trades@ == Seq::<Trade>::empty(),
            final(self).recent_order_books@ == Seq::<OrderBook>::empty(),
            final(self).last_adverse_detection is None,
            final(self).position == (Position {
                size: 0i64,
                avg_price: 0u64,
                unrealized_pnl: 0i64,
                realized_pnl: 0i64,
            }),
            final(self).reference_price is None,
            final(self).market_state == MarketState::Normal,
    {
        self.state = StrategyState::Idle;
        self.recent_trades.clear();
        self.recent_order_books.clear();
        self.last_adverse_detection = None;
        self.position = Position::default();
        self.reference_price = None;
        self.market_state = MarketState::Normal;
    }
}

impl OrderSplitStrategy for AdverseSelectionStrategy {
    /// Splits at the current wall-clock time. The count, quantity-sum,
    /// descriptor and identifier guarantees hold whatever the clock reads.
    fn split(&self, parent_order: &ParentOrder) -> (r: Vec<ChildOrder>)
        ensures
            r@.len() == split_count_of(
                self.config,
                self.market_state,
                parent_order.order_common.side,
            ),
            sum_child_qty(r@) == parent_order.order_common.quantity,
            r@.len() >= 1,
            forall|k: int| #![trigger r@[k]] 0 <= k < r@.len() ==> {
                &&& parent_order.order_common.same_descriptor(r@[k].order_common)
                &&& r@[k].order_common.id@ == child_id(parent_order.order_common.id@, k as nat)
                &&& r@[k].strategy_id@ == parent_order.strategy_id@
                &&& r@[k].parent_id@ == parent_order.order_common.id@
                &&& r@[k].insert_at is Some
            },
            forall|k1: int, k2: int|
                0 <= k1 < r@.len() && 0 <= k2 < r@.len() && k1 != k2
                    ==> r@[k1].order_common.id@ != r@[k2].order_common.id@,
    {
        let now_ms = now_epoch_millis();
        self.split_at(parent_order, now_ms)
    }
}

/// When bid volume strictly increases and ask volume strictly decreases
/// between the two most recent snapshots, the order-flow imbalance is
/// strictly positive — in fact it reaches the full scale, because the whole
/// observed change is buy-side pressure.
pub proof fn lemma_one_sided_pressure_positive_imbalance(books: Seq<OrderBook>)
    requires
        books.len() >= 2,
        level_size_sum(books[books.len() - 1].bids@) > level_size_sum(
            books[books.len() - 2].bids@,
        ),
        level_size_sum(books[books.len() - 1].asks@) < level_size_sum(
            books[books.len() - 2].asks@,
        ),
    ensures
        imbalance_of(books) == SCALE,
        imbalance_of(books) > 0,
{
    let cur = books[books.len() - 1];
    let prev = books[books.len() - 2];
    let db = level_size_sum(cur.bids@) - level_size_sum(prev.bids@);
    let da = level_size_sum(cur.asks@) - level_size_sum(prev.asks@);
    let total = abs(db) + abs(da);
    let num = db - da;
    assert(num == total);
    assert(div_trunc(num * (SCALE as int), total as int) == SCALE as int) by {
        assert(num * (SCALE as int) == (total as int) * (SCALE as int));
        vstd::arithmetic::div_mod::lemma_div_multiples_vanish(SCALE as int, total as int);
        assert((total as int) * (SCALE as int) == (SCALE as int) * (total as int))
            by (nonlinear_arith);
    }
}

/// The position ledger round trip from flat: a buy of `q1` at `p1` opens a
/// long of `q1` with reference price `p1`; a smaller sell of `q2` reduces
/// the long to `q1 - q2` and keeps the reference price; a further sell of
/// `q3` that exceeds the remainder flips the position short and resets the
/// reference price to that execution's price.
pub proof fn lemma_position_round_trip(q1: u32, q2: u32, q3: u32, p1: u64, p2: u64, p3: u64)
    requires
        0 < q2 < q1,
        q1 - q2 < q3,
    ensures
        size_after_exec(0i64, Side::Buy, q1) == q1,
        ref_after_exec(0i64, None, Side::Buy, q1, p1) == Some(p1),
        size_after_exec(q1 as i64, Side::Sell, q2) == q1 - q2,
        size_after_exec(q1 as i64, Side::Sell, q2) > 0,
        ref_after_exec(q1 as i64, Some(p1), Side::Sell, q2, p2) == Some(p1),
        size_after_exec((q1 - q2) as i64, Side::Sell, q3) == q1 - q2 - q3,
        size_after_exec((q1 - q2) as i64, Side::Sell, q3) < 0,
        ref_after_exec((q1 - q2) as i64, Some(p1), Side::Sell, q3, p3) == Some(p3),
{
    assert(weighted_ref_of(None, 0int, p1, q1, q1 as int) == p1 as int);
}

/// Once an adverse-selection trigger has fired at `t0`, no second trigger
/// fires within the cooldown period, whatever the window then shows; the
/// market state is still reclassified, because `classify_of` does not
/// depend on the trigger bookkeeping at all.
pub proof fn lemma_cooldown_suppresses_trigger(
    trades: Seq<Trade>,
    books: Seq<OrderBook>,
    cfg: AdverseSelectionConfig,
    t0: u64,
    now: u64,
)
    requires
        now >= t0,
        (now - t0) / 1000 < cfg.cooldown_period,
    ensures
        !trigger_of(trades, books, Some(t0), cfg, now),
{
    assert(cooldown_active_at(Some(t0), now, cfg.cooldown_period));
}

} // verus!