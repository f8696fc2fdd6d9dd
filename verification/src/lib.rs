//! Execution-strategy engine for financial orders.
//!
//! The crate receives a large "parent" order together with market data and
//! decides whether current conditions indicate informed (adverse) trading
//! flow, what position-management action to take, and how to decompose the
//! parent order into a schedule of smaller child orders.
//!
//! All formerly-decimal quantities are held as fixed-point integers: pure
//! ratios (thresholds, percentages) are in millionths (see [`numeric::SCALE`]),
//! prices are integer ticks and sizes integer units in caller-chosen scales.

pub mod clients;
pub mod config;
pub mod decimal;
pub mod models;
pub mod numeric;
pub mod strategies;
mod sys;

pub use models::orders::{CFD, Validate};
pub use models::{ChildOrder, ParentOrder};

