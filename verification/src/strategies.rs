//! Order-splitting strategies and the adverse-selection engine.

pub mod adverse_selection;
pub mod adverse_selection_impl;
pub mod common;
pub mod twap;
pub mod vwap;

pub use common::OrderSplitStrategy;
