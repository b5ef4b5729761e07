//! Monte Carlo evaluation of a pair-trading strategy over an endlessly
//! replayed price history, in fixed-point arithmetic.
pub mod fixed;
pub mod pair_info;
pub mod pair_series;
pub mod price_stream;
pub mod trade_strategy;
pub mod agent;
pub mod sampling;
pub mod stats;
