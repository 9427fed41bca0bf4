//! Incremental technical indicators over a stream of ticks.
//!
//! Every indicator consumes one value at a time and answers either with an
//! output or with "not ready". The arithmetic is abstracted behind
//! [`scalar::Scalar`], so the recurrences are proved once for every number
//! type that supplies the five operations and two comparisons.
//!
//! * [`model`] says, as functions of the whole history of ticks, what each
//!   indicator answers, and proves the warm-up lengths.
//! * [`laws`] relates the indicators to each other and to the arithmetic mean.
//! * [`sma`], [`ema`], [`rsi`] and [`macd`] hold the four indicators, each an
//!   implementation of [`eval::Eval`] proved against its model.
//! * [`indicator`] is the closed union of the four, and [`handle`] the table
//!   that owns indicators on behalf of callers who only hold a handle.

pub mod ema;
pub mod eval;
pub mod handle;
pub mod indicator;
pub mod laws;
pub mod macd;
pub mod model;
pub mod result;
pub mod rsi;
pub mod scalar;
pub mod sma;

pub use ema::ExponentialMovingAverage;
pub use eval::Eval;
pub use handle::{
    create_exponential_moving_average, create_moving_average_convergence_divergence,
    create_relative_strength_index, create_simple_moving_average, destroy_indicator,
    eval_indicator, IndicatorTable, NULL_HANDLE,
};
pub use indicator::Indicator;
pub use macd::MovingAverageConvergenceDivergence;
pub use result::EvalResult;
pub use rsi::RelativeStrengthIndex;
pub use scalar::Scalar;
pub use sma::SimpleMovingAverage;
