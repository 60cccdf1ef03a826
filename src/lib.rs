//! Accounting core of a leveraged-trading clearing system: order matching,
//! margin calculation and profit-and-loss settlement, all in checked
//! fixed-point arithmetic.
pub mod error;
pub mod math;
pub mod matching;
pub mod margin_calculation;
pub mod pnl;
