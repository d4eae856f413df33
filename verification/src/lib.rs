//! Evaluation of arbitrage opportunities between two automated market makers.
//!
//! All amounts are integers in a token's smallest unit. The evaluator compares
//! two quotes for the same trade, names the venue to buy from and the venue to
//! sell into, subtracts a fixed cost and applies a minimum-profit threshold.

pub mod address;
pub mod amount;
pub mod arbitrage;
pub mod config;
pub mod record;
pub mod units;
