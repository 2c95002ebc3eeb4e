//! A sliding-window mean-reversion signal.
//!
//! Prices are fixed-point integers in whatever unit the caller picks (cents,
//! ticks). The window mean is kept as an exact fraction, so every decision is
//! the exact answer to "how far is the price from the mean of the window".
pub mod laws;
pub mod mean;
pub mod strategy;

pub use mean::Mean;
pub use strategy::{ConfigError, Decision, MeanReversion};
