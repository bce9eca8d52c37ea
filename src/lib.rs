//! A fee-aware buy/sell decision engine for a single asset.
//!
//! Prices are whole numbers of a smallest price unit (a tick); fees, margins and
//! discounts are fractions written in parts per million.
pub mod feed;
pub mod history;
pub mod signal;
pub mod tracker;
