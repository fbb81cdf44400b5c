//! Spot-price derivation for decentralized-exchange trade streams.
//!
//! A trade has two legs, each carrying a raw integer amount and a currency
//! descriptor. Prices are computed exactly, as rationals scaled by powers of
//! ten, either directly against a configured stable asset or bridged through
//! a running reference-asset price carried across trades.

pub mod model;
pub mod rational;
pub mod resolver;
pub mod stream;
