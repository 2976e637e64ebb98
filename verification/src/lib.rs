//! Arbitrage decision engine for two automated-market-maker venues.
//!
//! The library covers the verified core: decoding self-describing binary
//! records from venue responses, deriving venue snapshots, the closed-form
//! optimizer that picks the profit-maximizing trade size and direction, and
//! the pure decision logic of the execution orchestrator. All amounts are
//! fixed-point integers in the smallest unit of the asset (8 decimal places).
//! Remote transport, identity loading and notifications are outside the
//! library and consume it through plain values.

use vstd::prelude::*;

pub mod amm;
pub mod approve;
pub mod config;
pub mod decode;
pub mod engine;
pub mod ics;
pub mod kong;
pub mod math;
pub mod swap;

verus! {

} // verus!
