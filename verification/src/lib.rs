//! A bonding-curve fundraising escrow.
//!
//! A project sells transient "proxy" claim tokens for a stable-value asset at
//! a price fixed by a pricing curve, accumulates the proceeds, and later lets
//! holders convert their claims into the final project token once funding and
//! timing conditions are met.  Every state mutation and every price is
//! specified and proved here; the host-facing shell (account ids, wire
//! formats, cross-contract calls) lives outside the library and drives it
//! through plain values.

pub mod actions;
pub mod curves;
pub mod errors;
pub mod escrow;
pub mod ledger;
pub mod owner;
pub mod proxy_token;
pub mod token_receiver;
pub mod utils;
pub mod validates;
pub mod views;
