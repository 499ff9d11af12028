//! Live top-of-book tracking for a paired binary-outcome market.
//!
//! The library holds the verified core of an orderbook data layer: it
//! interprets inbound feed frames, maintains the rolling top-of-book state of
//! the two complementary instruments, derives implied opposite-side quotes,
//! and decides when a change signal is due.  The surrounding program owns the
//! transport and the scheduling and calls into this crate for every decision.

pub mod book;
pub mod chars;
pub mod feed;
pub mod market;
pub mod pricing;
pub mod state;
pub mod supervisor;

use vstd::prelude::*;

use crate::state::ConfigView;

verus! {

/// Signal broadcast to subscribers when the shared book state has changed.
/// It carries no payload: a consumer re-reads the latest snapshot instead of
/// replaying deltas.
#[derive(Clone, Copy, Debug)]
pub struct StateUpdated;

/// Identifies the two correlated instruments whose frames the layer keeps.
pub struct OrderbookConfig {
    pub token_up: String,
    pub token_down: String,
}

impl View for OrderbookConfig {
    type V = ConfigView;

    open spec fn view(&self) -> ConfigView {
        ConfigView { token_up: self.token_up@, token_down: self.token_down@ }
    }
}

impl OrderbookConfig {
    pub fn new(token_up: String, token_down: String) -> (c: OrderbookConfig)
        ensures
            c@.token_up == token_up@,
            c@.token_down == token_down@,
    {
        OrderbookConfig { token_up, token_down }
    }
}

} // verus!
