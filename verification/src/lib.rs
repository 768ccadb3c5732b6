//! Settlement engine for a timed, last-buyer-wins key game.
//!
//! Participants buy numbered keys at a price that rises linearly with the
//! number already sold. Every purchase extends a countdown timer and feeds
//! three value pools (winner prize, proportional dividends, carry-over for
//! the next round). Whoever buys last before the timer lapses wins the prize
//! pool. This crate holds the verified core: the bonding-curve pricing
//! function, the fee/split waterfall, the round lifecycle state machine, the
//! claim protocol, and the cross-round carry-over protocol. Storage, value
//! transfer, authorization and clock reads are the host's concern; the engine
//! works on plain values handed in by the host.

pub mod constants;
pub mod engine;
pub mod errors;
pub mod ledger;
pub mod math;
pub mod state;
