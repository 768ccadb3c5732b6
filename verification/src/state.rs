//! The data model: participant identities, the admin-owned configuration,
//! the per-round ledger record and the per-participant record.
//!
//! Identities are opaque 256-bit values held as four plain words; the
//! engine only ever compares them for equality. The all-zero identity is a
//! reserved sentinel meaning "nobody" (no last buyer yet, no fee wallet).

use vstd::prelude::*;

verus! {

/// An opaque 256-bit account identity, as four little-endian 64-bit words.
#[derive(Clone, Copy, Debug, PartialEq, Eq, Structural)]
pub struct AccountId {
    pub w0: u64,
    pub w1: u64,
    pub w2: u64,
    pub w3: u64,
}

impl AccountId {
    /// The reserved all-zero identity: "nobody".
    pub open spec fn spec_is_unset(self) -> bool {
        self.w0 == 0 && self.w1 == 0 && self.w2 == 0 && self.w3 == 0
    }

    /// The all-zero identity value.
    pub fn unset() -> (r: AccountId)
        ensures
            r == (AccountId { w0: 0, w1: 0, w2: 0, w3: 0 }),
            r.spec_is_unset(),
    {
        AccountId { w0: 0, w1: 0, w2: 0, w3: 0 }
    }

    /// Whether this is the reserved all-zero identity.
    pub fn is_unset(&self) -> (r: bool)
        ensures
            r == self.spec_is_unset(),
    {
        self.w0 == 0 && self.w1 == 0 && self.w2 == 0 && self.w3 == 0
    }

    /// An identity from a single word; convenient for hosts and tests that
    /// index participants by small numbers.
    pub fn from_word(w: u64) -> (r: AccountId)
        ensures
            r == (AccountId { w0: w, w1: 0, w2: 0, w3: 0 }),
    {
        AccountId { w0: w, w1: 0, w2: 0, w3: 0 }
    }
}

/// Admin-owned economic parameters, validated on every write and copied
/// immutably into each round when the round starts.
#[derive(Clone, Copy, Debug)]
pub struct GlobalConfig {
    /// Admin authority: only this identity can update the configuration or
    /// start the first round.
    pub admin: AccountId,
    /// Base price per key in lamports.
    pub base_price_lamports: u64,
    /// Price increment per key already sold.
    pub price_increment_lamports: u64,
    /// Seconds added to the timer per purchase.
    pub timer_extension_secs: i64,
    /// Maximum timer duration in seconds.
    pub max_timer_secs: i64,
    /// Winner share in basis points.
    pub winner_bps: u64,
    /// Dividend share in basis points.
    pub dividend_bps: u64,
    /// Next-round carry share in basis points.
    pub next_round_bps: u64,
    /// Protocol fee in basis points (independent of the pot-split sum).
    pub protocol_fee_bps: u64,
    /// Referral bonus in basis points of the after-fee amount.
    pub referral_bonus_bps: u64,
    /// Wallet that receives protocol fees.
    pub protocol_wallet: AccountId,
}

impl GlobalConfig {
    /// What every stored configuration satisfies: positive curve and timer
    /// parameters, pot-split rates summing to exactly 10,000 bps, fee and
    /// bonus rates within 10,000 bps, and a real fee wallet.
    pub open spec fn valid(self) -> bool {
        &&& self.base_price_lamports >= 1
        &&& self.price_increment_lamports >= 1
        &&& self.timer_extension_secs >= 1
        &&& self.max_timer_secs >= 1
        &&& self.winner_bps + self.dividend_bps + self.next_round_bps == 10_000
        &&& self.protocol_fee_bps <= 10_000
        &&& self.referral_bonus_bps <= 10_000
        &&& !self.protocol_wallet.spec_is_unset()
    }

    /// Runtime test of [`Self::valid`], for hosts that must establish it
    /// before calling operations that expect a validated configuration.
    pub fn check_valid(&self) -> (r: bool)
        ensures
            r == self.valid(),
    {
        let rates_ok: bool = match self.winner_bps.checked_add(self.dividend_bps) {
            Some(partial) => match partial.checked_add(self.next_round_bps) {
                Some(sum) => sum == 10_000,
                None => false,
            },
            None => false,
        };
        rates_ok && self.base_price_lamports >= 1 && self.price_increment_lamports >= 1
            && self.timer_extension_secs >= 1 && self.max_timer_secs >= 1
            && self.protocol_fee_bps <= 10_000 && self.referral_bonus_bps <= 10_000
            && !self.protocol_wallet.is_unset()
    }
}

/// The parameters supplied to a configuration write.
#[derive(Clone, Copy, Debug)]
pub struct ConfigParams {
    pub base_price_lamports: u64,
    pub price_increment_lamports: u64,
    pub timer_extension_secs: i64,
    pub max_timer_secs: i64,
    pub winner_bps: u64,
    pub dividend_bps: u64,
    pub next_round_bps: u64,
    pub protocol_fee_bps: u64,
    pub referral_bonus_bps: u64,
    pub protocol_wallet: AccountId,
}

/// The mutable aggregate state of one round: pools, timer, counters, and
/// an immutable snapshot of the configuration taken at round start.
#[derive(Clone, Copy, Debug)]
pub struct GameState {
    /// Round number, starting at 1.
    pub round: u64,
    /// Gross value received this round (lamports), informational.
    pub pot_lamports: u64,
    /// Absolute time at which the timer expires.
    pub timer_end: i64,
    /// Identity of the most recent key buyer (the potential winner).
    pub last_buyer: AccountId,
    /// Total keys sold this round.
    pub total_keys: u64,
    /// Absolute time of round start.
    pub round_start: i64,
    /// Whether the round is still accepting purchases.
    pub active: bool,
    /// Whether the winner prize has been claimed.
    pub winner_claimed: bool,
    /// Number of unique participants in this round.
    pub total_players: u32,
    /// Accumulated dividend pool (claimed proportionally at round end).
    pub total_dividend_pool: u64,
    /// Accumulated carry-over for the next round.
    pub next_round_pot: u64,
    /// Accumulated winner share, paid out on claim.
    pub winner_pot: u64,
    /// Snapshot: base price per key in lamports.
    pub base_price_lamports: u64,
    /// Snapshot: price increment per key.
    pub price_increment_lamports: u64,
    /// Snapshot: seconds added to the timer per purchase.
    pub timer_extension_secs: i64,
    /// Snapshot: maximum timer duration in seconds.
    pub max_timer_secs: i64,
    /// Snapshot: winner share in basis points.
    pub winner_bps: u64,
    /// Snapshot: dividend share in basis points.
    pub dividend_bps: u64,
    /// Snapshot: next-round carry share in basis points.
    pub next_round_bps: u64,
    /// Snapshot: protocol fee in basis points.
    pub protocol_fee_bps: u64,
    /// Snapshot: referral bonus in basis points of the after-fee amount.
    pub referral_bonus_bps: u64,
    /// Snapshot: wallet that receives protocol fees.
    pub protocol_wallet: AccountId,
}

impl GameState {
    /// The snapshot rates are as a validated configuration left them.
    pub open spec fn valid_rates(self) -> bool {
        &&& self.winner_bps + self.dividend_bps + self.next_round_bps == 10_000
        &&& self.protocol_fee_bps <= 10_000
        &&& self.referral_bonus_bps <= 10_000
    }

    /// Well-formedness of a round record: rounds are numbered from 1, the
    /// snapshot came from a validated configuration, and the deadline never
    /// lies past the hard cap `round_start + max_timer_secs`, which itself
    /// fits the time domain.
    pub open spec fn wf(self) -> bool {
        &&& self.round >= 1
        &&& self.valid_rates()
        &&& self.base_price_lamports >= 1
        &&& self.price_increment_lamports >= 1
        &&& self.timer_extension_secs >= 1
        &&& self.max_timer_secs >= 1
        &&& self.round_start + self.max_timer_secs <= i64::MAX
        &&& self.timer_end <= self.round_start + self.max_timer_secs
        &&& (self.active ==> !self.winner_claimed)
    }

    /// Runtime test of [`Self::wf`], for hosts that must establish it
    /// before handing a stored round record to an engine operation.
    pub fn check_wf(&self) -> (r: bool)
        ensures
            r == self.wf(),
    {
        let rates_ok: bool = match self.winner_bps.checked_add(self.dividend_bps) {
            Some(partial) => match partial.checked_add(self.next_round_bps) {
                Some(sum) => sum == 10_000,
                None => false,
            },
            None => false,
        };
        let cap_ok: bool = match self.round_start.checked_add(self.max_timer_secs) {
            Some(cap) => self.timer_end <= cap,
            None => false,
        };
        self.round >= 1 && rates_ok && self.protocol_fee_bps <= 10_000
            && self.referral_bonus_bps <= 10_000 && self.base_price_lamports >= 1
            && self.price_increment_lamports >= 1 && self.timer_extension_secs >= 1
            && self.max_timer_secs >= 1 && cap_ok && (!self.active || !self.winner_claimed)
    }
}

/// One persistent participant record, reused across rounds.
#[derive(Clone, Copy, Debug)]
pub struct PlayerState {
    /// The participant's identity.
    pub player: AccountId,
    /// Keys held in the round the participant is currently in.
    pub keys: u64,
    /// The round this participant is currently in; 0 is a reserved sentinel
    /// meaning "settled — not currently in any round".
    pub current_round: u64,
    /// Lifetime dividends already withdrawn (lamports).
    pub claimed_dividends_lamports: u64,
    /// Who referred this participant; set at most once, immutable after.
    pub referrer: Option<AccountId>,
    /// Referral earnings accrued and not yet claimed (lamports).
    pub referral_earnings_lamports: u64,
    /// Lifetime referral earnings already claimed (lamports).
    pub claimed_referral_earnings_lamports: u64,
    /// Whether this participant is an automated agent.
    pub is_agent: bool,
}

impl PlayerState {
    /// Well-formedness of a participant record: a real identity, and a
    /// referral binding that never points back at the participant.
    pub open spec fn wf(self) -> bool {
        &&& !self.player.spec_is_unset()
        &&& (self.referrer matches Some(r) ==> r != self.player)
    }

    /// Runtime test of [`Self::wf`], for hosts that must establish it
    /// before handing a stored participant record to an engine operation.
    pub fn check_wf(&self) -> (r: bool)
        ensures
            r == self.wf(),
    {
        let binding_ok: bool = match self.referrer {
            Some(r) => !(r == self.player),
            None => true,
        };
        !self.player.is_unset() && binding_ok
    }
}

} // verus!
