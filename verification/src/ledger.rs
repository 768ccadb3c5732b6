//! The round ledger: one round's aggregate state — the round record, the
//! participant records, the vault balance and the cumulative flow counters
//! — with the engine's conservation and solvency guarantees proved as an
//! invariant over every operation.
//!
//! Conservation: at every point, the gross value received this round
//! equals the protocol fees forwarded plus the vault balance plus the
//! payouts withdrawn plus the carry-over already forwarded — exactly, with
//! rounding dust accumulating inside the vault, never created or lost.
//!
//! Solvency: the vault always covers the unclaimed winner prize, the
//! not-yet-forwarded carry-over pool, the dividends still claimable and
//! every participant's unclaimed referral earnings; a claim can therefore
//! never fail for lack of funds.

use vstd::prelude::*;

use crate::engine;
use crate::engine::BuyOutcome;
use crate::errors::FomoltError;
use crate::math::dividend_share;
use crate::state::{AccountId, GameState, GlobalConfig, PlayerState};

verus! {

/// The keys held across a sequence of participant records.
pub open spec fn sum_keys(s: Seq<PlayerState>) -> int
    decreases s.len(),
{
    if s.len() == 0 {
        0
    } else {
        sum_keys(s.drop_last()) + s.last().keys
    }
}

/// The unclaimed referral earnings across a sequence of participant records.
pub open spec fn sum_referral_earnings(s: Seq<PlayerState>) -> int
    decreases s.len(),
{
    if s.len() == 0 {
        0
    } else {
        sum_referral_earnings(s.drop_last()) + s.last().referral_earnings_lamports
    }
}

proof fn lemma_sum_keys_push(s: Seq<PlayerState>, p: PlayerState)
    ensures
        sum_keys(s.push(p)) == sum_keys(s) + p.keys,
{
    assert(s.push(p).drop_last() =~= s);
}

proof fn lemma_sum_referral_earnings_push(s: Seq<PlayerState>, p: PlayerState)
    ensures
        sum_referral_earnings(s.push(p)) == sum_referral_earnings(s)
            + p.referral_earnings_lamports,
{
    assert(s.push(p).drop_last() =~= s);
}

proof fn lemma_sum_keys_update(s: Seq<PlayerState>, i: int, p: PlayerState)
    requires
        0 <= i < s.len(),
    ensures
        sum_keys(s.update(i, p)) == sum_keys(s) - s[i].keys + p.keys,
    decreases s.len(),
{
    if i == s.len() - 1 {
        assert(s.update(i, p).drop_last() =~= s.drop_last());
    } else {
        assert(s.update(i, p).drop_last() =~= s.drop_last().update(i, p));
        lemma_sum_keys_update(s.drop_last(), i, p);
    }
}

proof fn lemma_sum_referral_earnings_update(s: Seq<PlayerState>, i: int, p: PlayerState)
    requires
        0 <= i < s.len(),
    ensures
        sum_referral_earnings(s.update(i, p)) == sum_referral_earnings(s)
            - s[i].referral_earnings_lamports + p.referral_earnings_lamports,
    decreases s.len(),
{
    if i == s.len() - 1 {
        assert(s.update(i, p).drop_last() =~= s.drop_last());
    } else {
        assert(s.update(i, p).drop_last() =~= s.drop_last().update(i, p));
        lemma_sum_referral_earnings_update(s.drop_last(), i, p);
    }
}

proof fn lemma_sum_keys_nonneg(s: Seq<PlayerState>)
    ensures
        sum_keys(s) >= 0,
    decreases s.len(),
{
    if s.len() > 0 {
        lemma_sum_keys_nonneg(s.drop_last());
    }
}

proof fn lemma_sum_referral_earnings_nonneg(s: Seq<PlayerState>)
    ensures
        sum_referral_earnings(s) >= 0,
    decreases s.len(),
{
    if s.len() > 0 {
        lemma_sum_referral_earnings_nonneg(s.drop_last());
    }
}

/// Any one record's keys are bounded by the sum over all records.
proof fn lemma_sum_keys_element(s: Seq<PlayerState>, i: int)
    requires
        0 <= i < s.len(),
    ensures
        s[i].keys <= sum_keys(s),
    decreases s.len(),
{
    if i == s.len() - 1 {
        lemma_sum_keys_nonneg(s.drop_last());
    } else {
        lemma_sum_keys_element(s.drop_last(), i);
    }
}

/// Any one record's unclaimed referral earnings are bounded by the sum
/// over all records.
proof fn lemma_sum_referral_earnings_element(s: Seq<PlayerState>, i: int)
    requires
        0 <= i < s.len(),
    ensures
        s[i].referral_earnings_lamports <= sum_referral_earnings(s),
    decreases s.len(),
{
    if i == s.len() - 1 {
        lemma_sum_referral_earnings_nonneg(s.drop_last());
    } else {
        lemma_sum_referral_earnings_element(s.drop_last(), i);
    }
}

/// One round's aggregate state, as the host's storage and vault would hold
/// it: the round record, every participant record, the vault balance, and
/// the cumulative flow counters the conservation law is stated over.
pub struct GameLedger {
    /// The round record.
    pub game: GameState,
    /// Every participant record, at most one per identity.
    pub players: Vec<PlayerState>,
    /// The round's pooled balance (lamports).
    pub vault_lamports: u64,
    /// Protocol fees forwarded to the fee wallet so far.
    pub protocol_fees_lamports: u64,
    /// Payouts withdrawn by participants so far (dividends, winner prize,
    /// referral earnings).
    pub withdrawn_lamports: u64,
    /// Carry-over already forwarded to the successor round.
    pub carried_out_lamports: u64,
    /// Whether the carry-over has been forwarded to a successor.
    pub carried: bool,
    /// Dividends claimed against this round so far.
    pub claimed_dividends_lamports: u64,
    /// Keys that claiming participants held when they settled.
    pub claimed_keys: u64,
}

impl GameLedger {
    /// The unclaimed winner prize still owed by the vault.
    pub open spec fn winner_obligation(self) -> int {
        if !self.game.winner_claimed {
            self.game.winner_pot as int
        } else {
            0
        }
    }

    /// The carry-over still owed to the successor round by the vault.
    pub open spec fn carry_obligation(self) -> int {
        if !self.carried {
            self.game.next_round_pot as int
        } else {
            0
        }
    }

    /// The dividends still claimable from the vault.
    pub open spec fn dividend_obligation(self) -> int {
        self.game.total_dividend_pool - self.claimed_dividends_lamports
    }

    /// The aggregate invariant. Together with the per-operation contracts
    /// this is the engine's conservation and solvency statement:
    ///
    /// - flow: `pot_lamports` (carry-in seed plus every gross cost paid)
    ///   equals protocol fees plus vault plus withdrawals plus forwarded
    ///   carry-over, exactly;
    /// - membership: records are unique per identity, members of the live
    ///   round hold exactly the keys not yet settled, settled records hold
    ///   none;
    /// - claims: dividends claimed so far never exceed the settled keys'
    ///   proportional share of the pool;
    /// - solvency: the vault covers the unclaimed winner prize, the
    ///   unforwarded carry-over, the outstanding dividends and all
    ///   unclaimed referral earnings.
    pub open spec fn wf(self) -> bool {
        &&& self.game.wf()
        &&& (forall|i: int, j: int|
            0 <= i < j < self.players@.len() ==> #[trigger] self.players@[i].player != #[trigger] self.players@[j].player)
        &&& (forall|i: int|
            0 <= i < self.players@.len() ==> (#[trigger] self.players@[i]).wf())
        &&& (forall|i: int|
            0 <= i < self.players@.len() ==> (#[trigger] self.players@[i]).current_round
                == self.game.round || self.players@[i].current_round == 0)
        &&& (forall|i: int|
            0 <= i < self.players@.len() && (#[trigger] self.players@[i]).current_round == 0
                ==> self.players@[i].keys == 0)
        &&& sum_keys(self.players@) + self.claimed_keys == self.game.total_keys
        &&& self.claimed_keys <= self.game.total_keys
        &&& (self.game.active ==> self.claimed_keys == 0 && self.claimed_dividends_lamports == 0
            && !self.carried)
        &&& (self.game.total_keys == 0 ==> self.claimed_dividends_lamports == 0
            && sum_referral_earnings(self.players@) == 0 && self.game.next_round_pot == 0
            && self.game.total_dividend_pool == 0)
        &&& (!self.carried ==> self.carried_out_lamports == 0)
        &&& (self.game.total_keys > 0 ==> self.claimed_dividends_lamports <= (
        self.claimed_keys as int) * (self.game.total_dividend_pool as int) / (
        self.game.total_keys as int))
        &&& self.claimed_dividends_lamports <= self.game.total_dividend_pool
        &&& self.game.pot_lamports == self.protocol_fees_lamports + self.vault_lamports
            + self.withdrawn_lamports + self.carried_out_lamports
        &&& self.vault_lamports >= self.winner_obligation() + self.carry_obligation()
            + self.dividend_obligation() + sum_referral_earnings(self.players@)
    }

    /// Conservation of value, as the invariant states it: the gross value
    /// received this round is exactly the protocol fees plus the vault
    /// plus the withdrawals plus the forwarded carry-over. No unit of
    /// currency is created or destroyed; rounding dust stays in the vault.
    pub proof fn lemma_conservation(self)
        requires
            self.wf(),
        ensures
            self.game.pot_lamports == self.protocol_fees_lamports + self.vault_lamports
                + self.withdrawn_lamports + self.carried_out_lamports,
    {
    }

    /// Solvency, as the invariant states it: at every observation point
    /// the vault covers the unclaimed winner prize, the unforwarded
    /// carry-over, the dividends still claimable and every participant's
    /// unclaimed referral earnings. The only slack is bounded
    /// integer-division rounding dust, which accumulates in the vault.
    pub proof fn lemma_solvency(self)
        requires
            self.wf(),
        ensures
            self.vault_lamports >= self.winner_obligation() + self.carry_obligation()
                + self.dividend_obligation() + sum_referral_earnings(self.players@),
    {
    }

    /// Start the very first round from a validated configuration: an empty
    /// ledger around round number 1.
    pub fn first_round(config: &GlobalConfig, now: i64) -> (r: Result<GameLedger, FomoltError>)
        requires
            config.valid(),
        ensures
            r is Ok <==> now + config.max_timer_secs <= i64::MAX,
            r matches Ok(l) ==> {
                &&& l.wf()
                &&& l.game == engine::fresh_round(*config, 1, 0, now)
                &&& l.players@.len() == 0
                &&& l.vault_lamports == 0
                &&& l.protocol_fees_lamports == 0
                &&& l.withdrawn_lamports == 0
                &&& l.carried_out_lamports == 0
                &&& !l.carried
            },
            r is Err ==> r == Err::<GameLedger, FomoltError>(FomoltError::Overflow),
    {
        let game = match engine::initialize_first_round(config, now) {
            Ok(g) => g,
            Err(e) => {
                return Err(e);
            },
        };
        Ok(
            GameLedger {
                game: game,
                players: Vec::new(),
                vault_lamports: 0,
                protocol_fees_lamports: 0,
                withdrawn_lamports: 0,
                carried_out_lamports: 0,
                carried: false,
                claimed_dividends_lamports: 0,
                claimed_keys: 0,
            },
        )
    }

    /// Look a participant up by identity. At most one record matches.
    pub fn find_player(&self, id: AccountId) -> (r: Option<usize>)
        ensures
            r matches Some(i) ==> i < self.players@.len() && self.players@[i as int].player == id,
            r is None ==> forall|j: int|
                0 <= j < self.players@.len() ==> (#[trigger] self.players@[j]).player != id,
    {
        let mut i: usize = 0;
        while i < self.players.len()
            invariant
                i <= self.players@.len(),
                forall|j: int| 0 <= j < i ==> (#[trigger] self.players@[j]).player != id,
            decreases self.players@.len() - i,
        {
            if self.players[i].player == id {
                return Some(i);
            }
            i = i + 1;
        }
        None
    }

    /// Buy keys (or register, for a zero quantity) for `buyer`, whose
    /// record — if one exists — sits at `buyer_idx`, supplying the
    /// referrer record at `referrer_idx` if one was named. The gross cost
    /// enters the flow ledger: the protocol fee is forwarded, the
    /// after-fee amount enters the vault, and the pools grow by the
    /// waterfall splits.
    #[verifier::rlimit(50)]
    pub fn buy_at(
        &mut self,
        buyer_idx: Option<usize>,
        referrer_idx: Option<usize>,
        buyer: AccountId,
        keys_to_buy: u64,
        is_agent: bool,
        now: i64,
    ) -> (r: Result<BuyOutcome, FomoltError>)
        requires
            old(self).wf(),
            !buyer.spec_is_unset(),
            match buyer_idx {
                Some(i) => i < old(self).players@.len() && old(self).players@[i as int].player
                    == buyer,
                None => forall|j: int|
                    0 <= j < old(self).players@.len() ==> (#[trigger] old(
                        self,
                    ).players@[j]).player != buyer,
            },
            referrer_idx matches Some(i) ==> i < old(self).players@.len(),
        ensures
            final(self).wf(),
            final(self).withdrawn_lamports == old(self).withdrawn_lamports,
            final(self).carried_out_lamports == old(self).carried_out_lamports,
            final(self).carried == old(self).carried,
            final(self).claimed_dividends_lamports == old(self).claimed_dividends_lamports,
            final(self).claimed_keys == old(self).claimed_keys,
            r is Err ==> *final(self) == *old(self),
            ({
                let p_opt = match buyer_idx {
                    Some(i) => Some(old(self).players@[i as int]),
                    None => None::<PlayerState>,
                };
                let ref_opt = match referrer_idx {
                    Some(i) => Some(old(self).players@[i as int]),
                    None => None::<PlayerState>,
                };
                let g0 = old(self).game;
                &&& (r is Ok <==> (now >= g0.timer_end || {
                    &&& g0.active
                    &&& engine::registration_allowed(g0, p_opt, ref_opt, buyer)
                    &&& (keys_to_buy == 0 || {
                        let p1 = engine::registered_player(g0, p_opt, ref_opt, buyer, is_agent);
                        &&& engine::referral_consistent(p1, ref_opt)
                        &&& engine::purchase_fits(g0, p1, ref_opt, keys_to_buy as int, now)
                    })
                }))
                &&& (now < g0.timer_end && r is Err ==> r == Err::<BuyOutcome, FomoltError>(
                    engine::buy_error_spec(g0, p_opt, ref_opt, buyer, keys_to_buy as int),
                ))
                &&& (now >= g0.timer_end ==> {
                    &&& r == Ok::<BuyOutcome, FomoltError>(BuyOutcome::RoundEnded)
                    &&& final(self).game == engine::after_auto_end(g0, now)
                    &&& final(self).players@ == old(self).players@
                    &&& final(self).vault_lamports == old(self).vault_lamports
                    &&& final(self).protocol_fees_lamports == old(self).protocol_fees_lamports
                })
                &&& (now < g0.timer_end && keys_to_buy == 0 && r is Ok ==> {
                    let p1 = engine::registered_player(g0, p_opt, ref_opt, buyer, is_agent);
                    &&& r == Ok::<BuyOutcome, FomoltError>(BuyOutcome::Registered)
                    &&& final(self).game == engine::registered_game(g0, p_opt)
                    &&& final(self).players@ == (match buyer_idx {
                        Some(i) => old(self).players@.update(i as int, p1),
                        None => old(self).players@.push(p1),
                    })
                    &&& final(self).vault_lamports == old(self).vault_lamports
                    &&& final(self).protocol_fees_lamports == old(self).protocol_fees_lamports
                })
                &&& (now < g0.timer_end && keys_to_buy >= 1 && r is Ok ==> {
                    let n = keys_to_buy as int;
                    let p1 = engine::registered_player(g0, p_opt, ref_opt, buyer, is_agent);
                    let applies = engine::bonus_applies(p1, ref_opt);
                    let bonus = engine::referral_bonus_part(g0, n, applies);
                    let p2 = PlayerState { keys: (p1.keys + n) as u64, ..p1 };
                    &&& r == Ok::<BuyOutcome, FomoltError>(
                        BuyOutcome::Purchased(
                            engine::BuyReceipt {
                                cost: engine::gross_cost(g0, n) as u64,
                                protocol_fee: engine::protocol_fee_part(g0, n) as u64,
                                after_fee: engine::after_fee_part(g0, n) as u64,
                                referral_bonus: bonus as u64,
                                pot_contribution: engine::pot_contribution_part(
                                    g0,
                                    n,
                                    applies,
                                ) as u64,
                                winner_share: engine::winner_share_part(g0, n, applies) as u64,
                                dividend_share: engine::dividend_share_part(g0, n, applies) as u64,
                                carry_share: engine::carry_share_part(g0, n, applies) as u64,
                            },
                        ),
                    )
                    &&& final(self).game == engine::purchased_game(g0, p_opt, buyer, n, applies, now)
                    &&& (bonus > 0 && applies ==> (referrer_idx matches Some(ri)
                        && final(self).players@ == (match buyer_idx {
                        Some(i) => old(self).players@.update(i as int, p2),
                        None => old(self).players@.push(p2),
                    }).update(
                        ri as int,
                        PlayerState {
                            referral_earnings_lamports: (old(
                                self,
                            ).players@[ri as int].referral_earnings_lamports + bonus) as u64,
                            ..old(self).players@[ri as int]
                        },
                    )))
                    &&& (!(bonus > 0 && applies) ==> final(self).players@ == (match buyer_idx {
                        Some(i) => old(self).players@.update(i as int, p2),
                        None => old(self).players@.push(p2),
                    }))
                    &&& final(self).vault_lamports == old(self).vault_lamports
                        + engine::after_fee_part(g0, n)
                    &&& final(self).protocol_fees_lamports == old(self).protocol_fees_lamports
                        + engine::protocol_fee_part(g0, n)
                    &&& final(self).game.timer_end >= g0.timer_end
                })
            }),
    {
        let player_opt: Option<PlayerState> = match buyer_idx {
            Some(i) => Some(self.players[i]),
            None => None,
        };
        let referrer_opt: Option<PlayerState> = match referrer_idx {
            Some(i) => Some(self.players[i]),
            None => None,
        };
        let b = match engine::buy_keys(
            &self.game,
            player_opt,
            referrer_opt,
            buyer,
            keys_to_buy,
            is_agent,
            now,
        ) {
            Ok(b) => b,
            Err(e) => {
                return Err(e);
            },
        };
        match b.outcome {
            BuyOutcome::RoundEnded => {
                self.game = b.game;
                Ok(BuyOutcome::RoundEnded)
            },
            BuyOutcome::Registered => {
                self.game = b.game;
                match b.player {
                    Some(p1) => {
                        match buyer_idx {
                            Some(i) => {
                                self.players.set(i, p1);
                            },
                            None => {
                                self.players.push(p1);
                            },
                        }
                        proof {
                            match buyer_idx {
                                Some(i) => {
                                    lemma_sum_keys_update(old(self).players@, i as int, p1);
                                    lemma_sum_referral_earnings_update(
                                        old(self).players@,
                                        i as int,
                                        p1,
                                    );
                                },
                                None => {
                                    lemma_sum_keys_push(old(self).players@, p1);
                                    lemma_sum_referral_earnings_push(old(self).players@, p1);
                                },
                            }
                        }
                        Ok(BuyOutcome::Registered)
                    },
                    None => {
                        proof {
                            assert(false);
                        }
                        Err(FomoltError::Overflow)
                    },
                }
            },
            BuyOutcome::Purchased(rcpt) => {
                self.game = b.game;
                match b.player {
                    Some(p2) => {
                        match buyer_idx {
                            Some(i) => {
                                self.players.set(i, p2);
                            },
                            None => {
                                self.players.push(p2);
                            },
                        }
                        proof {
                            match buyer_idx {
                                Some(i) => {
                                    lemma_sum_keys_update(old(self).players@, i as int, p2);
                                    lemma_sum_referral_earnings_update(
                                        old(self).players@,
                                        i as int,
                                        p2,
                                    );
                                },
                                None => {
                                    lemma_sum_keys_push(old(self).players@, p2);
                                    lemma_sum_referral_earnings_push(old(self).players@, p2);
                                },
                            }
                        }
                    },
                    None => {
                        proof {
                            assert(false);
                        }
                        return Err(FomoltError::Overflow);
                    },
                }
                if let Some(rr) = b.referrer {
                    match referrer_idx {
                        Some(ri) => {
                            proof {
                                lemma_sum_keys_update(self.players@, ri as int, rr);
                                lemma_sum_referral_earnings_update(self.players@, ri as int, rr);
                            }
                            self.players.set(ri, rr);
                        },
                        None => {
                            proof {
                                assert(false);
                            }
                            return Err(FomoltError::Overflow);
                        },
                    }
                }
                proof {
                    vstd::arithmetic::div_mod::lemma_div_of0(self.game.total_keys as int);
                }
                self.vault_lamports = self.vault_lamports + rcpt.after_fee;
                self.protocol_fees_lamports = self.protocol_fees_lamports + rcpt.protocol_fee;
                Ok(BuyOutcome::Purchased(rcpt))
            },
        }
    }

    /// Claim dividends — and the winner prize, for the recorded last
    /// buyer — for the participant at `idx`. Because the ledger's vault
    /// always covers every outstanding entitlement, a claim never fails
    /// for lack of funds.
    pub fn claim_at(&mut self, idx: usize, now: i64) -> (r: Result<
        engine::ClaimResult,
        FomoltError,
    >)
        requires
            old(self).wf(),
            idx < old(self).players@.len(),
        ensures
            final(self).wf(),
            r is Err ==> *final(self) == *old(self),
            r != Err::<engine::ClaimResult, FomoltError>(FomoltError::InsufficientFunds),
            ({
                let g0 = old(self).game;
                let p0 = old(self).players@[idx as int];
                let div = dividend_share(
                    p0.keys as int,
                    g0.total_dividend_pool as int,
                    g0.total_keys as int,
                );
                let win = engine::winner_payout(g0, p0);
                &&& (r is Ok <==> {
                    &&& p0.current_round == g0.round
                    &&& !(g0.active && now < g0.timer_end)
                    &&& div <= u64::MAX
                    &&& div + win <= u64::MAX
                    &&& div + win > 0
                    &&& p0.claimed_dividends_lamports + div <= u64::MAX
                })
                &&& (p0.current_round != g0.round ==> r == Err::<engine::ClaimResult, FomoltError>(
                    FomoltError::PlayerNotInRound,
                ))
                &&& (p0.current_round == g0.round && g0.active && now < g0.timer_end ==> r
                    == Err::<engine::ClaimResult, FomoltError>(FomoltError::GameStillActive))
                &&& (p0.current_round == g0.round && !(g0.active && now < g0.timer_end) && div
                    + win == 0 ==> r == Err::<engine::ClaimResult, FomoltError>(
                    FomoltError::NothingToClaim,
                ))
                &&& (r matches Ok(c) ==> {
                    &&& c.dividend_lamports == div
                    &&& c.winner_lamports == win
                    &&& c.total_lamports == div + win
                    &&& c.player == (PlayerState {
                        keys: 0,
                        current_round: 0,
                        claimed_dividends_lamports: (p0.claimed_dividends_lamports + div) as u64,
                        ..p0
                    })
                    &&& final(self).game == (GameState {
                        winner_claimed: g0.winner_claimed || engine::is_winner(g0, p0),
                        ..engine::after_auto_end(g0, now)
                    })
                    &&& final(self).players@ == old(self).players@.update(idx as int, c.player)
                    &&& final(self).vault_lamports == old(self).vault_lamports - c.total_lamports
                    &&& final(self).withdrawn_lamports == old(self).withdrawn_lamports
                        + c.total_lamports
                    &&& final(self).claimed_dividends_lamports == old(
                        self,
                    ).claimed_dividends_lamports + div
                    &&& final(self).claimed_keys == old(self).claimed_keys + p0.keys
                    &&& final(self).protocol_fees_lamports == old(self).protocol_fees_lamports
                    &&& final(self).carried_out_lamports == old(self).carried_out_lamports
                    &&& final(self).carried == old(self).carried
                })
            }),
    {
        let p0: PlayerState = self.players[idx];
        proof {
            lemma_sum_keys_element(self.players@, idx as int);
            lemma_sum_referral_earnings_nonneg(self.players@);
            let g0 = self.game;
            let t = g0.total_keys as int;
            let d = g0.total_dividend_pool as int;
            let kp = p0.keys as int;
            let ck = self.claimed_keys as int;
            if t > 0 && kp > 0 {
                assert((kp + ck) * d == kp * d + ck * d) by (nonlinear_arith);
                crate::math::lemma_div_sum_le(kp * d, ck * d, t);
                vstd::arithmetic::mul::lemma_mul_nonnegative(kp, d);
                vstd::arithmetic::mul::lemma_mul_nonnegative(ck, d);
                crate::math::lemma_dividend_share_le_pool(kp + ck, d, t);
            }
            if t != 0 {
                vstd::arithmetic::div_mod::lemma_div_of0(t);
            }
        }
        let c = match engine::claim(&self.game, &p0, self.vault_lamports, now) {
            Ok(c) => c,
            Err(e) => {
                return Err(e);
            },
        };
        proof {
            lemma_sum_keys_update(self.players@, idx as int, c.player);
            lemma_sum_referral_earnings_update(self.players@, idx as int, c.player);
        }
        self.game = c.game;
        self.players.set(idx, c.player);
        self.vault_lamports = self.vault_lamports - c.total_lamports;
        self.withdrawn_lamports = self.withdrawn_lamports + c.total_lamports;
        self.claimed_dividends_lamports = self.claimed_dividends_lamports + c.dividend_lamports;
        self.claimed_keys = self.claimed_keys + p0.keys;
        Ok(c)
    }

    /// Claim the accrued referral earnings of the participant at `idx`.
    /// Earnings settle against the round in which they accrued; the vault
    /// always covers them, so the claim never fails for lack of funds.
    pub fn claim_referral_at(&mut self, idx: usize, now: i64) -> (r: Result<
        engine::ReferralClaimResult,
        FomoltError,
    >)
        requires
            old(self).wf(),
            idx < old(self).players@.len(),
        ensures
            final(self).wf(),
            r is Err ==> *final(self) == *old(self),
            r != Err::<engine::ReferralClaimResult, FomoltError>(FomoltError::InsufficientFunds),
            ({
                let g0 = old(self).game;
                let p0 = old(self).players@[idx as int];
                &&& (r is Ok <==> {
                    &&& p0.referral_earnings_lamports > 0
                    &&& p0.claimed_referral_earnings_lamports + p0.referral_earnings_lamports
                        <= u64::MAX
                })
                &&& (p0.referral_earnings_lamports == 0 ==> r == Err::<
                    engine::ReferralClaimResult,
                    FomoltError,
                >(FomoltError::NoReferralEarnings))
                &&& (r matches Ok(c) ==> {
                    &&& c.amount == p0.referral_earnings_lamports
                    &&& c.player == (PlayerState {
                        referral_earnings_lamports: 0,
                        claimed_referral_earnings_lamports: (p0.claimed_referral_earnings_lamports
                            + p0.referral_earnings_lamports) as u64,
                        ..p0
                    })
                    &&& final(self).game == engine::after_auto_end(g0, now)
                    &&& final(self).players@ == old(self).players@.update(idx as int, c.player)
                    &&& final(self).vault_lamports == old(self).vault_lamports - c.amount
                    &&& final(self).withdrawn_lamports == old(self).withdrawn_lamports + c.amount
                    &&& final(self).protocol_fees_lamports == old(self).protocol_fees_lamports
                    &&& final(self).claimed_dividends_lamports == old(
                        self,
                    ).claimed_dividends_lamports
                    &&& final(self).claimed_keys == old(self).claimed_keys
                    &&& final(self).carried == old(self).carried
                    &&& final(self).carried_out_lamports == old(self).carried_out_lamports
                })
            }),
    {
        let p0: PlayerState = self.players[idx];
        proof {
            lemma_sum_referral_earnings_element(self.players@, idx as int);
        }
        let c = match engine::claim_referral_earnings(&self.game, &p0, self.vault_lamports, now) {
            Ok(c) => c,
            Err(e) => {
                return Err(e);
            },
        };
        proof {
            lemma_sum_keys_update(self.players@, idx as int, c.player);
            lemma_sum_referral_earnings_update(self.players@, idx as int, c.player);
        }
        self.game = c.game;
        self.players.set(idx, c.player);
        self.vault_lamports = self.vault_lamports - c.amount;
        self.withdrawn_lamports = self.withdrawn_lamports + c.amount;
        Ok(c)
    }

    /// Conclude this round and start its successor: the carry-over — the
    /// whole remaining vault for an empty round, exactly the carry-over
    /// pool otherwise — moves into the successor's vault, and the
    /// successor snapshots the live configuration. The vault always
    /// covers the carry-over, so the transition never fails for lack of
    /// funds.
    pub fn start_next_round(&mut self, config: &GlobalConfig, now: i64) -> (r: Result<
        GameLedger,
        FomoltError,
    >)
        requires
            old(self).wf(),
            config.valid(),
            !old(self).carried,
        ensures
            final(self).wf(),
            r is Err ==> *final(self) == *old(self),
            r != Err::<GameLedger, FomoltError>(FomoltError::InsufficientFunds),
            ({
                let g0 = old(self).game;
                let carry = engine::carry_of(g0, old(self).vault_lamports);
                &&& (r is Ok <==> {
                    &&& g0.round < u64::MAX
                    &&& !(g0.active && now < g0.timer_end)
                    &&& now + config.max_timer_secs <= i64::MAX
                })
                &&& (g0.active && now < g0.timer_end && g0.round < u64::MAX ==> r == Err::<
                    GameLedger,
                    FomoltError,
                >(FomoltError::GameStillActive))
                &&& (r matches Ok(l) ==> {
                    &&& l.wf()
                    &&& l.game == engine::fresh_round(*config, (g0.round + 1) as u64, carry, now)
                    &&& l.players@.len() == 0
                    &&& l.vault_lamports == carry
                    &&& l.game.winner_pot == carry
                    &&& l.game.pot_lamports == carry
                    &&& final(self).game == engine::prev_after_transition(g0, now)
                    &&& final(self).players@ == old(self).players@
                    &&& final(self).vault_lamports == old(self).vault_lamports - carry
                    &&& final(self).carried_out_lamports == carry
                    &&& final(self).carried
                    &&& (g0.total_keys == 0 ==> final(self).game.winner_claimed && carry == old(
                        self,
                    ).vault_lamports && final(self).vault_lamports == 0)
                })
            }),
    {
        proof {
            lemma_sum_keys_nonneg(self.players@);
            lemma_sum_referral_earnings_nonneg(self.players@);
        }
        let t = match engine::start_new_round(config, &self.game, self.vault_lamports, now) {
            Ok(t) => t,
            Err(e) => {
                return Err(e);
            },
        };
        self.game = t.prev_game;
        self.vault_lamports = self.vault_lamports - t.carry_over;
        self.carried_out_lamports = t.carry_over;
        self.carried = true;
        Ok(
            GameLedger {
                game: t.new_game,
                players: Vec::new(),
                vault_lamports: t.carry_over,
                protocol_fees_lamports: 0,
                withdrawn_lamports: 0,
                carried_out_lamports: 0,
                carried: false,
                claimed_dividends_lamports: 0,
                claimed_keys: 0,
            },
        )
    }

    /// Order-independence of claims over the ledger: participants are
    /// distinct, so one member's claim leaves every other member's payout
    /// exactly as it was — the multiset of payouts for a fixed set of
    /// purchases does not depend on the order claims are submitted in.
    pub proof fn lemma_claim_order_independent(self, i: int, j: int, now: i64)
        requires
            self.wf(),
            0 <= i < self.players@.len(),
            0 <= j < self.players@.len(),
            i != j,
        ensures
            engine::claim_payout(
                engine::game_after_claim(self.game, self.players@[i], now),
                self.players@[j],
            ) == engine::claim_payout(self.game, self.players@[j]),
    {
        assert(self.players@[i].player != self.players@[j].player);
        engine::lemma_claim_order_independent(self.game, self.players@[i], self.players@[j], now);
    }

    /// Admit a settled participant record carried over from an earlier
    /// round: holdings and unclaimed referral earnings must already be
    /// settled against the round where they arose. The record re-enters
    /// play on its first purchase (of any quantity) in this round.
    pub fn admit_player(&mut self, record: PlayerState) -> (r: Result<(), FomoltError>)
        requires
            old(self).wf(),
            record.wf(),
            record.current_round == 0,
            record.keys == 0,
            record.referral_earnings_lamports == 0,
        ensures
            final(self).wf(),
            r is Ok <==> (forall|j: int|
                0 <= j < old(self).players@.len() ==> (#[trigger] old(self).players@[j]).player
                    != record.player),
            r matches Ok(u) ==> final(self).players@ == old(self).players@.push(record),
            r is Err ==> *final(self) == *old(self) && r == Err::<(), FomoltError>(
                FomoltError::PlayerAlreadyRegistered,
            ),
    {
        match self.find_player(record.player) {
            Some(_) => Err(FomoltError::PlayerAlreadyRegistered),
            None => {
                proof {
                    lemma_sum_keys_push(self.players@, record);
                    lemma_sum_referral_earnings_push(self.players@, record);
                }
                self.players.push(record);
                Ok(())
            },
        }
    }
}

} // verus!
