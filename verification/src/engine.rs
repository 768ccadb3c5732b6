//! The state-transition functions of the engine, one per operation.
//!
//! Each operation is a total function from the relevant records and plain
//! host inputs (the current time, a vault balance) to either a fully
//! described successor state or an error; a failed operation hands nothing
//! back, so the host commits either all of an operation's effects or none.
//! The host performs the value transfers an outcome describes.

use vstd::prelude::*;

use crate::errors::FomoltError;
use crate::math;
use crate::math::{bps_share, cost_in_range, curve_cost, dividend_share, timer_target};
use crate::state::{AccountId, ConfigParams, GameState, GlobalConfig, PlayerState};

verus! {

/// Whether a configuration write by `signer` is allowed: the first write
/// claims admin ownership, later writes must come from the owner.
pub open spec fn config_write_allowed(existing: Option<GlobalConfig>, signer: AccountId) -> bool {
    match existing {
        Some(c) => c.admin.spec_is_unset() || signer == c.admin,
        None => true,
    }
}

/// Whether the supplied parameters are acceptable: pot-split rates summing
/// to exactly 10,000 bps, positive curve and timer parameters, fee and
/// bonus rates within 10,000 bps, and a real fee wallet.
pub open spec fn params_acceptable(params: ConfigParams) -> bool {
    &&& params.winner_bps + params.dividend_bps + params.next_round_bps == 10_000
    &&& params.base_price_lamports >= 1
    &&& params.price_increment_lamports >= 1
    &&& params.timer_extension_secs >= 1
    &&& params.max_timer_secs >= 1
    &&& params.protocol_fee_bps <= 10_000
    &&& params.referral_bonus_bps <= 10_000
    &&& !params.protocol_wallet.spec_is_unset()
}

/// The stored configuration a successful write leaves behind: the supplied
/// parameters, owned by the signer.
pub open spec fn config_of_params(signer: AccountId, params: ConfigParams) -> GlobalConfig {
    GlobalConfig {
        admin: signer,
        base_price_lamports: params.base_price_lamports,
        price_increment_lamports: params.price_increment_lamports,
        timer_extension_secs: params.timer_extension_secs,
        max_timer_secs: params.max_timer_secs,
        winner_bps: params.winner_bps,
        dividend_bps: params.dividend_bps,
        next_round_bps: params.next_round_bps,
        protocol_fee_bps: params.protocol_fee_bps,
        referral_bonus_bps: params.referral_bonus_bps,
        protocol_wallet: params.protocol_wallet,
    }
}

/// Create the configuration, or update it if one exists. The first write
/// binds the admin identity; later writes require the same signer. Every
/// parameter is validated on every write.
pub fn create_or_update_config(
    existing: Option<&GlobalConfig>,
    signer: AccountId,
    params: &ConfigParams,
) -> (r: Result<GlobalConfig, FomoltError>)
    ensures
        r is Ok <==> {
            &&& config_write_allowed(
                match existing {
                    Some(c) => Some(*c),
                    None => None,
                },
                signer,
            )
            &&& params_acceptable(*params)
        },
        r matches Ok(c) ==> c == config_of_params(signer, *params) && c.valid(),
        !config_write_allowed(
            match existing {
                Some(c) => Some(*c),
                None => None,
            },
            signer,
        ) ==> r == Err::<GlobalConfig, FomoltError>(FomoltError::Unauthorized),
        r is Err && config_write_allowed(
            match existing {
                Some(c) => Some(*c),
                None => None,
            },
            signer,
        ) ==> r == Err::<GlobalConfig, FomoltError>(
            if params.winner_bps + params.dividend_bps + params.next_round_bps > u64::MAX {
                FomoltError::Overflow
            } else {
                FomoltError::InvalidConfig
            },
        ),
{
    if let Some(c) = existing {
        if !c.admin.is_unset() && !(signer == c.admin) {
            return Err(FomoltError::Unauthorized);
        }
    }
    match math::validate_bps_sum(params.winner_bps, params.dividend_bps, params.next_round_bps) {
        Ok(()) => (),
        Err(e) => {
            return Err(e);
        },
    }
    if params.base_price_lamports == 0 {
        return Err(FomoltError::InvalidConfig);
    }
    if params.price_increment_lamports == 0 {
        return Err(FomoltError::InvalidConfig);
    }
    if params.timer_extension_secs <= 0 {
        return Err(FomoltError::InvalidConfig);
    }
    if params.max_timer_secs <= 0 {
        return Err(FomoltError::InvalidConfig);
    }
    if params.protocol_fee_bps > 10_000 {
        return Err(FomoltError::InvalidConfig);
    }
    if params.referral_bonus_bps > 10_000 {
        return Err(FomoltError::InvalidConfig);
    }
    if params.protocol_wallet.is_unset() {
        return Err(FomoltError::InvalidConfig);
    }
    Ok(GlobalConfig {
        admin: signer,
        base_price_lamports: params.base_price_lamports,
        price_increment_lamports: params.price_increment_lamports,
        timer_extension_secs: params.timer_extension_secs,
        max_timer_secs: params.max_timer_secs,
        winner_bps: params.winner_bps,
        dividend_bps: params.dividend_bps,
        next_round_bps: params.next_round_bps,
        protocol_fee_bps: params.protocol_fee_bps,
        referral_bonus_bps: params.referral_bonus_bps,
        protocol_wallet: params.protocol_wallet,
    })
}

/// The round record every new round starts from: counters zeroed, pools
/// and gross tally seeded with the carry-over (which sits in the winner
/// pool so it is claimable by the new round's winner), the timer at its
/// hard cap, and the live configuration snapshotted.
pub open spec fn fresh_round(config: GlobalConfig, round: u64, carry_over: u64, now: i64) -> GameState {
    GameState {
        round: round,
        pot_lamports: carry_over,
        timer_end: (now + config.max_timer_secs) as i64,
        last_buyer: AccountId { w0: 0, w1: 0, w2: 0, w3: 0 },
        total_keys: 0,
        round_start: now,
        active: true,
        winner_claimed: false,
        total_players: 0,
        total_dividend_pool: 0,
        next_round_pot: 0,
        winner_pot: carry_over,
        base_price_lamports: config.base_price_lamports,
        price_increment_lamports: config.price_increment_lamports,
        timer_extension_secs: config.timer_extension_secs,
        max_timer_secs: config.max_timer_secs,
        winner_bps: config.winner_bps,
        dividend_bps: config.dividend_bps,
        next_round_bps: config.next_round_bps,
        protocol_fee_bps: config.protocol_fee_bps,
        referral_bonus_bps: config.referral_bonus_bps,
        protocol_wallet: config.protocol_wallet,
    }
}

/// Build the first round: round number 1, empty pools, timer at its cap.
pub fn initialize_first_round(config: &GlobalConfig, now: i64) -> (r: Result<
    GameState,
    FomoltError,
>)
    requires
        config.valid(),
    ensures
        r is Ok <==> now + config.max_timer_secs <= i64::MAX,
        r matches Ok(g) ==> g == fresh_round(*config, 1, 0, now) && g.wf(),
        r is Err ==> r == Err::<GameState, FomoltError>(FomoltError::Overflow),
{
    let timer_end: i64 = match now.checked_add(config.max_timer_secs) {
        Some(v) => v,
        None => {
            return Err(FomoltError::Overflow);
        },
    };
    Ok(GameState {
        round: 1,
        pot_lamports: 0,
        timer_end: timer_end,
        last_buyer: AccountId::unset(),
        total_keys: 0,
        round_start: now,
        active: true,
        winner_claimed: false,
        total_players: 0,
        total_dividend_pool: 0,
        next_round_pot: 0,
        winner_pot: 0,
        base_price_lamports: config.base_price_lamports,
        price_increment_lamports: config.price_increment_lamports,
        timer_extension_secs: config.timer_extension_secs,
        max_timer_secs: config.max_timer_secs,
        winner_bps: config.winner_bps,
        dividend_bps: config.dividend_bps,
        next_round_bps: config.next_round_bps,
        protocol_fee_bps: config.protocol_fee_bps,
        referral_bonus_bps: config.referral_bonus_bps,
        protocol_wallet: config.protocol_wallet,
    })
}

/// The lazy expiry step shared by every mutating operation: a round whose
/// deadline has passed is marked ended before the operation's own logic
/// runs; an already-ended round is left as it is.
pub open spec fn after_auto_end(g: GameState, now: i64) -> GameState {
    if g.active && now >= g.timer_end {
        GameState { active: false, ..g }
    } else {
        g
    }
}

/// The outcome of a round transition: the predecessor's final record, the
/// successor's initial record, and the carry-over the host must move from
/// the predecessor's vault to the successor's.
#[derive(Clone, Copy, Debug)]
pub struct RoundTransition {
    /// The predecessor round as the transition leaves it.
    pub prev_game: GameState,
    /// The successor round, ready to accept purchases.
    pub new_game: GameState,
    /// Lamports to move from the predecessor's vault to the successor's.
    pub carry_over: u64,
}

/// The carry-over a transition forwards: an empty round (zero keys sold)
/// forwards its entire remaining vault, since nothing else can ever be
/// claimed from it; a round with activity forwards exactly its carry-over
/// pool, leaving the rest reserved for unsettled claims.
pub open spec fn carry_of(prev: GameState, prev_vault: u64) -> u64 {
    if prev.total_keys == 0 {
        prev_vault
    } else {
        prev.next_round_pot
    }
}

/// The predecessor record a transition leaves behind: ended, and — for an
/// empty round — marked winner-claimed, since there is no winner to pay.
pub open spec fn prev_after_transition(prev: GameState, now: i64) -> GameState {
    let ended = after_auto_end(prev, now);
    if prev.total_keys == 0 {
        GameState { winner_claimed: true, ..ended }
    } else {
        ended
    }
}

/// Conclude the predecessor round and initialize its successor, seeded
/// with the carry-over and a fresh snapshot of the live configuration.
pub fn start_new_round(
    config: &GlobalConfig,
    prev: &GameState,
    prev_vault_lamports: u64,
    now: i64,
) -> (r: Result<RoundTransition, FomoltError>)
    requires
        config.valid(),
        prev.wf(),
    ensures
        r is Ok <==> {
            &&& prev.round < u64::MAX
            &&& !(prev.active && now < prev.timer_end)
            &&& carry_of(*prev, prev_vault_lamports) <= prev_vault_lamports
            &&& now + config.max_timer_secs <= i64::MAX
        },
        r matches Ok(t) ==> {
            &&& t.prev_game == prev_after_transition(*prev, now)
            &&& t.new_game == fresh_round(*config, (prev.round + 1) as u64, t.carry_over, now)
            &&& t.carry_over == carry_of(*prev, prev_vault_lamports)
            &&& t.prev_game.wf()
            &&& t.new_game.wf()
            &&& !t.prev_game.active
            &&& (prev.total_keys == 0 ==> t.prev_game.winner_claimed && t.carry_over
                == prev_vault_lamports)
        },
        r is Err ==> {
            if prev.round == u64::MAX {
                r == Err::<RoundTransition, FomoltError>(FomoltError::Overflow)
            } else if prev.active && now < prev.timer_end {
                r == Err::<RoundTransition, FomoltError>(FomoltError::GameStillActive)
            } else if carry_of(*prev, prev_vault_lamports) > prev_vault_lamports {
                r == Err::<RoundTransition, FomoltError>(FomoltError::InsufficientFunds)
            } else {
                r == Err::<RoundTransition, FomoltError>(FomoltError::Overflow)
            }
        },
{
    if prev.round == u64::MAX {
        return Err(FomoltError::Overflow);
    }
    let mut prev_final: GameState = *prev;
    if now >= prev_final.timer_end && prev_final.active {
        prev_final.active = false;
    }
    if prev_final.active {
        return Err(FomoltError::GameStillActive);
    }
    if prev_final.total_keys == 0 {
        prev_final.winner_claimed = true;
    }
    let carry_over: u64 = if prev_final.total_keys == 0 {
        prev_vault_lamports
    } else {
        prev_final.next_round_pot
    };
    if carry_over > 0 && prev_vault_lamports < carry_over {
        return Err(FomoltError::InsufficientFunds);
    }
    let timer_end: i64 = match now.checked_add(config.max_timer_secs) {
        Some(v) => v,
        None => {
            return Err(FomoltError::Overflow);
        },
    };
    let new_game = GameState {
        round: prev.round + 1,
        pot_lamports: carry_over,
        timer_end: timer_end,
        last_buyer: AccountId::unset(),
        total_keys: 0,
        round_start: now,
        active: true,
        winner_claimed: false,
        total_players: 0,
        total_dividend_pool: 0,
        next_round_pot: 0,
        winner_pot: carry_over,
        base_price_lamports: config.base_price_lamports,
        price_increment_lamports: config.price_increment_lamports,
        timer_extension_secs: config.timer_extension_secs,
        max_timer_secs: config.max_timer_secs,
        winner_bps: config.winner_bps,
        dividend_bps: config.dividend_bps,
        next_round_bps: config.next_round_bps,
        protocol_fee_bps: config.protocol_fee_bps,
        referral_bonus_bps: config.referral_bonus_bps,
        protocol_wallet: config.protocol_wallet,
    };
    Ok(RoundTransition { prev_game: prev_final, new_game: new_game, carry_over: carry_over })
}

/// Whether the registration step of a purchase succeeds: a new participant
/// may bind a referrer other than themselves, a settled participant
/// re-enters the live round, a current member continues, and a holder of a
/// different, unsettled round is turned away. Entering the round must not
/// overflow the participant counter.
pub open spec fn registration_allowed(
    game: GameState,
    player: Option<PlayerState>,
    referrer: Option<PlayerState>,
    buyer: AccountId,
) -> bool {
    match player {
        None => {
            &&& (referrer matches Some(r) ==> r.player != buyer)
            &&& game.total_players + 1 <= u32::MAX
        },
        Some(p) => {
            if p.current_round == 0 {
                p.player == buyer && game.total_players + 1 <= u32::MAX
            } else if p.current_round == game.round {
                p.player == buyer
            } else {
                false
            }
        },
    }
}

/// Whether the registration step increments the round's participant
/// counter: it does for a new record and for a settled record re-entering.
pub open spec fn registration_bumps_counter(player: Option<PlayerState>) -> bool {
    match player {
        None => true,
        Some(p) => p.current_round == 0,
    }
}

/// The participant record the registration step leaves behind: a fresh
/// record bound to the buyer (with the supplied referrer, if any), or the
/// existing record re-entered into the live round; the agent flag follows
/// the request either way. The referral binding, once set, is never
/// rewritten.
pub open spec fn registered_player(
    game: GameState,
    player: Option<PlayerState>,
    referrer: Option<PlayerState>,
    buyer: AccountId,
    is_agent: bool,
) -> PlayerState {
    match player {
        None => PlayerState {
            player: buyer,
            keys: 0,
            current_round: game.round,
            claimed_dividends_lamports: 0,
            referrer: match referrer {
                Some(r) => Some(r.player),
                None => None,
            },
            referral_earnings_lamports: 0,
            claimed_referral_earnings_lamports: 0,
            is_agent: is_agent,
        },
        Some(p) => {
            if p.current_round == 0 {
                PlayerState { keys: 0, current_round: game.round, is_agent: is_agent, ..p }
            } else {
                PlayerState { is_agent: is_agent, ..p }
            }
        },
    }
}

/// The round record after the registration step: only the participant
/// counter may move.
pub open spec fn registered_game(game: GameState, player: Option<PlayerState>) -> GameState {
    if registration_bumps_counter(player) {
        GameState { total_players: (game.total_players + 1) as u32, ..game }
    } else {
        game
    }
}

/// The gross cost of this purchase: `n` keys from the round's current
/// supply under its snapshot curve parameters.
pub open spec fn gross_cost(g: GameState, n: int) -> int {
    curve_cost(g.total_keys as int, n, g.base_price_lamports as int, g.price_increment_lamports as int)
}

/// Step one of the waterfall: the protocol fee, taken off the top.
pub open spec fn protocol_fee_part(g: GameState, n: int) -> int {
    bps_share(gross_cost(g, n), g.protocol_fee_bps as int)
}

/// What remains of the gross cost after the protocol fee; this is the
/// amount that enters the round's pooled balance.
pub open spec fn after_fee_part(g: GameState, n: int) -> int {
    gross_cost(g, n) - protocol_fee_part(g, n)
}

/// Step two of the waterfall: the referral bonus, taken from the after-fee
/// amount when the buyer has a bound referrer whose record was supplied;
/// zero otherwise, so the waterfall is uniform either way.
pub open spec fn referral_bonus_part(g: GameState, n: int, applies: bool) -> int {
    if applies {
        bps_share(after_fee_part(g, n), g.referral_bonus_bps as int)
    } else {
        0
    }
}

/// What remains after fee and referral bonus: the pot contribution, which
/// the three pool splits are taken from.
pub open spec fn pot_contribution_part(g: GameState, n: int, applies: bool) -> int {
    after_fee_part(g, n) - referral_bonus_part(g, n, applies)
}

/// Step three of the waterfall: the winner-pool share.
pub open spec fn winner_share_part(g: GameState, n: int, applies: bool) -> int {
    bps_share(pot_contribution_part(g, n, applies), g.winner_bps as int)
}

/// Step three of the waterfall: the dividend-pool share.
pub open spec fn dividend_share_part(g: GameState, n: int, applies: bool) -> int {
    bps_share(pot_contribution_part(g, n, applies), g.dividend_bps as int)
}

/// Step three of the waterfall: the carry-over share.
pub open spec fn carry_share_part(g: GameState, n: int, applies: bool) -> int {
    bps_share(pot_contribution_part(g, n, applies), g.next_round_bps as int)
}

/// Whether the buyer's referral binding makes the bonus applicable: the
/// registered record has a bound referrer. The purchase path has already
/// required that the bound referrer's record was supplied and matches.
pub open spec fn bonus_applies(p1: PlayerState, referrer: Option<PlayerState>) -> bool {
    p1.referrer is Some && referrer is Some
}

/// Whether the supplied referrer argument is consistent with the buyer's
/// binding: a bound referrer must be supplied and must match exactly.
pub open spec fn referral_consistent(p1: PlayerState, referrer: Option<PlayerState>) -> bool {
    p1.referrer matches Some(bound) ==> (referrer matches Some(r) && r.player == bound)
}

/// Every checked arithmetic step of the purchase path succeeds: the cost
/// evaluation stays in range, each pool, counter and tally fits the 64-bit
/// domain, the referrer's earnings balance can take the credit, and the
/// extended timer fits the time domain.
pub open spec fn purchase_fits(
    g: GameState,
    p1: PlayerState,
    referrer: Option<PlayerState>,
    n: int,
    now: i64,
) -> bool {
    let applies = bonus_applies(p1, referrer);
    &&& cost_in_range(
        g.total_keys as int,
        n,
        g.base_price_lamports as int,
        g.price_increment_lamports as int,
    )
    &&& (referrer matches Some(r0) ==> (applies && referral_bonus_part(g, n, applies) > 0
        ==> r0.referral_earnings_lamports + referral_bonus_part(g, n, applies) <= u64::MAX))
    &&& g.winner_pot + winner_share_part(g, n, applies) <= u64::MAX
    &&& g.total_dividend_pool + dividend_share_part(g, n, applies) <= u64::MAX
    &&& g.next_round_pot + carry_share_part(g, n, applies) <= u64::MAX
    &&& p1.keys + n <= u64::MAX
    &&& g.total_keys + n <= u64::MAX
    &&& g.pot_lamports + gross_cost(g, n) <= u64::MAX
    &&& now + g.timer_extension_secs <= i64::MAX
}

/// The round record a completed purchase leaves behind: pools, tallies and
/// holdings grown by the waterfall pieces, the buyer recorded as the
/// potential winner, and the timer extended monotonically up to its cap.
pub open spec fn purchased_game(
    game: GameState,
    player: Option<PlayerState>,
    buyer: AccountId,
    n: int,
    applies: bool,
    now: i64,
) -> GameState {
    let g1 = registered_game(game, player);
    GameState {
        winner_pot: (g1.winner_pot + winner_share_part(game, n, applies)) as u64,
        total_dividend_pool: (g1.total_dividend_pool + dividend_share_part(
            game,
            n,
            applies,
        )) as u64,
        next_round_pot: (g1.next_round_pot + carry_share_part(game, n, applies)) as u64,
        total_keys: (g1.total_keys + n) as u64,
        pot_lamports: (g1.pot_lamports + gross_cost(game, n)) as u64,
        last_buyer: buyer,
        timer_end: timer_target(
            now as int,
            g1.timer_extension_secs as int,
            g1.timer_end as int,
            g1.round_start as int,
            g1.max_timer_secs as int,
        ) as i64,
        ..g1
    }
}

/// The error a failing purchase surfaces, in the order the checks run:
/// liveness, registration and binding, cost evaluation, referral
/// consistency, and finally any checked arithmetic step.
pub open spec fn buy_error_spec(
    game: GameState,
    player: Option<PlayerState>,
    referrer: Option<PlayerState>,
    buyer: AccountId,
    n: int,
) -> FomoltError {
    if !game.active {
        FomoltError::GameNotActive
    } else {
        match player {
            None => {
                if referrer matches Some(r) && r.player == buyer {
                    FomoltError::CannotReferSelf
                } else if game.total_players + 1 > u32::MAX {
                    FomoltError::Overflow
                } else {
                    buy_purchase_error_spec(game, player, referrer, buyer, n)
                }
            },
            Some(p) => {
                if p.current_round == 0 {
                    if p.player != buyer {
                        FomoltError::Unauthorized
                    } else if game.total_players + 1 > u32::MAX {
                        FomoltError::Overflow
                    } else {
                        buy_purchase_error_spec(game, player, referrer, buyer, n)
                    }
                } else if p.current_round == game.round {
                    if p.player != buyer {
                        FomoltError::Unauthorized
                    } else {
                        buy_purchase_error_spec(game, player, referrer, buyer, n)
                    }
                } else {
                    FomoltError::MustClaimPreviousRound
                }
            },
        }
    }
}

/// The error of the cost-and-waterfall phase, once registration succeeded:
/// a cost evaluation out of range, an inconsistent referral argument, or a
/// checked arithmetic step that cannot fit.
pub open spec fn buy_purchase_error_spec(
    game: GameState,
    player: Option<PlayerState>,
    referrer: Option<PlayerState>,
    buyer: AccountId,
    n: int,
) -> FomoltError {
    let p1 = registered_player(game, player, referrer, buyer, true);
    if !cost_in_range(
        game.total_keys as int,
        n,
        game.base_price_lamports as int,
        game.price_increment_lamports as int,
    ) {
        FomoltError::Overflow
    } else if !referral_consistent(p1, referrer) {
        FomoltError::ReferrerMismatch
    } else {
        FomoltError::Overflow
    }
}

/// The value movements of one completed purchase, in waterfall order.
#[derive(Clone, Copy, Debug)]
pub struct BuyReceipt {
    /// Gross cost paid by the buyer.
    pub cost: u64,
    /// Protocol fee, moved to the fee wallet.
    pub protocol_fee: u64,
    /// What entered the round's pooled balance (includes the referral bonus).
    pub after_fee: u64,
    /// Referral bonus credited to the referrer's unclaimed balance.
    pub referral_bonus: u64,
    /// The amount the three pool splits were taken from.
    pub pot_contribution: u64,
    /// Amount added to the winner pool.
    pub winner_share: u64,
    /// Amount added to the dividend pool.
    pub dividend_share: u64,
    /// Amount added to the carry-over pool.
    pub carry_share: u64,
}

/// What a purchase request did.
#[derive(Clone, Copy, Debug)]
pub enum BuyOutcome {
    /// The timer had lapsed: the round was marked ended and the purchase
    /// was skipped. A valid, complete outcome — not an error.
    RoundEnded,
    /// A zero-quantity request: identity and referrer binding only.
    Registered,
    /// Keys were bought; the receipt lists every value movement.
    Purchased(BuyReceipt),
}

/// The records a purchase leaves behind and the movements the host must
/// perform: the fee to the fee wallet, the after-fee amount into the
/// round's vault. A `None` record was not touched.
#[derive(Clone, Copy, Debug)]
pub struct BuyResult {
    /// The round record after the operation.
    pub game: GameState,
    /// The buyer's record after the operation, if one was created or touched.
    pub player: Option<PlayerState>,
    /// The referrer's record after the operation, if earnings were credited.
    pub referrer: Option<PlayerState>,
    /// What the request did.
    pub outcome: BuyOutcome,
}

/// Buy `keys_to_buy` keys (or, for a zero quantity, just register) for
/// `buyer` against the live round. The lazy expiry check runs first: a
/// request against a lapsed round merely ends it. The cost follows the
/// round's snapshot bonding curve; the waterfall splits it into protocol
/// fee, referral bonus and the three pool shares; the timer extends
/// monotonically up to its hard cap.
#[verifier::rlimit(50)]
pub fn buy_keys(
    game: &GameState,
    player: Option<PlayerState>,
    referrer_state: Option<PlayerState>,
    buyer: AccountId,
    keys_to_buy: u64,
    is_agent: bool,
    now: i64,
) -> (r: Result<BuyResult, FomoltError>)
    requires
        game.wf(),
        !buyer.spec_is_unset(),
        player matches Some(p) ==> p.wf(),
    ensures
        r is Ok <==> (now >= game.timer_end || {
            &&& game.active
            &&& registration_allowed(*game, player, referrer_state, buyer)
            &&& (keys_to_buy == 0 || {
                let p1 = registered_player(*game, player, referrer_state, buyer, is_agent);
                &&& referral_consistent(p1, referrer_state)
                &&& purchase_fits(*game, p1, referrer_state, keys_to_buy as int, now)
            })
        }),
        now >= game.timer_end ==> r == Ok::<BuyResult, FomoltError>(
            BuyResult {
                game: after_auto_end(*game, now),
                player: None,
                referrer: None,
                outcome: BuyOutcome::RoundEnded,
            },
        ),
        now < game.timer_end && r is Err ==> r == Err::<BuyResult, FomoltError>(
            buy_error_spec(*game, player, referrer_state, buyer, keys_to_buy as int),
        ),
        now < game.timer_end && keys_to_buy == 0 && r is Ok ==> r == Ok::<BuyResult, FomoltError>(
            BuyResult {
                game: registered_game(*game, player),
                player: Some(registered_player(*game, player, referrer_state, buyer, is_agent)),
                referrer: None,
                outcome: BuyOutcome::Registered,
            },
        ),
        now < game.timer_end && keys_to_buy >= 1 ==> (r matches Ok(b) ==> {
            let n = keys_to_buy as int;
            let p1 = registered_player(*game, player, referrer_state, buyer, is_agent);
            let applies = bonus_applies(p1, referrer_state);
            &&& b.game == purchased_game(*game, player, buyer, n, applies, now)
            &&& b.player == Some(PlayerState { keys: (p1.keys + n) as u64, ..p1 })
            &&& (applies && referral_bonus_part(*game, n, applies) > 0 ==> (referrer_state
                matches Some(r0) && b.referrer == Some(
                PlayerState {
                    referral_earnings_lamports: (r0.referral_earnings_lamports
                        + referral_bonus_part(*game, n, applies)) as u64,
                    ..r0
                },
            )))
            &&& (!(applies && referral_bonus_part(*game, n, applies) > 0) ==> b.referrer is None)
            &&& (b.outcome matches BuyOutcome::Purchased(rcpt) && {
                &&& rcpt.cost == gross_cost(*game, n)
                &&& rcpt.protocol_fee == protocol_fee_part(*game, n)
                &&& rcpt.after_fee == after_fee_part(*game, n)
                &&& rcpt.referral_bonus == referral_bonus_part(*game, n, applies)
                &&& rcpt.pot_contribution == pot_contribution_part(*game, n, applies)
                &&& rcpt.winner_share == winner_share_part(*game, n, applies)
                &&& rcpt.dividend_share == dividend_share_part(*game, n, applies)
                &&& rcpt.carry_share == carry_share_part(*game, n, applies)
                &&& rcpt.cost == rcpt.protocol_fee + rcpt.after_fee
                &&& rcpt.after_fee == rcpt.referral_bonus + rcpt.pot_contribution
                &&& rcpt.winner_share + rcpt.dividend_share + rcpt.carry_share
                    <= rcpt.pot_contribution
                &&& rcpt.pot_contribution - rcpt.winner_share - rcpt.dividend_share
                    - rcpt.carry_share < 3
            })
            &&& b.game.wf()
            &&& b.game.active
            &&& b.game.timer_end >= game.timer_end
            &&& b.game.timer_end <= game.round_start + game.max_timer_secs
            &&& (b.referrer matches Some(rr) ==> rr.player != buyer)
        }),
{
    // Lazy expiry: a lapsed round is ended, and the request becomes a
    // state-correcting no-op.
    if now >= game.timer_end {
        let mut g: GameState = *game;
        if g.active {
            g.active = false;
        }
        return Ok(
            BuyResult { game: g, player: None, referrer: None, outcome: BuyOutcome::RoundEnded },
        );
    }
    if !game.active {
        return Err(FomoltError::GameNotActive);
    }
    // Registration and round entry.
    let mut g: GameState = *game;
    let mut p: PlayerState;
    match player {
        None => {
            if let Some(r) = referrer_state {
                if r.player == buyer {
                    return Err(FomoltError::CannotReferSelf);
                }
            }
            p = PlayerState {
                player: buyer,
                keys: 0,
                current_round: g.round,
                claimed_dividends_lamports: 0,
                referrer: match referrer_state {
                    Some(r) => Some(r.player),
                    None => None,
                },
                referral_earnings_lamports: 0,
                claimed_referral_earnings_lamports: 0,
                is_agent: is_agent,
            };
            g.total_players = match g.total_players.checked_add(1) {
                Some(v) => v,
                None => {
                    return Err(FomoltError::Overflow);
                },
            };
        },
        Some(p0) => {
            if p0.current_round == 0 {
                if p0.player != buyer {
                    return Err(FomoltError::Unauthorized);
                }
                p = p0;
                p.keys = 0;
                p.current_round = g.round;
                p.is_agent = is_agent;
                g.total_players = match g.total_players.checked_add(1) {
                    Some(v) => v,
                    None => {
                        return Err(FomoltError::Overflow);
                    },
                };
            } else if p0.current_round == g.round {
                if p0.player != buyer {
                    return Err(FomoltError::Unauthorized);
                }
                p = p0;
                p.is_agent = is_agent;
            } else {
                return Err(FomoltError::MustClaimPreviousRound);
            }
        },
    }
    // A zero-quantity request is registration only.
    if keys_to_buy == 0 {
        return Ok(
            BuyResult { game: g, player: Some(p), referrer: None, outcome: BuyOutcome::Registered },
        );
    }
    // Gross cost from the round's snapshot curve parameters.
    let cost: u64 = match math::calculate_cost(
        g.total_keys,
        keys_to_buy,
        g.base_price_lamports,
        g.price_increment_lamports,
    ) {
        Ok(c) => c,
        Err(e) => {
            return Err(e);
        },
    };
    // Waterfall step one: protocol fee off the top.
    proof {
        crate::math::lemma_bps_share_bounds(cost as int, g.protocol_fee_bps as int);
    }
    let house_fee: u64 = match math::calculate_bps_split(cost, g.protocol_fee_bps) {
        Ok(v) => v,
        Err(e) => {
            return Err(e);
        },
    };
    let after_fee: u64 = cost - house_fee;
    // Waterfall step two: referral bonus from the after-fee amount. A
    // bound referrer's record must be supplied and must match exactly.
    if p.referrer.is_some() && referrer_state.is_none() {
        return Err(FomoltError::ReferrerMismatch);
    }
    let mut referral_bonus: u64 = 0;
    let mut pot_contribution: u64 = after_fee;
    let mut referrer_out: Option<PlayerState> = None;
    if let Some(r0) = referrer_state {
        if let Some(bound) = p.referrer {
            if r0.player != bound {
                return Err(FomoltError::ReferrerMismatch);
            }
            proof {
                crate::math::lemma_bps_share_bounds(after_fee as int, g.referral_bonus_bps as int);
            }
            let bonus: u64 = match math::calculate_bps_split(after_fee, g.referral_bonus_bps) {
                Ok(v) => v,
                Err(e) => {
                    return Err(e);
                },
            };
            if bonus > 0 {
                let mut r1: PlayerState = r0;
                r1.referral_earnings_lamports = match r1.referral_earnings_lamports.checked_add(
                    bonus,
                ) {
                    Some(v) => v,
                    None => {
                        return Err(FomoltError::Overflow);
                    },
                };
                referrer_out = Some(r1);
                referral_bonus = bonus;
                pot_contribution = after_fee - bonus;
            }
        }
    }
    // Waterfall step three: the three pool splits of the pot contribution.
    proof {
        crate::math::lemma_bps_share_bounds(pot_contribution as int, g.winner_bps as int);
        crate::math::lemma_bps_share_bounds(pot_contribution as int, g.dividend_bps as int);
        crate::math::lemma_bps_share_bounds(pot_contribution as int, g.next_round_bps as int);
    }
    let winner_amount: u64 = match math::calculate_bps_split(pot_contribution, g.winner_bps) {
        Ok(v) => v,
        Err(e) => {
            return Err(e);
        },
    };
    let dividend_amount: u64 = match math::calculate_bps_split(pot_contribution, g.dividend_bps) {
        Ok(v) => v,
        Err(e) => {
            return Err(e);
        },
    };
    let next_round_amount: u64 = match math::calculate_bps_split(
        pot_contribution,
        g.next_round_bps,
    ) {
        Ok(v) => v,
        Err(e) => {
            return Err(e);
        },
    };
    proof {
        crate::math::lemma_pot_split_bounds(
            pot_contribution as int,
            g.winner_bps as int,
            g.dividend_bps as int,
            g.next_round_bps as int,
        );
    }
    // Grow the pools, tallies and holdings.
    g.winner_pot = match g.winner_pot.checked_add(winner_amount) {
        Some(v) => v,
        None => {
            return Err(FomoltError::Overflow);
        },
    };
    g.total_dividend_pool = match g.total_dividend_pool.checked_add(dividend_amount) {
        Some(v) => v,
        None => {
            return Err(FomoltError::Overflow);
        },
    };
    g.next_round_pot = match g.next_round_pot.checked_add(next_round_amount) {
        Some(v) => v,
        None => {
            return Err(FomoltError::Overflow);
        },
    };
    p.keys = match p.keys.checked_add(keys_to_buy) {
        Some(v) => v,
        None => {
            return Err(FomoltError::Overflow);
        },
    };
    g.total_keys = match g.total_keys.checked_add(keys_to_buy) {
        Some(v) => v,
        None => {
            return Err(FomoltError::Overflow);
        },
    };
    g.pot_lamports = match g.pot_lamports.checked_add(cost) {
        Some(v) => v,
        None => {
            return Err(FomoltError::Overflow);
        },
    };
    g.last_buyer = buyer;
    // Extend the timer: it never decreases and never passes its hard cap.
    g.timer_end = match math::calculate_timer_extension(
        now,
        g.timer_extension_secs,
        g.timer_end,
        g.round_start,
        g.max_timer_secs,
    ) {
        Ok(t) => t,
        Err(e) => {
            return Err(e);
        },
    };
    Ok(
        BuyResult {
            game: g,
            player: Some(p),
            referrer: referrer_out,
            outcome: BuyOutcome::Purchased(
                BuyReceipt {
                    cost: cost,
                    protocol_fee: house_fee,
                    after_fee: after_fee,
                    referral_bonus: referral_bonus,
                    pot_contribution: pot_contribution,
                    winner_share: winner_amount,
                    dividend_share: dividend_amount,
                    carry_share: next_round_amount,
                },
            ),
        },
    )
}

/// The outcome of a claim: the round and participant records as the claim
/// leaves them, and the payout the host must move from the round's vault
/// to the participant.
#[derive(Clone, Copy, Debug)]
pub struct ClaimResult {
    /// The round record after the claim.
    pub game: GameState,
    /// The participant record after the claim: settled, holdings zeroed.
    pub player: PlayerState,
    /// The proportional dividend part of the payout.
    pub dividend_lamports: u64,
    /// The winner-prize part of the payout (zero for non-winners).
    pub winner_lamports: u64,
    /// The total payout to move from the vault to the participant.
    pub total_lamports: u64,
}

/// Winner eligibility of a claim by `p` against round `g`: `p` is the
/// recorded last buyer and the prize is still unclaimed.
pub open spec fn is_winner(g: GameState, p: PlayerState) -> bool {
    p.player == g.last_buyer && !g.winner_claimed
}

/// The winner-prize part of a claim by `p` against ended round `g`: the
/// whole winner pool if eligible, else zero.
pub open spec fn winner_payout(g: GameState, p: PlayerState) -> int {
    if is_winner(g, p) {
        g.winner_pot as int
    } else {
        0
    }
}

/// The total payout a claim by `p` against round `g` yields: the
/// proportional dividend share plus the winner prize where eligible. The
/// dividend part reads the round's pool and key totals exactly as
/// recorded — claims never decrement them.
pub open spec fn claim_payout(g: GameState, p: PlayerState) -> int {
    dividend_share(p.keys as int, g.total_dividend_pool as int, g.total_keys as int)
        + winner_payout(g, p)
}

/// The round record a successful claim by `p` leaves behind: ended (the
/// lazy expiry ran first), with the winner-claimed flag set if `p` was the
/// eligible winner. Pools, key totals and the recorded last buyer are
/// untouched.
pub open spec fn game_after_claim(g: GameState, p: PlayerState, now: i64) -> GameState {
    GameState { winner_claimed: g.winner_claimed || is_winner(g, p), ..after_auto_end(g, now) }
}

/// The participant record a successful claim leaves behind: settled —
/// holdings zeroed and membership reset to the sentinel — with the payout
/// added to the lifetime-claimed total. Settling is the sole double-claim
/// guard.
pub open spec fn player_after_claim(g: GameState, p: PlayerState) -> PlayerState {
    PlayerState {
        keys: 0,
        current_round: 0,
        claimed_dividends_lamports: (p.claimed_dividends_lamports + dividend_share(
            p.keys as int,
            g.total_dividend_pool as int,
            g.total_keys as int,
        )) as u64,
        ..p
    }
}

/// Order-independence of claims: one participant's claim never changes
/// what another participant's claim pays. The dividend part depends only
/// on the claimant's holdings and the round's frozen pool and key totals;
/// the winner part belongs to the one recorded last buyer, whom no other
/// claim can dispossess. Hence, for a fixed set of purchases, the multiset
/// of payouts is the same in every claim order.
pub proof fn lemma_claim_order_independent(
    g: GameState,
    first: PlayerState,
    second: PlayerState,
    now: i64,
)
    requires
        first.player != second.player,
    ensures
        claim_payout(game_after_claim(g, first, now), second) == claim_payout(g, second),
{
}

/// Double-claim rejection: a successful claim leaves the claimant with the
/// settled sentinel as membership, and no well-formed round is numbered 0,
/// so a second claim against any well-formed round fails the membership
/// check of [`claim`] with `PlayerNotInRound`.
pub proof fn lemma_double_claim_rejected(g: GameState, g2: GameState, p: PlayerState)
    requires
        g2.wf(),
    ensures
        player_after_claim(g, p).current_round != g2.round,
{
}

/// Claim dividends and, for the recorded last buyer, the winner prize.
/// Only an ended round accepts claims, and only from a current, unsettled
/// member; the round's pool and key totals are left untouched, which is
/// what makes each share independent of claim order. Settling the record
/// (holdings zeroed, membership reset to the sentinel) is the sole
/// double-claim guard.
pub fn claim(game: &GameState, player: &PlayerState, vault_lamports: u64, now: i64) -> (r: Result<
    ClaimResult,
    FomoltError,
>)
    ensures
        r is Ok <==> {
            &&& player.current_round == game.round
            &&& !(game.active && now < game.timer_end)
            &&& dividend_share(
                player.keys as int,
                game.total_dividend_pool as int,
                game.total_keys as int,
            ) <= u64::MAX
            &&& dividend_share(
                player.keys as int,
                game.total_dividend_pool as int,
                game.total_keys as int,
            ) + winner_payout(*game, *player) <= u64::MAX
            &&& dividend_share(
                player.keys as int,
                game.total_dividend_pool as int,
                game.total_keys as int,
            ) + winner_payout(*game, *player) > 0
            &&& dividend_share(
                player.keys as int,
                game.total_dividend_pool as int,
                game.total_keys as int,
            ) + winner_payout(*game, *player) <= vault_lamports
            &&& player.claimed_dividends_lamports + dividend_share(
                player.keys as int,
                game.total_dividend_pool as int,
                game.total_keys as int,
            ) <= u64::MAX
        },
        r matches Ok(c) ==> {
            let div = dividend_share(
                player.keys as int,
                game.total_dividend_pool as int,
                game.total_keys as int,
            );
            let win = winner_payout(*game, *player);
            &&& c.dividend_lamports == div
            &&& c.winner_lamports == win
            &&& c.total_lamports == div + win
            &&& c.game == game_after_claim(*game, *player, now)
            &&& c.player == player_after_claim(*game, *player)
            &&& c.total_lamports == claim_payout(*game, *player)
            &&& c.total_lamports <= vault_lamports
            &&& !c.game.active
            &&& c.game.total_dividend_pool == game.total_dividend_pool
            &&& c.game.total_keys == game.total_keys
            &&& c.game.winner_pot == game.winner_pot
            &&& c.game.last_buyer == game.last_buyer
        },
        player.current_round != game.round ==> r == Err::<ClaimResult, FomoltError>(
            FomoltError::PlayerNotInRound,
        ),
        player.current_round == game.round && game.active && now < game.timer_end ==> r
            == Err::<ClaimResult, FomoltError>(FomoltError::GameStillActive),
        r == Err::<ClaimResult, FomoltError>(FomoltError::InsufficientFunds) ==> dividend_share(
            player.keys as int,
            game.total_dividend_pool as int,
            game.total_keys as int,
        ) + winner_payout(*game, *player) > vault_lamports,
        player.current_round == game.round && !(game.active && now < game.timer_end)
            && claim_payout(*game, *player) == 0 ==> r == Err::<ClaimResult, FomoltError>(
            FomoltError::NothingToClaim,
        ),
        ({
            let div = dividend_share(
                player.keys as int,
                game.total_dividend_pool as int,
                game.total_keys as int,
            );
            let win = winner_payout(*game, *player);
            &&& player.current_round == game.round
            &&& !(game.active && now < game.timer_end)
            &&& div <= u64::MAX
            &&& div + win <= u64::MAX
            &&& div + win > 0
            &&& div + win > vault_lamports
        }) ==> r == Err::<ClaimResult, FomoltError>(FomoltError::InsufficientFunds),
        ({
            let div = dividend_share(
                player.keys as int,
                game.total_dividend_pool as int,
                game.total_keys as int,
            );
            let win = winner_payout(*game, *player);
            &&& player.current_round == game.round
            &&& !(game.active && now < game.timer_end)
            &&& (div + win > u64::MAX || (div + win > 0 && div + win <= vault_lamports
                && player.claimed_dividends_lamports + div > u64::MAX))
        }) ==> r == Err::<ClaimResult, FomoltError>(FomoltError::Overflow),
{
    if player.current_round != game.round {
        return Err(FomoltError::PlayerNotInRound);
    }
    let mut g: GameState = *game;
    if now >= g.timer_end && g.active {
        g.active = false;
    }
    if g.active {
        return Err(FomoltError::GameStillActive);
    }
    let dividend: u64 = match math::calculate_dividend_share(
        player.keys,
        g.total_dividend_pool,
        g.total_keys,
    ) {
        Ok(v) => v,
        Err(e) => {
            return Err(e);
        },
    };
    let is_winner: bool = player.player == g.last_buyer && !g.winner_claimed;
    let winner_amount: u64 = if is_winner {
        g.winner_pot
    } else {
        0
    };
    let total_payout: u64 = match dividend.checked_add(winner_amount) {
        Some(v) => v,
        None => {
            return Err(FomoltError::Overflow);
        },
    };
    if total_payout == 0 {
        return Err(FomoltError::NothingToClaim);
    }
    if vault_lamports < total_payout {
        return Err(FomoltError::InsufficientFunds);
    }
    let new_claimed: u64 = match player.claimed_dividends_lamports.checked_add(dividend) {
        Some(v) => v,
        None => {
            return Err(FomoltError::Overflow);
        },
    };
    if is_winner {
        g.winner_claimed = true;
    }
    let mut p: PlayerState = *player;
    p.claimed_dividends_lamports = new_claimed;
    p.keys = 0;
    p.current_round = 0;
    Ok(ClaimResult {
        game: g,
        player: p,
        dividend_lamports: dividend,
        winner_lamports: winner_amount,
        total_lamports: total_payout,
    })
}

/// The outcome of a referral-earnings claim: the records as the claim
/// leaves them and the amount the host must move from the round's vault
/// to the participant.
#[derive(Clone, Copy, Debug)]
pub struct ReferralClaimResult {
    /// The round record after the claim (only the lazy expiry may change it).
    pub game: GameState,
    /// The participant record after the claim: the unclaimed balance moved
    /// into the lifetime-claimed total.
    pub player: PlayerState,
    /// Lamports to move from the vault to the participant.
    pub amount: u64,
}

/// Claim accrued referral earnings. Independent of the round lifecycle
/// and of the dividend claim: it may be invoked at any time the balance is
/// non-zero, and repeatedly as earnings re-accrue.
pub fn claim_referral_earnings(
    game: &GameState,
    player: &PlayerState,
    vault_lamports: u64,
    now: i64,
) -> (r: Result<ReferralClaimResult, FomoltError>)
    ensures
        r is Ok <==> {
            &&& player.referral_earnings_lamports > 0
            &&& player.referral_earnings_lamports <= vault_lamports
            &&& player.claimed_referral_earnings_lamports + player.referral_earnings_lamports
                <= u64::MAX
        },
        r matches Ok(c) ==> {
            &&& c.amount == player.referral_earnings_lamports
            &&& c.game == after_auto_end(*game, now)
            &&& c.player == (PlayerState {
                referral_earnings_lamports: 0,
                claimed_referral_earnings_lamports: (player.claimed_referral_earnings_lamports
                    + player.referral_earnings_lamports) as u64,
                ..*player
            })
            &&& c.amount <= vault_lamports
        },
        player.referral_earnings_lamports == 0 ==> r == Err::<ReferralClaimResult, FomoltError>(
            FomoltError::NoReferralEarnings,
        ),
        player.referral_earnings_lamports > vault_lamports ==> r == Err::<
            ReferralClaimResult,
            FomoltError,
        >(FomoltError::InsufficientFunds),
        r == Err::<ReferralClaimResult, FomoltError>(FomoltError::InsufficientFunds) ==> player
            .referral_earnings_lamports > vault_lamports,
        player.referral_earnings_lamports > 0 && player.referral_earnings_lamports
            <= vault_lamports && player.claimed_referral_earnings_lamports
            + player.referral_earnings_lamports > u64::MAX ==> r == Err::<
            ReferralClaimResult,
            FomoltError,
        >(FomoltError::Overflow),
{
    let mut g: GameState = *game;
    if now >= g.timer_end && g.active {
        g.active = false;
    }
    let amount: u64 = player.referral_earnings_lamports;
    if amount == 0 {
        return Err(FomoltError::NoReferralEarnings);
    }
    if vault_lamports < amount {
        return Err(FomoltError::InsufficientFunds);
    }
    let new_claimed: u64 = match player.claimed_referral_earnings_lamports.checked_add(amount) {
        Some(v) => v,
        None => {
            return Err(FomoltError::Overflow);
        },
    };
    let mut p: PlayerState = *player;
    p.claimed_referral_earnings_lamports = new_claimed;
    p.referral_earnings_lamports = 0;
    Ok(ReferralClaimResult { game: g, player: p, amount: amount })
}

} // verus!
