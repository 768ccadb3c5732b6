//! Pure arithmetic of the engine: the linear bonding curve, basis-point
//! splits, proportional dividend shares and the monotonic timer rule.
//!
//! Every intermediate product and sum is computed in a widened integer
//! domain and checked; no operation wraps. Overflow surfaces as
//! [`FomoltError::Overflow`], never as a wrapped value.

use vstd::prelude::*;
use vstd::arithmetic::div_mod::{
    lemma_div_is_ordered, lemma_div_multiples_vanish, lemma_fundamental_div_mod,
    lemma_mod_division_less_than_divisor,
};
use vstd::arithmetic::mul::{lemma_mul_inequality, lemma_mul_is_commutative, lemma_mul_nonnegative};

use crate::errors::FomoltError;

verus! {

/// Basis-point denominator: rates are integer fractions of 10,000.
pub const BPS_DENOMINATOR: u64 = 10_000;

/// A basis-point share: `floor(amount * bps / 10_000)`.
pub open spec fn bps_share(amount: int, bps: int) -> int {
    amount * bps / 10_000
}

/// Twice the sum of the arithmetic series of `n` supply terms starting at
/// `supply`: `n * (2*supply + n - 1)`. Always even, so the curve cost
/// divides it exactly by two.
pub open spec fn series_numerator(supply: int, n: int) -> int {
    n * (2 * supply + n - 1)
}

/// Total cost of `n` keys bought at current supply `supply` under the
/// linear bonding curve: the sum of an arithmetic sequence whose first
/// term is `base + inc * supply` and whose step is `inc`.
pub open spec fn curve_cost(supply: int, n: int, base: int, inc: int) -> int {
    n * base + inc * series_numerator(supply, n) / 2
}

/// When the pricing function accepts a request: the quantity must be
/// positive — a zero quantity is an error at this layer — no 128-bit
/// intermediate may overflow, and the result must fit the 64-bit domain.
pub open spec fn cost_in_range(supply: int, n: int, base: int, inc: int) -> bool {
    &&& n >= 1
    &&& series_numerator(supply, n) <= u128::MAX
    &&& inc * series_numerator(supply, n) <= u128::MAX
    &&& curve_cost(supply, n, base, inc) <= u64::MAX
}

/// A participant's proportional dividend share at round end:
/// `floor(keys * pool / total_keys)`, and zero if either `keys` or
/// `total_keys` is zero.
pub open spec fn dividend_share(keys: int, pool: int, total_keys: int) -> int {
    if total_keys == 0 || keys == 0 {
        0
    } else {
        keys * pool / total_keys
    }
}

/// The timer value after a purchase at `now`: extend to `now + ext`, but
/// never below the current deadline, and never past `start + max`.
pub open spec fn timer_target(now: int, ext: int, current_end: int, start: int, max: int) -> int {
    let extended = if now + ext >= current_end {
        now + ext
    } else {
        current_end
    };
    if extended <= start + max {
        extended
    } else {
        start + max
    }
}

/// Calculate the total cost for buying `n` keys starting from supply `k`,
/// via the closed-form series formula with 128-bit intermediates:
/// `cost = n * base_price + price_increment * n * (2k + n - 1) / 2`.
///
/// A zero quantity is an error at this layer: callers must special-case a
/// zero-quantity, registration-only request before reaching the cost path.
pub fn calculate_cost(
    current_supply: u64,
    keys_to_buy: u64,
    base_price: u64,
    price_increment: u64,
) -> (r: Result<u64, FomoltError>)
    ensures
        r is Ok <==> cost_in_range(
            current_supply as int,
            keys_to_buy as int,
            base_price as int,
            price_increment as int,
        ),
        r matches Ok(c) ==> c == curve_cost(
            current_supply as int,
            keys_to_buy as int,
            base_price as int,
            price_increment as int,
        ),
        keys_to_buy == 0 ==> r == Err::<u64, FomoltError>(FomoltError::NoKeysToBuy),
        keys_to_buy >= 1 && r is Err ==> r == Err::<u64, FomoltError>(FomoltError::Overflow),
{
    let n = keys_to_buy as u128;
    let k = current_supply as u128;
    let base = base_price as u128;
    let inc = price_increment as u128;

    if n == 0 {
        return Err(FomoltError::NoKeysToBuy);
    }
    proof {
        assert(n * base <= u128::MAX) by (nonlinear_arith)
            requires
                n <= u64::MAX,
                base <= u64::MAX;
    }
    let base_cost: u128 = n * base;
    let odd_term: u128 = k * 2 + n - 1;
    let series_num: u128 = match n.checked_mul(odd_term) {
        Some(v) => v,
        None => {
            return Err(FomoltError::Overflow);
        },
    };
    let series_cost: u128 = match inc.checked_mul(series_num) {
        Some(v) => v / 2,
        None => {
            return Err(FomoltError::Overflow);
        },
    };
    let total: u128 = match base_cost.checked_add(series_cost) {
        Some(v) => v,
        None => {
            return Err(FomoltError::Overflow);
        },
    };
    if total > u64::MAX as u128 {
        Err(FomoltError::Overflow)
    } else {
        Ok(total as u64)
    }
}

/// Calculate a BPS-based revenue split: `amount * bps / 10_000`, widened
/// to 128 bits and truncated back with a range check.
pub fn calculate_bps_split(amount: u64, bps: u64) -> (r: Result<u64, FomoltError>)
    ensures
        r is Ok <==> bps_share(amount as int, bps as int) <= u64::MAX,
        r matches Ok(v) ==> v == bps_share(amount as int, bps as int),
        r is Err ==> r == Err::<u64, FomoltError>(FomoltError::Overflow),
{
    proof {
        assert((amount as int) * (bps as int) <= u128::MAX) by (nonlinear_arith)
            requires
                amount <= u64::MAX,
                bps <= u64::MAX;
    }
    let wide: u128 = (amount as u128) * (bps as u128);
    let q: u128 = wide / (BPS_DENOMINATOR as u128);
    if q > u64::MAX as u128 {
        Err(FomoltError::Overflow)
    } else {
        Ok(q as u64)
    }
}

/// Calculate a participant's proportional dividend share at round end:
/// `(player_keys * total_dividend_pool) / total_keys`, zero when either
/// the participant's holdings or the round's key count is zero.
pub fn calculate_dividend_share(
    player_keys: u64,
    total_dividend_pool: u64,
    total_keys: u64,
) -> (r: Result<u64, FomoltError>)
    ensures
        r is Ok <==> dividend_share(
            player_keys as int,
            total_dividend_pool as int,
            total_keys as int,
        ) <= u64::MAX,
        r matches Ok(v) ==> v == dividend_share(
            player_keys as int,
            total_dividend_pool as int,
            total_keys as int,
        ),
        r is Err ==> r == Err::<u64, FomoltError>(FomoltError::Overflow),
{
    if total_keys == 0 || player_keys == 0 {
        return Ok(0);
    }
    proof {
        assert((player_keys as int) * (total_dividend_pool as int) <= u128::MAX)
            by (nonlinear_arith)
            requires
                player_keys <= u64::MAX,
                total_dividend_pool <= u64::MAX;
    }
    let wide: u128 = (player_keys as u128) * (total_dividend_pool as u128);
    let q: u128 = wide / (total_keys as u128);
    if q > u64::MAX as u128 {
        Err(FomoltError::Overflow)
    } else {
        Ok(q as u64)
    }
}

/// Calculate the new timer deadline after a key purchase. The timer only
/// ever moves forward (never below the current deadline) and is hard-capped
/// at `round_start + max_timer_secs`.
pub fn calculate_timer_extension(
    current_time: i64,
    extension_secs: i64,
    current_timer_end: i64,
    round_start: i64,
    max_timer_secs: i64,
) -> (r: Result<i64, FomoltError>)
    ensures
        r is Ok <==> {
            &&& i64::MIN <= current_time + extension_secs <= i64::MAX
            &&& i64::MIN <= round_start + max_timer_secs <= i64::MAX
        },
        r matches Ok(t) ==> t == timer_target(
            current_time as int,
            extension_secs as int,
            current_timer_end as int,
            round_start as int,
            max_timer_secs as int,
        ),
        r is Err ==> r == Err::<i64, FomoltError>(FomoltError::Overflow),
{
    let new_timer: i64 = match current_time.checked_add(extension_secs) {
        Some(v) => v,
        None => {
            return Err(FomoltError::Overflow);
        },
    };
    let max_timer: i64 = match round_start.checked_add(max_timer_secs) {
        Some(v) => v,
        None => {
            return Err(FomoltError::Overflow);
        },
    };
    let extended: i64 = if new_timer >= current_timer_end {
        new_timer
    } else {
        current_timer_end
    };
    if extended <= max_timer {
        Ok(extended)
    } else {
        Ok(max_timer)
    }
}

/// Validate that the three pot-split rates sum to exactly 10,000 basis
/// points. The protocol fee and referral bonus rates are separate and not
/// part of this sum.
pub fn validate_bps_sum(winner_bps: u64, dividend_bps: u64, next_round_bps: u64) -> (r: Result<
    (),
    FomoltError,
>)
    ensures
        r is Ok <==> winner_bps + dividend_bps + next_round_bps == 10_000,
        r is Err ==> (if winner_bps + dividend_bps + next_round_bps > u64::MAX {
            r == Err::<(), FomoltError>(FomoltError::Overflow)
        } else {
            r == Err::<(), FomoltError>(FomoltError::InvalidConfig)
        }),
{
    let partial: u64 = match winner_bps.checked_add(dividend_bps) {
        Some(v) => v,
        None => {
            return Err(FomoltError::Overflow);
        },
    };
    let sum: u64 = match partial.checked_add(next_round_bps) {
        Some(v) => v,
        None => {
            return Err(FomoltError::Overflow);
        },
    };
    if sum == BPS_DENOMINATOR {
        Ok(())
    } else {
        Err(FomoltError::InvalidConfig)
    }
}

/// The series numerator is always even: `n*(2k + n - 1)` has either an even
/// `n` or an even second factor.
proof fn lemma_series_numerator_even(supply: int, n: int)
    ensures
        series_numerator(supply, n) % 2 == 0,
{
    lemma_fundamental_div_mod(n, 2);
    let q = n / 2;
    let r = n % 2;
    lemma_mod_division_less_than_divisor(n, 2);
    if r == 0 {
        assert(n * (2 * supply + n - 1) == 2 * (q * (2 * supply + n - 1))) by (nonlinear_arith)
            requires
                n == 2 * q;
        assert(2 * (q * (2 * supply + n - 1)) % 2 == 0) by (nonlinear_arith);
    } else {
        assert(n * (2 * supply + n - 1) == 2 * (n * (supply + q))) by (nonlinear_arith)
            requires
                n == 2 * q + 1;
        assert(2 * (n * (supply + q)) % 2 == 0) by (nonlinear_arith);
    }
}

/// Halving distributes over a sum of two even numbers.
proof fn lemma_even_halves_add(x: int, y: int)
    requires
        x % 2 == 0,
        y % 2 == 0,
    ensures
        (x + y) / 2 == x / 2 + y / 2,
{
    lemma_fundamental_div_mod(x, 2);
    lemma_fundamental_div_mod(y, 2);
    assert(x + y == 2 * (x / 2 + y / 2));
    lemma_div_multiples_vanish(x / 2 + y / 2, 2);
}

/// Additivity of the bonding curve: buying `a + b` keys at once costs
/// exactly as much as buying `a` keys and then `b` keys, for any positive
/// split. This holds exactly, not approximately.
pub proof fn lemma_cost_additive(supply: int, a: int, b: int, base: int, inc: int)
    requires
        a >= 1,
        b >= 1,
    ensures
        curve_cost(supply, a + b, base, inc) == curve_cost(supply, a, base, inc) + curve_cost(
            supply + a,
            b,
            base,
            inc,
        ),
{
    let na = series_numerator(supply, a);
    let nb = series_numerator(supply + a, b);
    let nab = series_numerator(supply, a + b);
    assert(nab == na + nb) by (nonlinear_arith)
        requires
            na == a * (2 * supply + a - 1),
            nb == b * (2 * (supply + a) + b - 1),
            nab == (a + b) * (2 * supply + (a + b) - 1);
    assert((a + b) * base == a * base + b * base) by (nonlinear_arith);
    assert(inc * nab == inc * na + inc * nb) by (nonlinear_arith)
        requires
            nab == na + nb;
    lemma_series_numerator_even(supply, a);
    lemma_series_numerator_even(supply + a, b);
    assert(inc * na % 2 == 0 && inc * nb % 2 == 0) by (nonlinear_arith)
        requires
            na % 2 == 0,
            nb % 2 == 0;
    lemma_even_halves_add(inc * na, inc * nb);
}

/// A basis-point share of a non-negative amount at a rate of at most
/// 10,000 bps stays between zero and the amount itself.
pub proof fn lemma_bps_share_bounds(amount: int, bps: int)
    requires
        amount >= 0,
        0 <= bps <= 10_000,
    ensures
        0 <= bps_share(amount, bps) <= amount,
{
    lemma_mul_nonnegative(amount, bps);
    assert(bps_share(amount, bps) >= 0) by {
        lemma_div_is_ordered(0, amount * bps, 10_000);
    }
    lemma_mul_inequality(bps, 10_000, amount);
    lemma_mul_is_commutative(amount, bps);
    lemma_mul_is_commutative(amount, 10_000);
    lemma_div_is_ordered(amount * bps, amount * 10_000, 10_000);
    lemma_div_multiples_vanish(amount, 10_000);
    assert(amount * 10_000 == 10_000 * amount) by (nonlinear_arith);
}

/// Integer division by a positive divisor is superadditive: the sum of two
/// floors never exceeds the floor of the sum.
pub proof fn lemma_div_sum_le(x: int, y: int, t: int)
    requires
        t >= 1,
        x >= 0,
        y >= 0,
    ensures
        x / t + y / t <= (x + y) / t,
{
    lemma_fundamental_div_mod(x, t);
    lemma_fundamental_div_mod(y, t);
    lemma_fundamental_div_mod(x + y, t);
    lemma_mod_division_less_than_divisor(x, t);
    lemma_mod_division_less_than_divisor(y, t);
    lemma_mod_division_less_than_divisor(x + y, t);
    let qx = x / t;
    let qy = y / t;
    let qs = (x + y) / t;
    assert(t * qs + (x + y) % t == t * qx + t * qy + x % t + y % t);
    assert(t * qs - t * qx - t * qy == x % t + y % t - (x + y) % t);
    assert(t * (qs - qx - qy) == t * qs - t * qx - t * qy) by (nonlinear_arith);
    assert(t * (qs - qx - qy) > -t);
    assert(qs - qx - qy >= 0) by (nonlinear_arith)
        requires
            t >= 1,
            t * (qs - qx - qy) > -t;
}

/// A proportional share of a pool taken with `keys <= total` never exceeds
/// the pool.
pub proof fn lemma_dividend_share_le_pool(keys: int, pool: int, total: int)
    requires
        0 <= keys <= total,
        pool >= 0,
    ensures
        0 <= dividend_share(keys, pool, total) <= pool,
{
    if total == 0 || keys == 0 {
    } else {
        lemma_mul_nonnegative(keys, pool);
        lemma_div_is_ordered(0, keys * pool, total);
        lemma_mul_inequality(keys, total, pool);
        lemma_div_is_ordered(keys * pool, total * pool, total);
        lemma_mul_is_commutative(total, pool);
        lemma_div_multiples_vanish(pool, total);
        assert(total * pool == pool * total) by (nonlinear_arith);
    }
}

/// The three pot splits of a pool at rates summing to exactly 10,000 bps
/// recover the pool up to strictly less than three units of rounding dust.
pub proof fn lemma_pot_split_bounds(pot: int, w: int, d: int, c: int)
    requires
        pot >= 0,
        w >= 0,
        d >= 0,
        c >= 0,
        w + d + c == 10_000,
    ensures
        bps_share(pot, w) + bps_share(pot, d) + bps_share(pot, c) <= pot,
        pot - bps_share(pot, w) - bps_share(pot, d) - bps_share(pot, c) < 3,
{
    let pw = pot * w;
    let pd = pot * d;
    let pc = pot * c;
    lemma_mul_nonnegative(pot, w);
    lemma_mul_nonnegative(pot, d);
    lemma_mul_nonnegative(pot, c);
    assert(pw + pd + pc == pot * 10_000) by (nonlinear_arith)
        requires
            pw == pot * w,
            pd == pot * d,
            pc == pot * c,
            w + d + c == 10_000;
    lemma_div_sum_le(pw, pd, 10_000);
    lemma_div_sum_le(pw + pd, pc, 10_000);
    lemma_div_is_ordered(pw / 10_000 * 10_000, pw, 10_000);
    assert((pot * 10_000) / 10_000 == pot) by {
        lemma_mul_is_commutative(pot, 10_000);
        lemma_div_multiples_vanish(pot, 10_000);
    }
    lemma_fundamental_div_mod(pw, 10_000);
    lemma_fundamental_div_mod(pd, 10_000);
    lemma_fundamental_div_mod(pc, 10_000);
    lemma_mod_division_less_than_divisor(pw, 10_000);
    lemma_mod_division_less_than_divisor(pd, 10_000);
    lemma_mod_division_less_than_divisor(pc, 10_000);
    let qw = pw / 10_000;
    let qd = pd / 10_000;
    let qc = pc / 10_000;
    assert(10_000 * qw + 10_000 * qd + 10_000 * qc > pw + pd + pc - 3 * 10_000);
    assert(10_000 * (qw + qd + qc) == 10_000 * qw + 10_000 * qd + 10_000 * qc)
        by (nonlinear_arith);
    assert(10_000 * (qw + qd + qc) > 10_000 * (pot - 3)) by (nonlinear_arith)
        requires
            10_000 * (qw + qd + qc) > pw + pd + pc - 3 * 10_000,
            pw + pd + pc == pot * 10_000;
    assert(qw + qd + qc > pot - 3) by (nonlinear_arith)
        requires
            10_000 * (qw + qd + qc) > 10_000 * (pot - 3);
}

} // verus!
