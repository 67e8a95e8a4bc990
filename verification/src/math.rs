//! Bonding-curve pricing and percentage arithmetic.
use vstd::prelude::*;
use vstd::arithmetic::div_mod::{lemma_div_is_ordered, lemma_fundamental_div_mod, lemma_fundamental_div_mod_converse};

verus! {

/// Number of uluna in one LUNA.
pub const ULUNA_PER_LUNA: u128 = 1_000_000;

/// Divisor of the curve: the `i`-th membership costs `i * i / 16_000` LUNA.
pub const CURVE_DIVISOR: u128 = 16_000;

/// `1 * 1 + 2 * 2 + ... + n * n`.
pub open spec fn squares_up_to(n: nat) -> nat
    decreases n,
{
    if n == 0 {
        0
    } else {
        n * n + squares_up_to((n - 1) as nat)
    }
}

/// `start * start + (start + 1) * (start + 1) + ... ` over `count` consecutive numbers:
/// the curve weight of `count` memberships numbered from `start` on.
pub open spec fn squares_from(start: nat, count: nat) -> nat
    decreases count,
{
    if count == 0 {
        0
    } else {
        {
            let last = (start + count - 1) as nat;
            squares_from(start, (count - 1) as nat) + last * last
        }
    }
}

/// Price in uluna of `amount` memberships when `supply` are already issued:
/// membership number `i` (counting from 1) costs `i * i / 16_000` LUNA, the sum is taken
/// over the memberships numbered `supply ..= supply + amount - 1`, and the total is
/// rounded down once, at the end.
pub open spec fn price_spec(supply: nat, amount: nat) -> nat {
    squares_from(supply, amount) * 1_000_000 / 16_000
}

/// The product `n * (n + 1) * (2 * n + 1)`, six times the sum of the first `n` squares.
pub open spec fn six_squares(n: nat) -> nat {
    n * (n + 1) * (2 * n + 1)
}

/// When `calculate_price` runs without an arithmetic overflow: the supply is at
/// least one (the code subtracts one from it), and the two products it forms stay
/// within `u128`.
pub open spec fn price_computable(supply: nat, amount: nat) -> bool {
    &&& supply >= 1
    &&& six_squares((supply - 1 + amount) as nat) <= u128::MAX
    &&& squares_from(supply, amount) * 1_000_000 <= u128::MAX
}

proof fn lemma_six_squares_closed(n: nat)
    ensures
        six_squares(n) == 6 * squares_up_to(n),
    decreases n,
{
    if n > 0 {
        let m = (n - 1) as nat;
        lemma_six_squares_closed(m);
        assert(six_squares(n) == six_squares(m) + 6 * (n * n)) by (nonlinear_arith)
            requires
                n == m + 1,
                six_squares(n) == n * (n + 1) * (2 * n + 1),
                six_squares(m) == m * (m + 1) * (2 * m + 1),
        ;
    }
}

proof fn lemma_squares_from_split(start: nat, count: nat)
    ensures
        squares_up_to(start + count) == squares_up_to(start) + squares_from((start + 1) as nat, count),
    decreases count,
{
    if count > 0 {
        lemma_squares_from_split(start, (count - 1) as nat);
    }
}

proof fn lemma_six_squares_monotone(m: nat, n: nat)
    requires
        m <= n,
    ensures
        six_squares(m) <= six_squares(n),
{
    assert(m * (m + 1) * (2 * m + 1) <= n * (n + 1) * (2 * n + 1)) by (nonlinear_arith)
        requires
            m <= n,
    ;
}

proof fn lemma_squares_from_concat(start: nat, first: nat, second: nat)
    ensures
        squares_from(start, first + second) == squares_from(start, first) + squares_from(
            start + first,
            second,
        ),
    decreases second,
{
    if second > 0 {
        lemma_squares_from_concat(start, first, (second - 1) as nat);
        assert((first + second - 1) as nat == first + (second - 1) as nat);
    }
}

proof fn lemma_squares_from_shift(start: nat, count: nat)
    ensures
        squares_from(start, count) <= squares_from(start + 1, count),
    decreases count,
{
    if count > 0 {
        lemma_squares_from_shift(start, (count - 1) as nat);
        let x = (start + count - 1) as nat;
        let y = (start + 1 + count - 1) as nat;
        assert(x * x <= y * y) by (nonlinear_arith)
            requires
                x <= y,
        ;
    }
}

/// Floor division splits over a sum with an error of at most one.
proof fn lemma_div_split(x: nat, y: nat, d: nat)
    requires
        d > 0,
    ensures
        x / d + y / d <= (x + y) / d,
        (x + y) / d <= x / d + y / d + 1,
{
    let xi = x as int;
    let yi = y as int;
    let di = d as int;
    lemma_fundamental_div_mod(xi, di);
    lemma_fundamental_div_mod(yi, di);
    let q1 = xi / di;
    let r1 = xi % di;
    let q2 = yi / di;
    let r2 = yi % di;
    assert(0 <= r1 < di && 0 <= r2 < di) by {
        vstd::arithmetic::div_mod::lemma_mod_bound(xi, di);
        vstd::arithmetic::div_mod::lemma_mod_bound(yi, di);
    }
    if r1 + r2 < di {
        assert(xi + yi == (q1 + q2) * di + (r1 + r2)) by (nonlinear_arith)
            requires
                xi == di * q1 + r1,
                yi == di * q2 + r2,
        ;
        lemma_fundamental_div_mod_converse(xi + yi, di, q1 + q2, r1 + r2);
    } else {
        assert(xi + yi == (q1 + q2 + 1) * di + (r1 + r2 - di)) by (nonlinear_arith)
            requires
                xi == di * q1 + r1,
                yi == di * q2 + r2,
        ;
        lemma_fundamental_div_mod_converse(xi + yi, di, q1 + q2 + 1, r1 + r2 - di);
    }
}

/// Buying memberships in two consecutive purchases costs at most what one purchase of
/// the same total amount costs, and at most one uluna less: the curve is summed exactly
/// and only the final total is rounded down.
pub proof fn law_split_purchase_price(supply: nat, first: nat, second: nat)
    ensures
        price_spec(supply, first) + price_spec(supply + first, second) <= price_spec(
            supply,
            first + second,
        ),
        price_spec(supply, first + second) <= price_spec(supply, first) + price_spec(
            supply + first,
            second,
        ) + 1,
{
    lemma_squares_from_concat(supply, first, second);
    lemma_div_split(
        squares_from(supply, first) * 1_000_000,
        squares_from(supply + first, second) * 1_000_000,
        16_000,
    );
    assert(squares_from(supply, first + second) * 1_000_000 == squares_from(supply, first)
        * 1_000_000 + squares_from(supply + first, second) * 1_000_000) by (nonlinear_arith)
        requires
            squares_from(supply, first + second) == squares_from(supply, first) + squares_from(
                supply + first,
                second,
            ),
    ;
}

/// The price of a fixed amount of memberships never falls as the supply grows.
pub proof fn law_price_rises_with_supply(supply: nat, amount: nat)
    ensures
        price_spec(supply, amount) <= price_spec(supply + 1, amount),
{
    lemma_squares_from_shift(supply, amount);
    assert(squares_from(supply, amount) * 1_000_000 <= squares_from(supply + 1, amount)
        * 1_000_000) by (nonlinear_arith)
        requires
            squares_from(supply, amount) <= squares_from(supply + 1, amount),
    ;
    lemma_div_is_ordered(
        (squares_from(supply, amount) * 1_000_000) as int,
        (squares_from(supply + 1, amount) * 1_000_000) as int,
        16_000,
    );
}

/// Buying more memberships at the same supply never costs less.
pub proof fn law_price_rises_with_amount(supply: nat, amount: nat)
    ensures
        price_spec(supply, amount) <= price_spec(supply, amount + 1),
{
    assert(squares_from(supply, amount) <= squares_from(supply, amount + 1));
    assert(squares_from(supply, amount) * 1_000_000 <= squares_from(supply, amount + 1)
        * 1_000_000) by (nonlinear_arith)
        requires
            squares_from(supply, amount) <= squares_from(supply, amount + 1),
    ;
    lemma_div_is_ordered(
        (squares_from(supply, amount) * 1_000_000) as int,
        (squares_from(supply, amount + 1) * 1_000_000) as int,
        16_000,
    );
}

/// The price of `amount` memberships at `supply` (in uluna), on the curve
/// `price(i) = i * i / 16_000` LUNA, summed over the memberships being issued.
pub fn calculate_price(supply: u128, amount: u128) -> (price: u128)
    requires
        price_computable(supply as nat, amount as nat),
    ensures
        price == price_spec(supply as nat, amount as nat),
{
    let ghost s = supply as nat;
    let ghost a = amount as nat;
    let ghost top = (s - 1 + a) as nat;
    proof {
        lemma_six_squares_monotone((s - 1) as nat, top);
        lemma_six_squares_closed((s - 1) as nat);
        lemma_six_squares_closed(top);
        lemma_squares_from_split((s - 1) as nat, a);
        assert(six_squares(top) == top * (top + 1) * (2 * top + 1));
        assert(top * (top + 1) <= six_squares(top)) by (nonlinear_arith)
            requires
                six_squares(top) == top * (top + 1) * (2 * top + 1),
        ;
        assert(2 * top + 1 <= six_squares(top) || top == 0) by (nonlinear_arith)
            requires
                six_squares(top) == top * (top + 1) * (2 * top + 1),
        ;
        let b = (s - 1) as nat;
        assert(six_squares(b) == b * (b + 1) * (2 * b + 1));
        assert(b * (b + 1) <= six_squares(b)) by (nonlinear_arith)
            requires
                six_squares(b) == b * (b + 1) * (2 * b + 1),
        ;
    }
    let supply_minus_one: u128 = supply - 1;
    let two_times_supply_minus_one_plus_one: u128 = supply_minus_one * 2 + 1;

    let sum1: u128 = if supply == 0 {
        0
    } else {
        supply_minus_one * supply * two_times_supply_minus_one_plus_one / 6
    };

    let supply_minus_one_plus_amount: u128 = supply_minus_one + amount;
    let supply_plus_amount: u128 = supply + amount;
    let two_times_supply_minus_one_plus_amount_plus_one: u128 =
        supply_minus_one_plus_amount * 2 + 1;

    let sum2: u128 = if supply == 0 && amount == 1 {
        0
    } else {
        supply_minus_one_plus_amount * supply_plus_amount
            * two_times_supply_minus_one_plus_amount_plus_one / 6
    };

    let summation: u128 = sum2 - sum1;
    summation * ULUNA_PER_LUNA / CURVE_DIVISOR
}

/// Whether [`calculate_price`] can run on these arguments without an overflow; see
/// [`price_computable`].
pub fn price_fits(supply: u128, amount: u128) -> (b: bool)
    ensures
        b == price_computable(supply as nat, amount as nat),
{
    if supply == 0 {
        return false;
    }
    let s1 = supply - 1;
    if s1 > u128::MAX - amount {
        proof {
            let t = (s1 + amount) as nat;
            assert(t * (t + 1) * (2 * t + 1) >= t) by (nonlinear_arith)
                requires
                    t >= 1,
            ;
        }
        return false;
    }
    let top = s1 + amount;
    if top > (u128::MAX - 1) / 2 {
        proof {
            let t = top as nat;
            assert(t * (t + 1) * (2 * t + 1) >= 2 * t + 1) by (nonlinear_arith)
                requires
                    t >= 1,
            ;
        }
        return false;
    }
    let a = match top.checked_mul(top + 1) {
        Some(a) => a,
        None => {
            proof {
                let t = top as nat;
                assert(t * (t + 1) * (2 * t + 1) >= t * (t + 1)) by (nonlinear_arith);
            }
            return false;
        },
    };
    let six = match a.checked_mul(2 * top + 1) {
        Some(x) => x,
        None => {
            proof {
                assert(six_squares(top as nat) == a * (2 * top + 1));
            }
            return false;
        },
    };
    proof {
        assert(six_squares(top as nat) == six);
        lemma_six_squares_closed(top as nat);
        lemma_six_squares_closed(s1 as nat);
        lemma_six_squares_monotone(s1 as nat, top as nat);
        lemma_squares_from_split(s1 as nat, amount as nat);
        let b = s1 as nat;
        assert(b * (b + 1) <= six_squares(b)) by (nonlinear_arith)
            requires
                six_squares(b) == b * (b + 1) * (2 * b + 1),
        ;
    }
    let six_b = s1 * (s1 + 1) * (2 * s1 + 1);
    let squares = (six - six_b) / 6;
    proof {
        assert(squares == squares_from(supply as nat, amount as nat));
    }
    squares.checked_mul(ULUNA_PER_LUNA).is_some()
}

/// `price * percentage / 100`, rounded down.
pub fn multiply_percentage(price: u128, percentage: u64) -> (share: u128)
    requires
        price * percentage <= u128::MAX,
    ensures
        share == price * percentage / 100,
{
    price * (percentage as u128) / 100
}

/// Number of atomic units in one unit of a decimal with 18 fractional digits.
pub const DECIMAL_FRACTIONAL: u128 = 1_000_000_000_000_000_000;

/// `a * b / d`, rounded down.
pub open spec fn mul_div(a: int, b: int, d: int) -> int {
    a * b / d
}

/// `cosmwasm_std::Uint128::checked_multiply_ratio`: `value * numerator / denominator`
/// rounded down, computed without intermediate overflow; no result when the
/// denominator is zero or the quotient exceeds `u128`.
#[verifier::external_body]
pub(crate) fn checked_multiply_ratio(value: u128, numerator: u128, denominator: u128) -> (r: Option<u128>)
    ensures
        r == (if denominator != 0 && mul_div(value as int, numerator as int, denominator as int) <= u128::MAX {
            Some(mul_div(value as int, numerator as int, denominator as int) as u128)
        } else {
            None
        }),
{
    cosmwasm_std::Uint128::new(value).checked_multiply_ratio(numerator, denominator).ok().map(|v| v.u128())
}

/// `cosmwasm_std::Decimal::from_ratio`: the decimal `numerator / denominator`, as its
/// atomic units `numerator * 10^18 / denominator` rounded down. It panics on a zero
/// denominator and when the result exceeds `u128`, which `requires` rules out.
#[verifier::external_body]
pub(crate) fn decimal_from_ratio(numerator: u128, denominator: u128) -> (atomics: u128)
    requires
        denominator != 0,
        mul_div(numerator as int, DECIMAL_FRACTIONAL as int, denominator as int) <= u128::MAX,
    ensures
        atomics == mul_div(numerator as int, DECIMAL_FRACTIONAL as int, denominator as int),
{
    cosmwasm_std::Decimal::from_ratio(numerator, denominator).atomics().u128()
}

} // verus!
