use vstd::prelude::*;
use vstd::arithmetic::div_mod::lemma_div_is_ordered;
use vstd::arithmetic::div_mod::lemma_fundamental_div_mod;
use crate::state::CurveType;

verus! {

/// Fixed-point scale of prices and of progress: six implied decimal digits.
pub const PRICE_SCALE: u64 = 1_000_000;

/// Progress below which the logarithmic curve grows like the linear one (10%).
pub const LOG_KNEE: u64 = 100_000;

/// Share of the sale that is sold, in millionths, rounded down.
pub open spec fn spec_progress(tokens_sold: nat, total_sell_amount: nat) -> nat
    recommends
        total_sell_amount > 0,
{
    tokens_sold * 1_000_000 / total_sell_amount
}

/// Price of one token at the start of the sale, scaled by 10^6.
pub open spec fn spec_base_price(total_fund_raising: nat, total_sell_amount: nat) -> nat
    recommends
        total_sell_amount > 0,
{
    total_fund_raising * 1_000_000 / total_sell_amount
}

/// Factor, scaled by 10^6, by which the price has grown at a given progress.
pub open spec fn spec_growth(curve: CurveType, progress: nat) -> nat {
    match curve {
        CurveType::Linear => 1_000_000 + progress,
        CurveType::Exponential => (1_000_000 + progress) * (1_000_000 + progress) / 1_000_000,
        CurveType::Logarithmic => if progress < 100_000 {
            1_000_000 + progress
        } else {
            (1_000_000 + 100_000 + (progress - 100_000) / 2) as nat
        },
    }
}

/// Spot price of one token, scaled by 10^6, once `tokens_sold` tokens are sold.
pub open spec fn spec_price(
    curve: CurveType,
    total_fund_raising: nat,
    total_sell_amount: nat,
    tokens_sold: nat,
) -> nat {
    if total_sell_amount == 0 {
        0
    } else {
        spec_base_price(total_fund_raising, total_sell_amount) * spec_growth(
            curve,
            spec_progress(tokens_sold, total_sell_amount),
        ) / 1_000_000
    }
}

/// Tokens that `sol_amount` of currency buys at a spot price.
pub open spec fn spec_tokens_for_sol(price: nat, sol_amount: nat) -> nat {
    if price == 0 {
        0
    } else {
        sol_amount * 1_000_000 / price
    }
}

/// Currency that `token_amount` tokens are worth at a spot price.
pub open spec fn spec_sol_for_tokens(price: nat, token_amount: nat) -> nat {
    token_amount * price / 1_000_000
}

/// Progress never falls as more tokens are sold.
pub proof fn lemma_progress_monotonic(a: nat, b: nat, total_sell_amount: nat)
    requires
        a <= b,
        total_sell_amount > 0,
    ensures
        spec_progress(a, total_sell_amount) <= spec_progress(b, total_sell_amount),
{
    lemma_div_is_ordered(
        (a * 1_000_000) as int,
        (b * 1_000_000) as int,
        total_sell_amount as int,
    );
}

/// The growth factor never falls as progress rises, whatever the curve.
pub proof fn lemma_growth_monotonic(curve: CurveType, p: nat, q: nat)
    requires
        p <= q,
    ensures
        spec_growth(curve, p) <= spec_growth(curve, q),
{
    if curve == CurveType::Exponential {
        let m = (1_000_000 + p) as int;
        let n = (1_000_000 + q) as int;
        assert(m * m <= n * n) by (nonlinear_arith)
            requires
                0 <= m <= n,
        ;
        lemma_div_is_ordered(m * m, n * n, 1_000_000);
    }
}

/// A product with a fixed non-negative factor, divided by the scale, is monotonic in the
/// other factor.
pub proof fn lemma_scaled_product_monotonic(base: nat, g: nat, h: nat)
    requires
        g <= h,
    ensures
        base * g / 1_000_000 <= base * h / 1_000_000,
{
    assert(base * g <= base * h) by (nonlinear_arith)
        requires
            g <= h,
    ;
    lemma_div_is_ordered((base * g) as int, (base * h) as int, 1_000_000);
}

/// The spot price never falls as more tokens are sold, whatever the curve, and it is zero
/// when nothing is for sale.
pub proof fn lemma_price_monotonic(
    curve: CurveType,
    total_fund_raising: nat,
    total_sell_amount: nat,
    a: nat,
    b: nat,
)
    requires
        a <= b,
    ensures
        spec_price(curve, total_fund_raising, total_sell_amount, a) <= spec_price(
            curve,
            total_fund_raising,
            total_sell_amount,
            b,
        ),
        total_sell_amount == 0 ==> spec_price(curve, total_fund_raising, total_sell_amount, a)
            == 0,
{
    if total_sell_amount > 0 {
        lemma_progress_monotonic(a, b, total_sell_amount);
        let p = spec_progress(a, total_sell_amount);
        let q = spec_progress(b, total_sell_amount);
        lemma_growth_monotonic(curve, p, q);
        lemma_scaled_product_monotonic(
            spec_base_price(total_fund_raising, total_sell_amount),
            spec_growth(curve, p),
            spec_growth(curve, q),
        );
    }
}

/// Currency that a round trip loses to rounding: buying with `sol_amount` at a spot
/// price and selling the tokens back at that same price. At a zero price the buy yields
/// no tokens and all of the amount is lost.
pub open spec fn spec_round_trip_loss(price: nat, sol_amount: nat) -> nat {
    if price == 0 {
        sol_amount
    } else {
        ((sol_amount * 1_000_000) % price + 999_999) / 1_000_000
    }
}

/// Tokens bought with `sol_amount` at a spot price are worth, at that same price, the
/// amount less the rounding loss: never more than was paid.
pub proof fn lemma_round_trip(price: nat, sol_amount: nat)
    ensures
        spec_sol_for_tokens(price, spec_tokens_for_sol(price, sol_amount))
            + spec_round_trip_loss(price, sol_amount) == sol_amount,
        spec_sol_for_tokens(price, spec_tokens_for_sol(price, sol_amount)) <= sol_amount,
{
    if price == 0 {
        assert(0nat * 0nat == 0) by (nonlinear_arith);
    } else {
        let scaled = sol_amount * 1_000_000;
        let tokens = scaled / price;
        let rest = scaled % price;
        lemma_fundamental_div_mod(scaled as int, price as int);
        assert(tokens * price == price * tokens) by (nonlinear_arith);
        assert(tokens * price == scaled - rest);
    }
}

} // verus!
