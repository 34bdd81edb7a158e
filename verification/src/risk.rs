//! The risk verifier: does the measured outcome of a swap honour the caller's
//! minimum exchange rate?
//!
//! Both sides of the comparison are brought to one decimal resolution by
//! multiplication only, so that nothing is lost to truncation before the
//! comparison is made. Every multiplication, subtraction and division traps
//! instead of wrapping.

use crate::types::{Abort, DidSwap, ErrorCode, ExchangeRate};
use vstd::arithmetic::div_mod::lemma_div_is_ordered;
use vstd::arithmetic::mul::lemma_mul_inequality;
use vstd::arithmetic::power::{lemma_pow0, lemma_pow_increases, lemma_pow_positive, pow};
use vstd::prelude::*;

verus! {

/// `u128::checked_pow` computes `base` to the power `exp` and gives `None`
/// exactly when the power does not fit in a `u128`.
pub assume_specification[ <u128>::checked_pow ](base: u128, exp: u32) -> (power: Option<u128>)
    ensures
        match power {
            Some(power) => power == pow(base as int, exp as nat),
            None => pow(base as int, exp as nat) > u128::MAX,
        },
;

/// Ten to the power `decimals`.
pub open spec fn pow10(decimals: u8) -> int {
    pow(10, decimals as nat)
}

/// Whether a value can be held in the 128 bits that the comparison is computed
/// in.
pub open spec fn fits(value: int) -> bool {
    value <= u128::MAX
}

/// The least the caller expects to receive, at the resolution of the
/// comparison: the amount sold times the rate, scaled by the quote decimals.
pub open spec fn min_expected_amount(event: DidSwap) -> int {
    event.from_amount * event.min_exchange_rate.rate * pow10(
        event.min_exchange_rate.quote_decimals,
    )
}

/// The amount bought, at the resolution of the comparison.
pub open spec fn scaled_to_amount(event: DidSwap) -> int {
    event.to_amount * pow10(event.min_exchange_rate.from_decimals) * pow10(
        event.min_exchange_rate.quote_decimals,
    )
}

/// Whether unspent quote currency is credited to the amount bought: only when
/// there is some, and the caller did not ask for the strict reading.
pub open spec fn credits_spill(event: DidSwap) -> bool {
    event.spill_amount != 0 && !event.min_exchange_rate.strict
}

/// The numerator of the spill credit: the amount bought times the unspent
/// quote currency, at the resolution of the comparison.
pub open spec fn spill_product(event: DidSwap) -> int {
    event.to_amount * event.spill_amount * pow10(event.min_exchange_rate.from_decimals) * pow10(
        event.min_exchange_rate.quote_decimals,
    )
}

/// What the second leg would have bought with the quote currency it left
/// unspent, at the rate it achieved on what it did spend.
pub open spec fn spill_surplus(event: DidSwap) -> int {
    if credits_spill(event) {
        spill_product(event) / (event.quote_amount - event.spill_amount)
    } else {
        0
    }
}

/// The amount bought plus the spill credit, at the resolution of the
/// comparison.
pub open spec fn effective_to_amount(event: DidSwap) -> int {
    scaled_to_amount(event) + spill_surplus(event)
}

/// Whether computing the caller's expectation traps.
pub open spec fn min_expected_traps(event: DidSwap) -> bool {
    ||| !fits(pow10(event.min_exchange_rate.quote_decimals))
    ||| !fits(min_expected_amount(event))
}

/// Whether computing the effective amount bought traps: on a scale or a
/// product too large for 128 bits, or, where the spill is credited, on a spill
/// that is not less than the quote currency earned.
pub open spec fn effective_traps(event: DidSwap) -> bool {
    ||| !fits(pow10(event.min_exchange_rate.from_decimals))
    ||| !fits(pow10(event.min_exchange_rate.quote_decimals))
    ||| !fits(scaled_to_amount(event))
    ||| credits_spill(event) && (!fits(spill_product(event)) || event.spill_amount
        >= event.quote_amount)
    ||| !fits(effective_to_amount(event))
}

/// The same outcome with another spill.
pub open spec fn with_spill(event: DidSwap, spill_amount: u64) -> DidSwap {
    DidSwap { spill_amount, ..event }
}

/// The same outcome with another amount bought.
pub open spec fn with_to_amount(event: DidSwap, to_amount: u64) -> DidSwap {
    DidSwap { to_amount, ..event }
}

/// The same outcome, read strictly or not.
pub open spec fn with_strict(event: DidSwap, strict: bool) -> DidSwap {
    DidSwap { min_exchange_rate: ExchangeRate { strict, ..event.min_exchange_rate }, ..event }
}

/// The verdict on a swap outcome.
///
/// A swap that bought nothing is a zero swap, whatever else is true of it.
/// Otherwise a trap in either side of the comparison aborts; otherwise the
/// swap is accepted exactly when the effective amount bought reaches the
/// caller's expectation.
pub open spec fn risk_verdict(event: DidSwap) -> Result<(), Abort> {
    if event.to_amount == 0 {
        Err(Abort::Rejected(ErrorCode::ZeroSwap))
    } else if min_expected_traps(event) || effective_traps(event) {
        Err(Abort::Trap)
    } else if effective_to_amount(event) < min_expected_amount(event) {
        Err(Abort::Rejected(ErrorCode::SlippageExceeded))
    } else {
        Ok(())
    }
}

/// A product of a natural number and a factor of at least one is no smaller
/// than the number.
proof fn lemma_scaling_grows(value: int, scale: int)
    by (nonlinear_arith)
    requires
        0 <= value,
        1 <= scale,
    ensures
        value <= value * scale,
{
}

/// The product of two 64-bit amounts fits in 128 bits.
proof fn lemma_product_of_amounts_fits(a: u64, b: u64)
    by (nonlinear_arith)
    ensures
        0 <= a * b <= u128::MAX,
{
}

/// Ten to the power `decimals`, or `None` when it does not fit in 128 bits.
fn checked_pow10(decimals: u8) -> (scale: Option<u128>)
    ensures
        match scale {
            Some(scale) => fits(pow10(decimals)) && scale == pow10(decimals),
            None => !fits(pow10(decimals)),
        },
        pow10(decimals) >= 1,
{
    proof {
        lemma_pow_positive(10, decimals as nat);
    }
    10u128.checked_pow(decimals as u32)
}

/// Computes [`min_expected_amount`], or `None` when that traps.
pub fn compute_min_expected_amount(event: &DidSwap) -> (amount: Option<u128>)
    ensures
        match amount {
            Some(amount) => !min_expected_traps(*event) && amount == min_expected_amount(*event),
            None => min_expected_traps(*event),
        },
{
    let from_amount = event.from_amount as u128;
    let rate = event.min_exchange_rate.rate as u128;
    proof {
        lemma_product_of_amounts_fits(event.from_amount, event.min_exchange_rate.rate);
    }
    let owed = match from_amount.checked_mul(rate) {
        Some(owed) => owed,
        None => {
            return None;
        },
    };
    let quote_scale = match checked_pow10(event.min_exchange_rate.quote_decimals) {
        Some(scale) => scale,
        None => {
            return None;
        },
    };
    owed.checked_mul(quote_scale)
}

/// Computes [`effective_to_amount`], or `None` when that traps.
pub fn compute_effective_to_amount(event: &DidSwap) -> (amount: Option<u128>)
    ensures
        match amount {
            Some(amount) => !effective_traps(*event) && amount == effective_to_amount(*event),
            None => effective_traps(*event),
        },
{
    let to_amount = event.to_amount as u128;
    let from_scale = match checked_pow10(event.min_exchange_rate.from_decimals) {
        Some(scale) => scale,
        None => {
            return None;
        },
    };
    let quote_scale = match checked_pow10(event.min_exchange_rate.quote_decimals) {
        Some(scale) => scale,
        None => {
            return None;
        },
    };

    // Quote currency left unspent, marked at the rate at which the rest was
    // spent: (to_amount / quote spent) * spill_amount, multiplied out first.
    let spill_surplus: u128 = if event.spill_amount == 0 || event.min_exchange_rate.strict {
        0
    } else {
        let spill_amount = event.spill_amount as u128;
        proof {
            lemma_product_of_amounts_fits(event.to_amount, event.spill_amount);
        }
        let bought_times_spill = match to_amount.checked_mul(spill_amount) {
            Some(product) => product,
            None => {
                return None;
            },
        };
        let at_from_scale = match bought_times_spill.checked_mul(from_scale) {
            Some(product) => product,
            None => {
                proof {
                    lemma_scaling_grows(bought_times_spill * from_scale, quote_scale as int);
                }
                return None;
            },
        };
        let at_full_scale = match at_from_scale.checked_mul(quote_scale) {
            Some(product) => product,
            None => {
                return None;
            },
        };
        let quote_spent = match event.quote_amount.checked_sub(event.spill_amount) {
            Some(spent) => spent,
            None => {
                return None;
            },
        };
        match at_full_scale.checked_div(quote_spent as u128) {
            Some(surplus) => surplus,
            None => {
                return None;
            },
        }
    };

    let at_from_scale = match to_amount.checked_mul(from_scale) {
        Some(product) => product,
        None => {
            proof {
                lemma_scaling_grows(to_amount * from_scale, quote_scale as int);
            }
            return None;
        },
    };
    let scaled = match at_from_scale.checked_mul(quote_scale) {
        Some(product) => product,
        None => {
            return None;
        },
    };
    scaled.checked_add(spill_surplus)
}

/// Holds the outcome of a swap against the caller's minimum exchange rate.
///
/// Rejects a swap that bought nothing as a zero swap; traps where the
/// arithmetic of the comparison does; rejects a swap whose effective amount
/// bought falls short of the caller's expectation for slippage; and accepts
/// every other.
pub fn apply_risk_checks(event: DidSwap) -> (verdict: Result<(), Abort>)
    ensures
        verdict == risk_verdict(event),
{
    if event.to_amount == 0 {
        return Err(Abort::Rejected(ErrorCode::ZeroSwap));
    }
    let min_expected_amount = match compute_min_expected_amount(&event) {
        Some(amount) => amount,
        None => {
            return Err(Abort::Trap);
        },
    };
    let effective_to_amount = match compute_effective_to_amount(&event) {
        Some(amount) => amount,
        None => {
            return Err(Abort::Trap);
        },
    };
    if effective_to_amount < min_expected_amount {
        return Err(Abort::Rejected(ErrorCode::SlippageExceeded));
    }
    Ok(())
}

/// The largest number of decimals whose scale fits in 128 bits.
pub const MAX_DECIMALS: u8 = 38;

/// A scale fits in 128 bits exactly for up to 38 decimals.
pub proof fn lemma_scale_fits_up_to_38_decimals(decimals: u8)
    ensures
        fits(pow10(decimals)) <==> decimals <= MAX_DECIMALS,
        decimals <= MAX_DECIMALS ==> pow10(decimals) <= pow10(MAX_DECIMALS),
        pow10(MAX_DECIMALS) == 100_000_000_000_000_000_000_000_000_000_000_000_000,
{
    assert(pow(10, 38) == 100_000_000_000_000_000_000_000_000_000_000_000_000int) by {
        reveal_with_fuel(pow, 39);
    }
    assert(pow(10, 39) == 10 * pow(10, 38)) by {
        reveal_with_fuel(pow, 2);
    }
    if decimals <= 38 {
        lemma_pow_increases(10, decimals as nat, 38);
    } else {
        lemma_pow_increases(10, 39, decimals as nat);
    }
}

/// A swap that bought nothing is rejected as a zero swap, whatever it sold,
/// and so every accepted swap bought something.
pub proof fn lemma_zero_swap_is_rejected(event: DidSwap)
    ensures
        event.to_amount == 0 ==> risk_verdict(event) == Err::<(), Abort>(
            Abort::Rejected(ErrorCode::ZeroSwap),
        ),
        risk_verdict(event) is Ok ==> event.to_amount > 0,
        risk_verdict(event) == Err::<(), Abort>(Abort::Rejected(ErrorCode::ZeroSwap))
            ==> event.to_amount == 0,
{
}

/// A swap with no quote scaling and no spill, as every direct swap is, is
/// accepted exactly when it bought something, the amount bought scaled by the
/// decimals of the mint sold fits in 128 bits, and that scaled amount is at
/// least the amount sold times the rate.
pub proof fn lemma_direct_swap_acceptance(event: DidSwap)
    requires
        event.min_exchange_rate.quote_decimals == 0,
        event.spill_amount == 0,
    ensures
        risk_verdict(event) is Ok <==> {
            &&& event.to_amount > 0
            &&& fits(event.to_amount * pow10(event.min_exchange_rate.from_decimals))
            &&& event.to_amount * pow10(event.min_exchange_rate.from_decimals)
                >= event.from_amount * event.min_exchange_rate.rate
        },
{
    let scale = pow10(event.min_exchange_rate.from_decimals);
    assert(pow10(0) == 1) by {
        lemma_pow0(10);
    }
    assert(scale >= 1) by {
        lemma_pow_positive(10, event.min_exchange_rate.from_decimals as nat);
    }
    lemma_product_of_amounts_fits(event.from_amount, event.min_exchange_rate.rate);
    assert(min_expected_amount(event) == event.from_amount * event.min_exchange_rate.rate);
    assert(scaled_to_amount(event) == event.to_amount * scale);
    assert(effective_to_amount(event) == event.to_amount * scale);
    if event.to_amount > 0 && fits(event.to_amount * scale) {
        assert(scale <= event.to_amount * scale) by (nonlinear_arith)
            requires
                event.to_amount >= 1,
                scale >= 1,
        ;
    }
}

/// Under the strict reading the spill never enters the decision: the verdict
/// is the one the same outcome would get with its spill set to zero.
pub proof fn lemma_strict_ignores_spill(event: DidSwap)
    requires
        event.min_exchange_rate.strict,
    ensures
        risk_verdict(event) == risk_verdict(with_spill(event, 0)),
{
}

/// Where nothing was spilled, the strict flag changes nothing: the verdict is
/// the same with the flag set and with it clear.
pub proof fn lemma_no_spill_ignores_strict(event: DidSwap)
    requires
        event.spill_amount == 0,
    ensures
        risk_verdict(with_strict(event, false)) == risk_verdict(with_strict(event, true)),
{
}

/// Buying more never turns an accepted swap into a rejected one: if an
/// outcome is accepted, the same outcome with a larger amount bought is
/// accepted too, unless its arithmetic traps.
pub proof fn lemma_buying_more_is_never_worse(event: DidSwap, to_amount: u64)
    requires
        risk_verdict(event) is Ok,
        to_amount >= event.to_amount,
    ensures
        risk_verdict(with_to_amount(event, to_amount)) is Ok || risk_verdict(
            with_to_amount(event, to_amount),
        ) == Err::<(), Abort>(Abort::Trap),
{
    let more = with_to_amount(event, to_amount);
    let from_scale = pow10(event.min_exchange_rate.from_decimals);
    let quote_scale = pow10(event.min_exchange_rate.quote_decimals);
    lemma_pow_positive(10, event.min_exchange_rate.from_decimals as nat);
    lemma_pow_positive(10, event.min_exchange_rate.quote_decimals as nat);
    if !effective_traps(more) {
        assert(scaled_to_amount(event) <= scaled_to_amount(more)) by {
            lemma_mul_inequality(event.to_amount as int, to_amount as int, from_scale);
            lemma_mul_inequality(
                event.to_amount * from_scale,
                to_amount * from_scale,
                quote_scale,
            );
        }
        if credits_spill(event) {
            assert(spill_product(event) <= spill_product(more)) by {
                lemma_mul_inequality(
                    event.to_amount as int,
                    to_amount as int,
                    event.spill_amount as int,
                );
                lemma_mul_inequality(
                    event.to_amount * event.spill_amount,
                    to_amount * event.spill_amount,
                    from_scale,
                );
                lemma_mul_inequality(
                    event.to_amount * event.spill_amount * from_scale,
                    to_amount * event.spill_amount * from_scale,
                    quote_scale,
                );
            }
            lemma_div_is_ordered(
                spill_product(event),
                spill_product(more),
                event.quote_amount - event.spill_amount,
            );
        }
        assert(effective_to_amount(event) <= effective_to_amount(more));
    }
}

} // verus!
