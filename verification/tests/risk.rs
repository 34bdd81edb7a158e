use serum_swap::risk::{compute_effective_to_amount, compute_min_expected_amount};
use serum_swap::{apply_risk_checks, Abort, DidSwap, ErrorCode, ExchangeRate, Pubkey};

fn key(tag: u8) -> Pubkey {
    Pubkey::new_from_array([tag; 32])
}

fn rate(rate: u64, from_decimals: u8, quote_decimals: u8, strict: bool) -> ExchangeRate {
    ExchangeRate { rate, from_decimals, quote_decimals, strict }
}

fn outcome(
    from_amount: u64,
    to_amount: u64,
    quote_amount: u64,
    spill_amount: u64,
    min_exchange_rate: ExchangeRate,
) -> DidSwap {
    DidSwap {
        given_amount: from_amount,
        min_exchange_rate,
        from_amount,
        to_amount,
        quote_amount,
        spill_amount,
        from_mint: key(1),
        to_mint: key(2),
        quote_mint: key(3),
        authority: key(4),
    }
}

fn slippage() -> Result<(), Abort> {
    Err(Abort::Rejected(ErrorCode::SlippageExceeded))
}

fn zero_swap() -> Result<(), Abort> {
    Err(Abort::Rejected(ErrorCode::ZeroSwap))
}

fn trap() -> Result<(), Abort> {
    Err(Abort::Trap)
}

#[test]
fn direct_ask_above_the_rate_is_accepted() {
    let event = outcome(1_000_000, 2_000_000, 0, 0, rate(1_900_000, 6, 0, false));
    assert_eq!(compute_min_expected_amount(&event), Some(1_900_000_000_000));
    assert_eq!(compute_effective_to_amount(&event), Some(2_000_000_000_000));
    assert_eq!(apply_risk_checks(event), Ok(()));
}

#[test]
fn direct_ask_below_the_rate_exceeds_slippage() {
    let event = outcome(1_000_000, 1_800_000, 0, 0, rate(1_900_000, 6, 0, false));
    assert_eq!(compute_min_expected_amount(&event), Some(1_900_000_000_000));
    assert_eq!(compute_effective_to_amount(&event), Some(1_800_000_000_000));
    assert_eq!(apply_risk_checks(event), slippage());
}

#[test]
fn acceptance_is_decided_at_the_exact_boundary() {
    // 1_900_000 bought for 1_000_000 sold is exactly the rate.
    let at = outcome(1_000_000, 1_900_000, 0, 0, rate(1_900_000, 6, 0, false));
    assert_eq!(apply_risk_checks(at), Ok(()));
    let below = outcome(1_000_000, 1_899_999, 0, 0, rate(1_900_000, 6, 0, false));
    assert_eq!(apply_risk_checks(below), slippage());
    // One more unit sold asks for more than was bought.
    let more_sold = outcome(1_000_001, 1_900_000, 0, 0, rate(1_900_000, 6, 0, false));
    assert_eq!(apply_risk_checks(more_sold), slippage());
}

#[test]
fn zero_swap_is_rejected_even_if_something_was_sold() {
    let event = outcome(1_000_000, 0, 0, 0, rate(1, 6, 0, false));
    assert_eq!(apply_risk_checks(event), zero_swap());
    // Also with a rate that asks for nothing.
    let free = outcome(1_000_000, 0, 0, 0, rate(0, 0, 0, true));
    assert_eq!(apply_risk_checks(free), zero_swap());
}

#[test]
fn zero_swap_is_decided_before_any_arithmetic() {
    // The scales alone would trap, but nothing was bought.
    let event = outcome(1, 0, 0, 0, rate(1, 200, 200, false));
    assert_eq!(compute_min_expected_amount(&event), None);
    assert_eq!(compute_effective_to_amount(&event), None);
    assert_eq!(apply_risk_checks(event), zero_swap());
}

#[test]
fn quote_decimals_scale_both_sides() {
    // min expected = 7 * 3 * 10^2, effective = 5 * 10^1 * 10^2.
    let event = outcome(7, 5, 0, 0, rate(3, 1, 2, true));
    assert_eq!(compute_min_expected_amount(&event), Some(2_100));
    assert_eq!(compute_effective_to_amount(&event), Some(5_000));
    assert_eq!(apply_risk_checks(event), Ok(()));
    let dearer = outcome(7, 5, 0, 0, rate(8, 1, 2, true));
    assert_eq!(compute_min_expected_amount(&dearer), Some(5_600));
    assert_eq!(apply_risk_checks(dearer), slippage());
}

#[test]
fn transitive_without_spill_compares_the_amount_bought() {
    // Sold 100, earned 500 quote, spent all of it, bought 50.
    for strict in [false, true] {
        let event = outcome(100, 50, 500, 0, rate(50, 2, 0, strict));
        assert_eq!(compute_min_expected_amount(&event), Some(5_000));
        assert_eq!(compute_effective_to_amount(&event), Some(5_000));
        assert_eq!(apply_risk_checks(event), Ok(()));
        let dearer = outcome(100, 50, 500, 0, rate(51, 2, 0, strict));
        assert_eq!(apply_risk_checks(dearer), slippage());
    }
}

#[test]
fn spill_is_credited_at_the_rate_of_the_second_leg() {
    // Earned 500 quote, spent 400 of it on 50: the 100 left are worth 12.5.
    let event = outcome(100, 50, 500, 100, rate(62, 2, 0, false));
    assert_eq!(compute_min_expected_amount(&event), Some(6_200));
    assert_eq!(compute_effective_to_amount(&event), Some(6_250));
    assert_eq!(apply_risk_checks(event), Ok(()));
    let dearer = outcome(100, 50, 500, 100, rate(63, 2, 0, false));
    assert_eq!(compute_min_expected_amount(&dearer), Some(6_300));
    assert_eq!(apply_risk_checks(dearer), slippage());
}

#[test]
fn spill_credit_is_cut_down_to_whole_units() {
    // Without scaling, 12.5 is credited as 12.
    let event = outcome(100, 50, 500, 100, rate(1, 0, 0, false));
    assert_eq!(compute_effective_to_amount(&event), Some(62));
    // Scaling first keeps the half: 125 at one decimal.
    let scaled = outcome(100, 50, 500, 100, rate(1, 0, 1, false));
    assert_eq!(compute_effective_to_amount(&scaled), Some(625));
}

#[test]
fn strict_rate_gives_no_credit_for_spill() {
    let event = outcome(100, 50, 500, 100, rate(60, 2, 0, true));
    assert_eq!(compute_effective_to_amount(&event), Some(5_000));
    assert_eq!(apply_risk_checks(event), slippage());
    let lenient = outcome(100, 50, 500, 100, rate(60, 2, 0, false));
    assert_eq!(compute_effective_to_amount(&lenient), Some(6_250));
    assert_eq!(apply_risk_checks(lenient), Ok(()));
}

#[test]
fn strict_verdict_is_the_verdict_without_spill() {
    for spill in [1u64, 100, 499, 500, 501, u64::MAX] {
        for rate_asked in [49u64, 50, 51, 62, 63] {
            let with_spill = outcome(100, 50, 500, spill, rate(rate_asked, 2, 0, true));
            let without = outcome(100, 50, 500, 0, rate(rate_asked, 2, 0, true));
            assert_eq!(apply_risk_checks(with_spill), apply_risk_checks(without));
        }
    }
}

#[test]
fn strict_flag_is_idle_without_spill() {
    for rate_asked in [0u64, 49, 50, 51, u64::MAX] {
        for quote_decimals in [0u8, 3, 36, 39] {
            let strict = outcome(100, 50, 500, 0, rate(rate_asked, 2, quote_decimals, true));
            let lenient = outcome(100, 50, 500, 0, rate(rate_asked, 2, quote_decimals, false));
            assert_eq!(apply_risk_checks(strict), apply_risk_checks(lenient));
        }
    }
}

#[test]
fn buying_more_keeps_an_accepted_swap_accepted() {
    let base = outcome(100, 50, 500, 100, rate(62, 2, 0, false));
    assert_eq!(apply_risk_checks(base), Ok(()));
    for to_amount in [50u64, 51, 1_000, 1_000_000_000] {
        let more = outcome(100, to_amount, 500, 100, rate(62, 2, 0, false));
        assert_eq!(apply_risk_checks(more), Ok(()));
    }
}

#[test]
fn spending_all_that_was_earned_and_more_traps() {
    // A spill equal to the proceeds leaves nothing spent to set a rate by.
    let all = outcome(100, 50, 500, 500, rate(1, 0, 0, false));
    assert_eq!(compute_effective_to_amount(&all), None);
    assert_eq!(apply_risk_checks(all), trap());
    // A spill above the proceeds cannot be.
    let more = outcome(100, 50, 500, 501, rate(1, 0, 0, false));
    assert_eq!(compute_effective_to_amount(&more), None);
    assert_eq!(apply_risk_checks(more), trap());
    // The strict reading never looks at the spill.
    let strict = outcome(50, 50, 500, 501, rate(1, 0, 0, true));
    assert_eq!(compute_min_expected_amount(&strict), Some(50));
    assert_eq!(compute_effective_to_amount(&strict), Some(50));
    assert_eq!(apply_risk_checks(strict), Ok(()));
}

#[test]
fn largest_scale_that_fits_is_ten_to_the_38() {
    let fits = outcome(3, 3, 0, 0, rate(1, 0, 38, true));
    assert_eq!(
        compute_min_expected_amount(&fits),
        Some(300_000_000_000_000_000_000_000_000_000_000_000_000)
    );
    assert_eq!(
        compute_effective_to_amount(&fits),
        Some(300_000_000_000_000_000_000_000_000_000_000_000_000)
    );
    assert_eq!(apply_risk_checks(fits), Ok(()));
    let too_large = outcome(3, 3, 0, 0, rate(1, 0, 39, true));
    assert_eq!(compute_min_expected_amount(&too_large), None);
    assert_eq!(compute_effective_to_amount(&too_large), None);
    assert_eq!(apply_risk_checks(too_large), trap());
    let from_side = outcome(3, 3, 0, 0, rate(1, 39, 0, true));
    assert_eq!(compute_min_expected_amount(&from_side), Some(3));
    assert_eq!(compute_effective_to_amount(&from_side), None);
    assert_eq!(apply_risk_checks(from_side), trap());
}

#[test]
fn a_scale_too_large_traps_even_when_nothing_was_sold() {
    let event = outcome(0, 3, 0, 0, rate(1, 0, 39, true));
    assert_eq!(compute_min_expected_amount(&event), None);
    assert_eq!(apply_risk_checks(event), trap());
}

#[test]
fn products_too_large_for_128_bits_trap() {
    // 4 * 10^38 is more than 128 bits hold.
    let expected = outcome(4, 1, 0, 0, rate(1, 0, 38, true));
    assert_eq!(compute_min_expected_amount(&expected), None);
    assert_eq!(
        compute_effective_to_amount(&expected),
        Some(100_000_000_000_000_000_000_000_000_000_000_000_000)
    );
    assert_eq!(apply_risk_checks(expected), trap());
    let bought = outcome(0, 4, 0, 0, rate(1, 19, 19, true));
    assert_eq!(compute_min_expected_amount(&bought), Some(0));
    assert_eq!(compute_effective_to_amount(&bought), None);
    assert_eq!(apply_risk_checks(bought), trap());
    // The spill product overflows where the amount bought alone does not.
    let spill = outcome(0, 3, u64::MAX, 2, rate(0, 19, 19, false));
    assert_eq!(compute_effective_to_amount(&spill), None);
    assert_eq!(apply_risk_checks(spill), trap());
    let strict = outcome(0, 3, u64::MAX, 2, rate(0, 19, 19, true));
    assert_eq!(
        compute_effective_to_amount(&strict),
        Some(300_000_000_000_000_000_000_000_000_000_000_000_000)
    );
    assert_eq!(apply_risk_checks(strict), Ok(()));
}

#[test]
fn largest_amounts_fit_without_scaling() {
    let event = outcome(u64::MAX, u64::MAX, 0, 0, rate(u64::MAX, 0, 0, true));
    assert_eq!(
        compute_min_expected_amount(&event),
        Some(340_282_366_920_938_463_426_481_119_284_349_108_225)
    );
    assert_eq!(compute_effective_to_amount(&event), Some(18_446_744_073_709_551_615));
    assert_eq!(apply_risk_checks(event), slippage());
}

#[test]
fn a_rate_of_zero_accepts_whatever_was_bought() {
    let event = outcome(u64::MAX, 1, 0, 0, rate(0, 0, 0, false));
    assert!(!event.min_exchange_rate.is_wf());
    assert_eq!(compute_min_expected_amount(&event), Some(0));
    assert_eq!(apply_risk_checks(event), Ok(()));
    assert!(rate(1, 0, 0, false).is_wf());
}

#[test]
fn each_error_code_has_its_message() {
    assert_eq!(
        ErrorCode::SwapTokensCannotMatch.message(),
        "The tokens being swapped must have different mints"
    );
    assert_eq!(ErrorCode::SlippageExceeded.message(), "Slippage tolerance exceeded");
    assert_eq!(ErrorCode::ZeroSwap.message(), "No tokens received when swapping");
}
