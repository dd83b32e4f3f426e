use nocturne_swap::errors::SwapError;
use nocturne_swap::pricing::calculate_swap_amounts;

#[test]
fn prices_concrete_swap() {
    // fee = floor(10_000 * 30 / 10000) = 30, effective input 9970,
    // output = floor(1_000_000 * 9970 / 1_009_970) = 9871.
    let r = calculate_swap_amounts(10_000, 1_000_000, 1_000_000, 30);
    assert_eq!(r, Ok((9871, 30)));
}

#[test]
fn refuses_empty_output_reserve() {
    for amount_in in [0u64, 1, 5, 500, u64::MAX] {
        let r = calculate_swap_amounts(amount_in, 500, 0, 30);
        assert_eq!(r, Err(SwapError::InsufficientLiquidity));
    }
}

#[test]
fn refuses_empty_input_reserve() {
    let r = calculate_swap_amounts(10, 0, 500, 30);
    assert_eq!(r, Err(SwapError::InsufficientLiquidity));
}

#[test]
fn fee_is_exact_floor() {
    // floor(999 * 30 / 10000) = 2
    let r = calculate_swap_amounts(999, 1_000, 1_000, 30).unwrap();
    assert_eq!(r.1, 2);
    // floor(10_000 * 9999 / 10000) = 9999
    let r = calculate_swap_amounts(10_000, 1_000, 1_000, 9_999).unwrap();
    assert_eq!(r.1, 9_999);
    // A fee rate of the whole takes the whole input; nothing is priced.
    let r = calculate_swap_amounts(12_345, 1_000, 1_000, 10_000).unwrap();
    assert_eq!(r, (0, 12_345));
}

#[test]
fn fee_has_no_hidden_overflow() {
    // The widened computation handles the largest representable input at
    // the largest in-range fee rate: fee = input, output 0.
    let r = calculate_swap_amounts(u64::MAX, 1_000, 1_000, 10_000).unwrap();
    assert_eq!(r, (0, u64::MAX));
}

#[test]
fn zero_fee_rate_charges_nothing() {
    let r = calculate_swap_amounts(10_000, 1_000_000, 1_000_000, 0).unwrap();
    assert_eq!(r.1, 0);
    // output = floor(1_000_000 * 10_000 / 1_010_000) = 9900
    assert_eq!(r.0, 9_900);
}

#[test]
fn out_of_range_fee_rate_overflows() {
    // fee = floor(10_000 * 20_000 / 10000) = 20_000 > amount_in
    let r = calculate_swap_amounts(10_000, 100, 100, 20_000);
    assert_eq!(r, Err(SwapError::ArithmeticOverflow));
}

#[test]
fn output_never_exceeds_reserve() {
    for amount_in in [1u64, 1_000, 1_000_000, u64::MAX] {
        let (amount_out, _) = calculate_swap_amounts(amount_in, 1_000, 1_000, 30).unwrap();
        assert!(amount_out < 1_000);
    }
}

#[test]
fn output_monotone_in_input() {
    let mut previous: u64 = 0;
    for amount_in in [0u64, 1, 9_999, 10_000, 10_001, 1_000_000, u64::MAX] {
        let (amount_out, _) = calculate_swap_amounts(amount_in, 1_000_000, 1_000_000, 30).unwrap();
        assert!(amount_out >= previous);
        previous = amount_out;
    }
}

#[test]
fn product_grows_with_fee() {
    let reserve_in: u64 = 1_000_000;
    let reserve_out: u64 = 1_000_000;
    let amount_in: u64 = 10_000;
    let (amount_out, fee) = calculate_swap_amounts(amount_in, reserve_in, reserve_out, 30).unwrap();
    assert!(fee >= 1);
    let old_product = reserve_in as u128 * reserve_out as u128;
    let new_product = (reserve_in + amount_in) as u128 * (reserve_out - amount_out) as u128;
    assert!(new_product > old_product);
}

#[test]
fn product_kept_within_rounding_at_zero_fee() {
    let reserve_in: u64 = 1_000_000;
    let reserve_out: u64 = 1_000_000;
    let amount_in: u64 = 10_000;
    let (amount_out, fee) = calculate_swap_amounts(amount_in, reserve_in, reserve_out, 0).unwrap();
    assert_eq!(fee, 0);
    let old_product = reserve_in as u128 * reserve_out as u128;
    let new_product = (reserve_in + amount_in) as u128 * (reserve_out - amount_out) as u128;
    assert!(new_product >= old_product);
    assert!(new_product < old_product + (reserve_in + amount_in) as u128);
}
