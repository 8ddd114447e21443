use launchpad::constants::CURRENCY_DECIMALS;
use launchpad::errors::MyError;
use launchpad::pubkey::Pubkey;
use launchpad::state::launch_pool::price_of;
use launchpad::state::{CurrencyType, LaunchPool, LaunchPoolState, LaunchPoolType};

fn pool_with(rate: u64, token_mint_decimals: u8) -> LaunchPool {
    LaunchPool {
        unlock_date: 1_000,
        pool_size: 1_000,
        minimum_token_amount: 10,
        maximum_token_amount: 500,
        rate,
        pool_size_remaining: 1_000,
        token_mint: Pubkey::new_from_array([3u8; 32]),
        token_mint_decimals,
        authority: Pubkey::new_from_array([1u8; 32]),
        vault_amount: 0,
        is_vesting: false,
        currency: CurrencyType::SOL,
        pool_type: LaunchPoolType::FairLaunch,
        status: LaunchPoolState::Active,
    }
}

#[test]
fn price_divides_by_rate_then_rescales() {
    // floor(floor(100 / 10) * 10^9 / 10^6) = 10 * 1000
    assert_eq!(price_of(100, 10, 6, 9), Ok(10_000));
}

#[test]
fn price_rounds_both_divisions_down() {
    // floor(109 / 10) = 10, then floor(10 * 10^2 / 10^3) = 1
    assert_eq!(price_of(109, 10, 3, 2), Ok(1));
    // floor(19 / 10) = 1, then floor(1 * 10^2 / 10^3) = 0
    assert_eq!(price_of(19, 10, 3, 2), Ok(0));
}

#[test]
fn price_with_equal_decimals_is_the_quotient() {
    assert_eq!(price_of(12_345, 7, 9, 9), Ok(1_763));
    assert_eq!(price_of(12_345, 1, 0, 0), Ok(12_345));
}

#[test]
fn price_scales_down_to_fewer_currency_decimals() {
    // floor(5_000_000 / 2) * 10^3 / 10^9 = 2_500_000_000 / 10^9 = 2
    assert_eq!(price_of(5_000_000, 2, 9, 3), Ok(2));
}

#[test]
fn price_of_nothing_is_nothing() {
    assert_eq!(price_of(0, 10, 6, 9), Ok(0));
    assert_eq!(price_of(0, 1, 0, 0), Ok(0));
    assert_eq!(price_of(0, u64::MAX, 38, 38), Ok(0));
}

#[test]
fn price_of_less_than_the_rate_is_nothing() {
    assert_eq!(price_of(9, 10, 6, 9), Ok(0));
    assert_eq!(price_of(999, 1_000, 0, 9), Ok(0));
}

#[test]
fn price_is_the_same_for_the_same_inputs() {
    let first = price_of(123_456_789, 13, 6, 9);
    let second = price_of(123_456_789, 13, 6, 9);
    assert_eq!(first, second);
    assert_eq!(first, Ok(9_496_676_000));
}

#[test]
fn price_at_rate_zero_is_refused() {
    assert_eq!(price_of(100, 0, 6, 9), Err(MyError::Overflow));
    assert_eq!(price_of(0, 0, 6, 9), Err(MyError::Overflow));
}

#[test]
fn price_product_is_formed_in_128_bits() {
    // u64::MAX * 10^9 does not fit in 64 bits, the price does
    assert_eq!(price_of(u64::MAX, 1, 9, 9), Ok(u64::MAX));
    assert_eq!(price_of(u64::MAX, 1, 10, 9), Ok(u64::MAX / 10));
}

#[test]
fn price_that_does_not_fit_in_64_bits_is_refused() {
    assert_eq!(price_of(u64::MAX, 1, 8, 9), Err(MyError::Overflow));
    assert_eq!(price_of(u64::MAX / 10 + 1, 1, 0, 1), Err(MyError::Overflow));
    assert_eq!(price_of(u64::MAX / 10, 1, 0, 1), Ok(u64::MAX / 10 * 10));
}

#[test]
fn price_with_a_power_of_ten_beyond_128_bits_is_refused() {
    assert_eq!(price_of(100, 10, 39, 9), Err(MyError::Overflow));
    assert_eq!(price_of(100, 10, 6, 39), Err(MyError::Overflow));
    assert_eq!(price_of(0, 10, 255, 9), Err(MyError::Overflow));
    assert_eq!(price_of(0, 10, 6, u32::MAX), Err(MyError::Overflow));
    // 10^38 is the last power of ten that fits
    assert_eq!(price_of(30, 10, 38, 38), Ok(3));
}

#[test]
fn price_product_beyond_128_bits_is_refused() {
    // 4 * 10^38 does not fit in 128 bits, 3 * 10^38 does
    assert_eq!(price_of(4, 1, 38, 38), Err(MyError::Overflow));
    assert_eq!(price_of(3, 1, 38, 38), Ok(3));
}

#[test]
fn currency_has_nine_decimals() {
    assert_eq!(CURRENCY_DECIMALS, 9);
}

#[test]
fn pool_prices_at_its_own_rate_and_decimals() {
    assert_eq!(pool_with(10, 6).calculate_user_must_pay(100), Ok(10_000));
    assert_eq!(pool_with(10, 6).calculate_user_must_pay(100), price_of(100, 10, 6, CURRENCY_DECIMALS));
    assert_eq!(pool_with(3, 9).calculate_user_must_pay(10), Ok(3));
    assert_eq!(pool_with(3, 11).calculate_user_must_pay(1_000), Ok(3));
    assert_eq!(pool_with(10, 6).calculate_user_must_pay(0), Ok(0));
    assert_eq!(pool_with(10, 6).calculate_user_must_pay(9), Ok(0));
    assert_eq!(pool_with(0, 6).calculate_user_must_pay(100), Err(MyError::Overflow));
    assert_eq!(pool_with(1, 0).calculate_user_must_pay(u64::MAX), Err(MyError::Overflow));
}
