//! Unit tests of the fee arithmetic and the rate limiter helper.

use contract_generator::contract::check_and_update_rate_limit;
use contract_generator::fees::platform_fee;
use contract_generator::types::AccountInfo;

#[test]
fn platform_fee_exact_values() {
    // 250 basis points of 1000 is 25.
    assert_eq!(platform_fee(1000, 250), 25);
    // The fee rounds down: 250 basis points of 39 is floor(0.975).
    assert_eq!(platform_fee(39, 250), 0);
    assert_eq!(platform_fee(0, 250), 0);
    assert_eq!(platform_fee(10000, 10000), 10000);
    assert_eq!(platform_fee(123456789, 0), 0);
    // A price beyond 64 bits still computes without overflow.
    assert_eq!(platform_fee(u128::MAX, 10000), u128::MAX);
    assert_eq!(platform_fee(u128::MAX, 1), u128::MAX / 10000);
}

#[test]
fn rate_limit_counts_within_a_day() {
    let info = AccountInfo { generations_today: 0, last_generation_day: 5, generation_count: 0 };
    let now: u64 = 5 * 86400 + 100;
    let (ok, info) = check_and_update_rate_limit(info, now, 3);
    assert!(ok);
    assert_eq!(info.generations_today, 1);
    assert_eq!(info.last_generation_day, 5);
    let (ok, info) = check_and_update_rate_limit(info, now, 3);
    assert!(ok);
    let (ok, info) = check_and_update_rate_limit(info, now, 3);
    assert!(ok);
    assert_eq!(info.generations_today, 3);
    let (ok, unchanged) = check_and_update_rate_limit(info, now, 3);
    assert!(!ok);
    assert_eq!(unchanged, info);
}

#[test]
fn rate_limit_resets_on_a_new_day() {
    let info = AccountInfo { generations_today: 3, last_generation_day: 5, generation_count: 9 };
    let now: u64 = 6 * 86400;
    let (ok, info) = check_and_update_rate_limit(info, now, 3);
    assert!(ok);
    assert_eq!(info.generations_today, 1);
    assert_eq!(info.last_generation_day, 6);
    assert_eq!(info.generation_count, 9);
}

#[test]
fn rate_limit_zero_limit_refuses_everything() {
    let info = AccountInfo { generations_today: 0, last_generation_day: 0, generation_count: 0 };
    let (ok, unchanged) = check_and_update_rate_limit(info, 86400 * 2, 0);
    assert!(!ok);
    assert_eq!(unchanged, info);
}
