//! Tests for the duration model and the decimal numeral helper.

use matrix_requests::duration::Duration;
use matrix_requests::numeral::u64_to_dec;

#[test]
fn numeral_zero() {
    assert_eq!(u64_to_dec(0), "0");
}

#[test]
fn numeral_single_digit() {
    assert_eq!(u64_to_dec(7), "7");
}

#[test]
fn numeral_ten_thousand() {
    assert_eq!(u64_to_dec(10_000), "10000");
}

#[test]
fn numeral_largest() {
    assert_eq!(u64_to_dec(u64::MAX), "18446744073709551615");
}

#[test]
fn duration_from_secs_millis() {
    let d = Duration::from_secs(10);
    assert_eq!(d.checked_millis(), Some(10_000));
}

#[test]
fn duration_from_millis_round_trip() {
    let d = Duration::from_millis(123_456);
    assert_eq!(d.checked_millis(), Some(123_456));
}

#[test]
fn duration_nanos_truncate_to_millis() {
    let d = Duration::new(1, 999_999);
    assert_eq!(d.checked_millis(), Some(1_000));
    let d = Duration::new(1, 1_000_000);
    assert_eq!(d.checked_millis(), Some(1_001));
}

#[test]
fn duration_millis_boundary_fits() {
    let d = Duration::from_millis(u64::MAX);
    assert_eq!(d.checked_millis(), Some(u64::MAX));
}

#[test]
fn duration_millis_one_beyond_overflows() {
    // u64::MAX milliseconds is 18446744073709551 s + 615 ms; one more
    // millisecond no longer fits in a u64.
    let d = Duration::new(18_446_744_073_709_551, 616_000_000);
    assert_eq!(d.checked_millis(), None);
}
