//! The aggregator: lower-bound median, staleness window, quorum and sign
//! checks, and the fixed-point result.

use pull_feed::lower_bound_median;
use pull_feed::OnDemandError;
use pull_feed::PullFeedAccountData;
use rust_decimal::Decimal;

const TAG: [u8; 8] = [196, 27, 108, 196, 10, 215, 219, 40];
const SCALE: i128 = 1_000_000_000_000_000_000;

fn empty_buffer() -> Vec<u8> {
    let mut buf = vec![0u8; 8 + 3200];
    buf[..8].copy_from_slice(&TAG);
    buf
}

fn write_submission(buf: &mut [u8], i: usize, slot: u64, value: i128) {
    let off = 8 + 64 * i;
    buf[off + 32..off + 40].copy_from_slice(&slot.to_le_bytes());
    buf[off + 48..off + 64].copy_from_slice(&value.to_le_bytes());
}

/// A ledger with three populated submissions at slots 10, 11, 12 and values
/// 100, 200, 300 at scale 10^18.
fn three_submission_feed() -> PullFeedAccountData {
    let mut buf = empty_buffer();
    write_submission(&mut buf, 0, 10, 100 * SCALE);
    write_submission(&mut buf, 1, 11, 200 * SCALE);
    write_submission(&mut buf, 2, 12, 300 * SCALE);
    PullFeedAccountData::parse(&buf).unwrap()
}

#[test]
fn median_of_odd_list_is_the_middle() {
    let mut v: Vec<i128> = vec![5, 1, 3];
    assert_eq!(lower_bound_median(&mut v), Some(3));
    assert_eq!(v, vec![1, 3, 5]);
}

#[test]
fn median_of_even_list_is_the_upper_middle() {
    let mut v: Vec<i128> = vec![4, 1, 3, 2];
    assert_eq!(lower_bound_median(&mut v), Some(3));
    assert_eq!(v, vec![1, 2, 3, 4]);
}

#[test]
fn median_of_empty_list_is_absent() {
    let mut v: Vec<i128> = vec![];
    assert_eq!(lower_bound_median(&mut v), None);
}

#[test]
fn median_handles_duplicates_and_negatives() {
    let mut v: Vec<i128> = vec![-7, -7, 0, -7];
    assert_eq!(lower_bound_median(&mut v), Some(-7));
    assert_eq!(v, vec![-7, -7, -7, 0]);
    let mut v: Vec<i128> = vec![42];
    assert_eq!(lower_bound_median(&mut v), Some(42));
}

#[test]
fn get_value_returns_scaled_median() {
    let feed = three_submission_feed();
    let r = feed.get_value(12, 5, 2, true);
    let expected = Decimal::from_i128_with_scale(200 * SCALE, 18);
    assert_eq!(r.unwrap(), expected);
}

#[test]
fn get_value_fails_below_quorum() {
    let feed = three_submission_feed();
    let r = feed.get_value(12, 5, 4, true);
    assert!(matches!(r, Err(OnDemandError::NotEnoughSamples)));
}

#[test]
fn get_value_rejects_nonpositive_median() {
    let mut buf = empty_buffer();
    write_submission(&mut buf, 0, 10, -50 * SCALE);
    let feed = PullFeedAccountData::parse(&buf).unwrap();
    let r = feed.get_value(12, 5, 1, true);
    assert!(matches!(r, Err(OnDemandError::IllegalFeedValue)));
}

#[test]
fn get_value_keeps_nonpositive_median_without_sign_check() {
    let mut buf = empty_buffer();
    write_submission(&mut buf, 0, 10, -50 * SCALE);
    let feed = PullFeedAccountData::parse(&buf).unwrap();
    let r = feed.get_value(12, 5, 1, false);
    assert_eq!(r.unwrap(), Decimal::from_i128_with_scale(-50 * SCALE, 18));
}

#[test]
fn get_value_excludes_stale_submissions() {
    let feed = three_submission_feed();
    // Cutoff 10: only the submissions at slots 11 and 12 are fresh.
    let r = feed.get_value(12, 2, 1, true);
    assert_eq!(r.unwrap(), Decimal::from_i128_with_scale(300 * SCALE, 18));
    // Cutoff 11: only slot 12 is fresh, and the quorum of 2 is missed.
    let r = feed.get_value(12, 1, 2, true);
    assert!(matches!(r, Err(OnDemandError::NotEnoughSamples)));
}

#[test]
fn get_value_wide_window_keeps_every_submission() {
    let feed = three_submission_feed();
    // A staleness window wider than the clock saturates at slot zero.
    let r = feed.get_value(12, 1000, 3, true);
    assert_eq!(r.unwrap(), Decimal::from_i128_with_scale(200 * SCALE, 18));
}

#[test]
fn get_value_stops_at_the_empty_sentinel() {
    let mut buf = empty_buffer();
    write_submission(&mut buf, 0, 10, 100 * SCALE);
    // A populated entry after the sentinel at index 1 is not part of the
    // dense prefix and must be ignored.
    write_submission(&mut buf, 2, 12, 300 * SCALE);
    let feed = PullFeedAccountData::parse(&buf).unwrap();
    let r = feed.get_value(12, 100, 1, true);
    assert_eq!(r.unwrap(), Decimal::from_i128_with_scale(100 * SCALE, 18));
    let r = feed.get_value(12, 100, 2, true);
    assert!(matches!(r, Err(OnDemandError::NotEnoughSamples)));
}

#[test]
fn get_value_empty_ledger_fails_even_without_quorum() {
    let buf = empty_buffer();
    let feed = PullFeedAccountData::parse(&buf).unwrap();
    let r = feed.get_value(12, 100, 0, false);
    assert!(matches!(r, Err(OnDemandError::NotEnoughSamples)));
}

#[test]
fn get_value_median_beyond_decimal_range_fails_conversion() {
    let mut buf = empty_buffer();
    // A mantissa above 2^96 - 1 cannot be represented by the decimal type.
    write_submission(&mut buf, 0, 10, i128::MAX);
    let feed = PullFeedAccountData::parse(&buf).unwrap();
    let r = feed.get_value(12, 100, 1, true);
    assert!(matches!(r, Err(OnDemandError::DecimalConversionError)));
}

#[test]
fn submission_accessors_report_the_ledger() {
    let feed = three_submission_feed();
    assert!(!feed.submissions[0].is_empty());
    assert!(feed.submissions[3].is_empty());
    assert_eq!(
        feed.submissions[1].value(),
        Decimal::from_i128_with_scale(200 * SCALE, 18)
    );
}
