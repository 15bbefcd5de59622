use github_activity_check::time::{days_between, utc_time};

#[test]
fn whole_days_round_toward_zero() {
    let base = utc_time(1_700_000_000, 0);
    let ten_days_later = utc_time(1_700_000_000 + 10 * 86_400, 0);
    assert_eq!(days_between(&ten_days_later, &base), 10);
    assert_eq!(days_between(&base, &ten_days_later), -10);
    let almost = utc_time(1_700_000_000 + 10 * 86_400 - 1, 999_999_999);
    assert_eq!(days_between(&almost, &base), 9);
    assert_eq!(days_between(&base, &almost), -9);
    assert_eq!(days_between(&base, &base), 0);
}

#[test]
fn extreme_instants_do_not_overflow() {
    let first = utc_time(i64::MIN, 0);
    let last = utc_time(i64::MAX, u32::MAX);
    let d = days_between(&last, &first);
    assert_eq!(d, ((i64::MAX as i128 - i64::MIN as i128) / 86_400) as i64);
    assert_eq!(days_between(&first, &last), -d);
}
