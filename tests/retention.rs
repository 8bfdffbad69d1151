use unifi_protect_backup::retention::{age_string, keep_daily};

#[test]
fn ninety_seconds_is_one_minute() {
    assert_eq!(age_string(90), "1m");
}

#[test]
fn age_in_days_hours_minutes() {
    assert_eq!(age_string(30 * 86400), "30d");
    assert_eq!(age_string(86400), "1d");
    assert_eq!(age_string(86399), "23h");
    assert_eq!(age_string(7200), "2h");
    assert_eq!(age_string(3600), "1h");
    assert_eq!(age_string(3599), "59m");
    assert_eq!(age_string(600), "10m");
}

#[test]
fn age_never_below_one_minute() {
    assert_eq!(age_string(0), "1m");
    assert_eq!(age_string(59), "1m");
}

#[test]
fn keep_daily_counts_whole_days() {
    assert_eq!(keep_daily(30 * 86400), 30);
    assert_eq!(keep_daily(86399), 0);
    assert_eq!(keep_daily(2 * 86400 + 5), 2);
}
