use chrono::{TimeZone, Utc};
use ta::indicators::{AdaptiveTimeDetector, DetectedFrequency};

#[test]
fn test_daily_indicator_with_gap_enforcement() {
    let mut detector = AdaptiveTimeDetector::new(2 * 86400); // 2 days
    assert_eq!(detector.frequency(), &DetectedFrequency::DailyOHLC);

    let base = Utc.with_ymd_and_hms(2024, 1, 1, 9, 30, 0).unwrap();

    // First point
    assert!(!detector.should_replace(base.timestamp()));

    // Point 6.5 hours later (full trading day) - new slot
    assert!(!detector
        .should_replace((base + chrono::Duration::hours(6) + chrono::Duration::minutes(30)).timestamp()));

    // Next day - new slot
    assert!(!detector.should_replace((base + chrono::Duration::days(1)).timestamp()));

    // Now test the 3.4 hour gap enforcement
    let market_open = base + chrono::Duration::days(2);
    assert!(!detector.should_replace(market_open.timestamp())); // New day, new slot

    // Minutely updates within 3.4 hours should replace
    assert!(detector.should_replace((market_open + chrono::Duration::minutes(1)).timestamp()));
    assert!(detector.should_replace((market_open + chrono::Duration::minutes(30)).timestamp()));
    assert!(detector.should_replace((market_open + chrono::Duration::hours(3)).timestamp()));

    // After 3.4 hours, should create new slot
    assert!(!detector.should_replace(
        (market_open + chrono::Duration::hours(3) + chrono::Duration::minutes(25)).timestamp()
    ));
}

#[test]
fn test_half_day_trading() {
    let mut detector = AdaptiveTimeDetector::new(3 * 86400); // 3 days
    assert_eq!(detector.frequency(), &DetectedFrequency::DailyOHLC);

    // Simulate half-day trading (market closes at 1:00 PM, ~3.5 hours)
    let half_day_open = Utc.with_ymd_and_hms(2024, 1, 2, 9, 30, 0).unwrap();
    assert!(!detector.should_replace(half_day_open.timestamp())); // New slot for open price

    // All updates during first 3.4 hours should replace the open price
    assert!(detector.should_replace((half_day_open + chrono::Duration::minutes(30)).timestamp()));
    assert!(detector.should_replace((half_day_open + chrono::Duration::hours(2)).timestamp()));
    assert!(detector.should_replace((half_day_open + chrono::Duration::hours(3)).timestamp()));
    assert!(detector.should_replace(
        (half_day_open + chrono::Duration::hours(3) + chrono::Duration::minutes(20)).timestamp()
    )); // Still within 3.4 hours

    // Close at 1:00 PM (3.5 hours) should create NEW slot since 3.5 > 3.4
    // This captures the closing price as a separate data point
    let half_day_close = half_day_open + chrono::Duration::hours(3) + chrono::Duration::minutes(30);
    assert!(!detector.should_replace(half_day_close.timestamp())); // New slot for close price

    // If more updates come in near close, they replace the close price
    assert!(detector.should_replace((half_day_close + chrono::Duration::minutes(1)).timestamp()));

    // Next day should be a new slot
    let next_day = half_day_open + chrono::Duration::days(1);
    assert!(!detector.should_replace(next_day.timestamp()));
}

#[test]
fn test_intraday_indicator() {
    let mut detector = AdaptiveTimeDetector::new(15 * 60); // 15 minutes
    assert!(matches!(detector.frequency(), DetectedFrequency::Intraday(d) if *d == 60));

    let base = Utc.with_ymd_and_hms(2024, 1, 1, 9, 30, 0).unwrap();

    // First data point
    assert!(!detector.should_replace(base.timestamp()));

    // Same minute - should replace
    assert!(detector.should_replace((base + chrono::Duration::seconds(30)).timestamp()));

    // Next minute - new slot
    assert!(!detector.should_replace((base + chrono::Duration::minutes(1)).timestamp()));

    // Within same minute - should replace
    assert!(detector
        .should_replace((base + chrono::Duration::minutes(1) + chrono::Duration::seconds(15)).timestamp()));

    // Next minute - new slot
    assert!(!detector.should_replace((base + chrono::Duration::minutes(2)).timestamp()));
}

#[test]
fn test_full_trading_day_with_minutely_updates() {
    let mut detector = AdaptiveTimeDetector::new(5 * 86400); // 5 days

    // Full trading day: 9:30 AM to 4:00 PM (6.5 hours)
    let market_open = Utc.with_ymd_and_hms(2024, 1, 2, 9, 30, 0).unwrap();

    // First data point at market open
    assert!(!detector.should_replace(market_open.timestamp()));

    // Minutely updates for first 3 hours should all replace
    for minutes in 1..=180 {
        assert!(
            detector.should_replace((market_open + chrono::Duration::minutes(minutes)).timestamp()),
            "Should replace at {} minutes after open",
            minutes
        );
    }

    // After 3.4 hours (204 minutes), should create new slot
    assert!(!detector.should_replace((market_open + chrono::Duration::minutes(205)).timestamp()));

    // Subsequent updates should replace this new slot
    assert!(detector.should_replace((market_open + chrono::Duration::minutes(210)).timestamp()));
    assert!(detector.should_replace(
        (market_open + chrono::Duration::hours(6)).timestamp() // Near market close
    ));
}

#[test]
fn adaptive_test_reset() {
    let mut detector = AdaptiveTimeDetector::new(86400);
    let base = Utc.with_ymd_and_hms(2024, 1, 1, 9, 30, 0).unwrap();

    // Use detector
    detector.should_replace(base.timestamp());
    detector.should_replace((base + chrono::Duration::hours(1)).timestamp());

    // Reset
    detector.reset();

    // Frequency should remain but state should be cleared
    assert_eq!(detector.frequency(), &DetectedFrequency::DailyOHLC);
    assert!(detector.last_timestamp.is_none());

    // Should work normally after reset
    assert!(!detector.should_replace((base + chrono::Duration::days(1)).timestamp()));
}

#[test]
fn unknown_mode_never_replaces() {
    // The compatibility variant without a selected mode: every timestamp
    // opens a new slot.
    let mut detector = AdaptiveTimeDetector {
        frequency: DetectedFrequency::Unknown,
        last_minute_bucket: None,
        last_timestamp: None,
    };
    assert!(!detector.is_detected());
    assert!(!detector.should_replace(1000));
    assert!(!detector.should_replace(1001));
    assert_eq!(detector.last_timestamp, Some(1001));
}

#[test]
fn with_samples_ignores_sample_count() {
    // The sample-count constructor is a compatibility alias: the mode is
    // fixed from the duration alone.
    let detector = AdaptiveTimeDetector::with_samples(25, 86400);
    assert_eq!(detector.frequency(), &DetectedFrequency::DailyOHLC);
    assert!(detector.is_detected());

    let detector = AdaptiveTimeDetector::with_samples(3, 15 * 60);
    assert!(matches!(detector.frequency(), DetectedFrequency::Intraday(d) if *d == 60));
    assert!(detector.is_detected());

    let detector = AdaptiveTimeDetector::with_samples(3, 15);
    assert!(matches!(detector.frequency(), DetectedFrequency::Intraday(d) if *d == 1));
    assert!(detector.is_detected());
}

#[test]
fn test_memory_footprint_for_trading_sessions() {
    let mut detector = AdaptiveTimeDetector::new(10 * 86400); // 10 days

    // Track which timestamps would be kept (not replaced)
    let mut kept_timestamps: Vec<i64> = Vec::new();

    // Half-day: Should keep exactly 2 points (open and close)
    let half_day_open = Utc.with_ymd_and_hms(2024, 1, 2, 9, 30, 0).unwrap();
    if !detector.should_replace(half_day_open.timestamp()) {
        kept_timestamps.push(half_day_open.timestamp());
    }

    // Minutely updates that get replaced
    for minutes in 1..209 {
        let ts = half_day_open + chrono::Duration::minutes(minutes);
        if !detector.should_replace(ts.timestamp()) {
            kept_timestamps.push(ts.timestamp());
        }
    }

    // Close at 1:00 PM (210 minutes = 3.5 hours)
    let half_day_close = half_day_open + chrono::Duration::minutes(210);
    if !detector.should_replace(half_day_close.timestamp()) {
        kept_timestamps.push(half_day_close.timestamp());
    }

    // We should have exactly 2 timestamps for the half-day
    assert_eq!(kept_timestamps.len(), 2, "Half-day should keep exactly 2 points");

    // Full trading day test
    kept_timestamps.clear();
    detector.reset();

    let full_day_open = Utc.with_ymd_and_hms(2024, 1, 3, 9, 30, 0).unwrap();
    if !detector.should_replace(full_day_open.timestamp()) {
        kept_timestamps.push(full_day_open.timestamp());
    }

    // Minutely updates for 6.5 hours (390 minutes)
    for minutes in 1..=390 {
        let ts = full_day_open + chrono::Duration::minutes(minutes);
        if !detector.should_replace(ts.timestamp()) {
            kept_timestamps.push(ts.timestamp());
        }
    }

    // We should have exactly 2 timestamps for the full day
    // One at open, one after 3.4 hours (204 minutes)
    assert_eq!(kept_timestamps.len(), 2, "Full day should keep exactly 2 points");

    // Verify the gap between kept points is > 3.4 hours
    let gap = kept_timestamps[1] - kept_timestamps[0];
    assert!(gap >= 204 * 60, "Gap between points should be >= 3.4 hours");
}
