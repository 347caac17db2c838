use waku::trajectory::duration::format_exact_duration;

#[test]
fn test_duration_formatting_and_unknown_timing() {
    assert_eq!(format_exact_duration(None), "No timing data");
    assert_eq!(format_exact_duration(Some(0)), "0ms");
    assert_eq!(format_exact_duration(Some(350)), "350ms");
    assert_eq!(format_exact_duration(Some(1200)), "1.20s");
    assert_eq!(format_exact_duration(Some(65000)), "1m 5s");
    assert_eq!(format_exact_duration(Some(3665000)), "1h 1m 5s");
}

#[test]
fn seconds_agree_with_double_precision_for_every_duration() {
    for ms in 1_000..60_000i64 {
        assert_eq!(
            format_exact_duration(Some(ms)),
            format!("{:.2}s", ms as f64 / 1000.0),
        );
    }
}

#[test]
fn negative_and_whole_hours() {
    assert_eq!(format_exact_duration(Some(-1)), "No timing data");
    assert_eq!(format_exact_duration(Some(3_600_000)), "1h 0m");
    assert_eq!(format_exact_duration(Some(3_599_999)), "59m 59s");
    assert_eq!(format_exact_duration(Some(59_999)), "60.00s");
    assert_eq!(format_exact_duration(Some(1_125)), "1.12s");
    assert_eq!(format_exact_duration(Some(i64::MAX)), "2562047788015h 12m 55s");
}
