use flood_insurance::level::{
    flood_level_note, flood_threshold_note, format_flood_level, level_magnitude, parse_level,
    reaches_threshold, DEFAULT_FLOOD_THRESHOLD, MAX_FLOOD_THRESHOLD,
};

#[test]
fn test_value_scaling() {
    // Test conversion from feet to scaled integer
    let feet_values = vec![(2.5, 250), (3.0, 300), (4.11, 411), (10.99, 1099)];

    for (feet, expected_scaled) in feet_values {
        let scaled = (feet * 100.0) as i64;
        assert_eq!(
            scaled, expected_scaled,
            "Failed to scale {} feet correctly",
            feet
        );
    }
    // The same levels, read from text.
    assert_eq!(parse_level("2.5"), Some(250));
    assert_eq!(parse_level("3.0"), Some(300));
    assert_eq!(parse_level("4.11"), Some(411));
    assert_eq!(parse_level("10.99"), Some(1099));
}

#[test]
fn test_threshold_comparison() {
    // Test threshold comparisons
    let test_cases = vec![
        (299, 300, false), // Below threshold
        (300, 300, true),  // At threshold
        (301, 300, true),  // Above threshold
    ];

    for (value, threshold, expected) in test_cases {
        let result = value >= threshold;
        assert_eq!(
            result, expected,
            "Failed threshold comparison: {} >= {}",
            value, threshold
        );
        assert_eq!(reaches_threshold(value, threshold), expected);
    }
}

#[test]
fn parses_two_decimals() {
    assert_eq!(parse_level("3.45"), Some(345));
}

#[test]
fn parse_cuts_later_decimals_off() {
    assert_eq!(parse_level("3.459"), Some(345));
    assert_eq!(parse_level("0.999"), Some(99));
    assert_eq!(parse_level("-1.239"), Some(-123));
}

#[test]
fn parse_accepts_signs_and_bare_points() {
    assert_eq!(parse_level("+7"), Some(700));
    assert_eq!(parse_level("-12"), Some(-1200));
    assert_eq!(parse_level("5."), Some(500));
    assert_eq!(parse_level(".5"), Some(50));
    assert_eq!(parse_level("-0"), Some(0));
    assert_eq!(parse_level("007.10"), Some(710));
}

#[test]
fn parse_rejects_what_is_no_level() {
    assert_eq!(parse_level(""), None);
    assert_eq!(parse_level("-"), None);
    assert_eq!(parse_level("."), None);
    assert_eq!(parse_level("+."), None);
    assert_eq!(parse_level("abc"), None);
    assert_eq!(parse_level("3.4.5"), None);
    assert_eq!(parse_level("3,45"), None);
    assert_eq!(parse_level("1e3"), None);
    assert_eq!(parse_level(" 3.45"), None);
    assert_eq!(parse_level("3.45 "), None);
    assert_eq!(parse_level("--3"), None);
    assert_eq!(parse_level("3-"), None);
    assert_eq!(parse_level("12.3x"), None);
    assert_eq!(parse_level("٣"), None);
}

#[test]
fn parse_range_ends_at_i64_max() {
    assert_eq!(
        parse_level("92233720368547758.07"),
        Some(9223372036854775807)
    );
    assert_eq!(
        parse_level("-92233720368547758.07"),
        Some(-9223372036854775807)
    );
    assert_eq!(parse_level("92233720368547758.08"), None);
    assert_eq!(parse_level("92233720368547759"), None);
    assert_eq!(parse_level("922337203685477580"), None);
    assert_eq!(parse_level("99999999999999999999999999999"), None);
    assert_eq!(parse_level("99999999999999999999999999999x"), None);
}

#[test]
fn threshold_compares_whole_feet() {
    // 12.50 ft threshold: 12.90 ft is cut down to 12 ft and falls short.
    assert!(!reaches_threshold(1290, 1250));
    assert!(reaches_threshold(1300, 1250));
    // 12.00 ft threshold.
    assert!(!reaches_threshold(1190, 1200));
    assert!(reaches_threshold(1200, 1200));
    assert!(reaches_threshold(1299, 1200));
    // A level below zero counts as zero feet.
    assert!(!reaches_threshold(-500, 1));
    assert!(reaches_threshold(-500, 0));
    assert!(reaches_threshold(-500, -100));
    assert!(reaches_threshold(i64::MAX, MAX_FLOOD_THRESHOLD));
    assert!(!reaches_threshold(i64::MIN, DEFAULT_FLOOD_THRESHOLD));
}

#[test]
fn formats_levels_with_two_decimals() {
    assert_eq!(format_flood_level(345), "3.45 ft");
    assert_eq!(format_flood_level(1200), "12.00 ft");
    assert_eq!(format_flood_level(0), "0.00 ft");
    assert_eq!(format_flood_level(5), "0.05 ft");
    assert_eq!(format_flood_level(-5), "-0.05 ft");
    assert_eq!(format_flood_level(-12345), "-123.45 ft");
    assert_eq!(format_flood_level(10000), "100.00 ft");
    assert_eq!(
        format_flood_level(i64::MAX),
        "92233720368547758.07 ft"
    );
    assert_eq!(
        format_flood_level(i64::MIN),
        "-92233720368547758.08 ft"
    );
}

#[test]
fn magnitude_of_extremes() {
    assert_eq!(level_magnitude(0), 0);
    assert_eq!(level_magnitude(-1), 1);
    assert_eq!(level_magnitude(i64::MIN), 9223372036854775808);
    assert_eq!(level_magnitude(i64::MAX), 9223372036854775807);
}

#[test]
fn notes_for_the_log() {
    assert_eq!(
        flood_level_note(0, 1190),
        "Flood level updated: 0.00 ft -> 11.90 ft"
    );
    assert_eq!(
        flood_level_note(-25, 1200),
        "Flood level updated: -0.25 ft -> 12.00 ft"
    );
    assert_eq!(
        flood_threshold_note(1200, 10000),
        "Flood threshold updated: 12.00 ft -> 100.00 ft"
    );
}
