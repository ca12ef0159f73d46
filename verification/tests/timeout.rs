use std::time::Duration;
use trillium_grpc::timeout::{format_grpc_timeout, parse_grpc_timeout};

#[test]
fn format_picks_smallest_fitting_unit() {
    assert_eq!(format_grpc_timeout(Duration::from_nanos(500)), "500n");
    assert_eq!(format_grpc_timeout(Duration::from_micros(500)), "500000n");
    // 500ms = 500_000_000n, doesn't fit (9 digits) → step up to micros.
    assert_eq!(format_grpc_timeout(Duration::from_millis(500)), "500000u");
    // 5s = 5_000_000us, fits in micros (7 digits).
    assert_eq!(format_grpc_timeout(Duration::from_secs(5)), "5000000u");
    // 5min = 5_000_000_000us doesn't fit, 5_000_000ms doesn't fit (10
    // digits), 5_000ms doesn't... wait: 300_000ms fits → "300000m".
    assert_eq!(format_grpc_timeout(Duration::from_secs(300)), "300000m");
    // 1 hour = 3_600_000ms, fits as ms.
    assert_eq!(format_grpc_timeout(Duration::from_secs(3600)), "3600000m");
    // 1 day = 86_400s, fits as seconds.
    assert_eq!(
        format_grpc_timeout(Duration::from_secs(86_400)),
        "86400000m"
    );
}

#[test]
fn format_rounds_up() {
    // 1500ns → 2us (round up, never under-promise).
    assert_eq!(format_grpc_timeout(Duration::from_nanos(1500)), "1500n");
    // Construct a duration that doesn't fit in nanos and isn't a
    // whole number of micros: 99_999_999_500 ns = 99_999_999.5 us.
    // Doesn't fit as nanos (12 digits). As micros: ceil = 100_000_000,
    // doesn't fit. As ms: ceil(99_999_999_500 / 1_000_000) = 100_000.
    assert_eq!(
        format_grpc_timeout(Duration::from_nanos(99_999_999_500)),
        "100000m"
    );
}

#[test]
fn format_zero() {
    assert_eq!(format_grpc_timeout(Duration::ZERO), "0n");
}

#[test]
fn format_saturates_at_max_hours() {
    // u64::MAX nanos ≈ 213 years; well under 99_999_999 hours
    // (~11_400 years). Construct something larger via from_secs:
    let huge = Duration::from_secs(u64::MAX); // ~5.8e11 years
    assert_eq!(format_grpc_timeout(huge), "99999999H");
}

#[test]
fn parse_each_unit() {
    assert_eq!(parse_grpc_timeout("500n"), Some(Duration::from_nanos(500)));
    assert_eq!(parse_grpc_timeout("500u"), Some(Duration::from_micros(500)));
    assert_eq!(parse_grpc_timeout("500m"), Some(Duration::from_millis(500)));
    assert_eq!(parse_grpc_timeout("5S"), Some(Duration::from_secs(5)));
    assert_eq!(parse_grpc_timeout("2M"), Some(Duration::from_secs(120)));
    assert_eq!(parse_grpc_timeout("1H"), Some(Duration::from_secs(3600)));
}

#[test]
fn parse_extreme_value() {
    // 99_999_999H = 99_999_999 * 3600 seconds. Should parse cleanly.
    let d = parse_grpc_timeout("99999999H").unwrap();
    assert_eq!(d.as_secs(), 99_999_999u64 * 3600);
}

#[test]
fn parse_rejects_malformed() {
    assert_eq!(parse_grpc_timeout(""), None);
    assert_eq!(parse_grpc_timeout("S"), None); // no digits
    assert_eq!(parse_grpc_timeout("5"), None); // no unit
    assert_eq!(parse_grpc_timeout("5s"), None); // lowercase s is not a unit
    assert_eq!(parse_grpc_timeout("5x"), None); // bad unit
    assert_eq!(parse_grpc_timeout("-1S"), None); // sign not allowed
    assert_eq!(parse_grpc_timeout("1.5S"), None); // not an integer
    assert_eq!(parse_grpc_timeout(" 5S"), None); // whitespace not allowed
}

#[test]
fn parse_zero_is_valid() {
    assert_eq!(parse_grpc_timeout("0n"), Some(Duration::ZERO));
    assert_eq!(parse_grpc_timeout("0S"), Some(Duration::ZERO));
}

#[test]
fn roundtrip_typical_durations() {
    for d in [
        Duration::from_millis(1),
        Duration::from_millis(100),
        Duration::from_secs(1),
        Duration::from_secs(30),
        Duration::from_secs(300),
    ] {
        let formatted = format_grpc_timeout(d);
        let parsed = parse_grpc_timeout(&formatted).unwrap();
        assert_eq!(parsed, d, "roundtrip failed for {d:?} → {formatted:?}");
    }
}

#[test]
fn parse_takes_at_most_eight_digits() {
    assert_eq!(parse_grpc_timeout("12345678S"), Some(Duration::from_secs(12_345_678)));
    assert_eq!(parse_grpc_timeout("123456789S"), None);
    assert_eq!(parse_grpc_timeout("00000005S"), Some(Duration::from_secs(5)));
    assert_eq!(parse_grpc_timeout("000000005S"), None);
    assert_eq!(parse_grpc_timeout("18446744073709551616n"), None);
    assert_eq!(parse_grpc_timeout("5é"), None);
}

#[test]
fn formatted_timeouts_are_never_tighter() {
    for nanos in [0u64, 1, 99_999_999, 100_000_000, 99_999_999_001, 123_456_789_012_345] {
        let d = Duration::from_nanos(nanos);
        let back = parse_grpc_timeout(&format_grpc_timeout(d)).unwrap();
        assert!(back >= d);
    }
    assert_eq!(
        format_grpc_timeout(Duration::from_secs(99_999_999 * 3600)),
        "99999999H"
    );
    assert_eq!(
        format_grpc_timeout(Duration::from_secs(99_999_999 * 60 + 1)),
        "1666667H"
    );
}

#[test]
fn rewritten_timeouts_stand_for_the_same_time() {
    for text in ["00000005S", "99999999M", "99999999H", "7m", "0H", "12345678u", "1n"] {
        let parsed = parse_grpc_timeout(text).unwrap();
        assert_eq!(parse_grpc_timeout(&format_grpc_timeout(parsed)), Some(parsed));
    }
}
