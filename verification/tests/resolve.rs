use sleep_timer::duration::{decompose, parse_arguments};

#[test]
fn resolves_seconds_and_minutes() {
    assert_eq!(parse_arguments(30, 1, 0, 0), 90);
}

#[test]
fn resolves_all_units() {
    assert_eq!(parse_arguments(1, 1, 1, 1), 90061);
}

#[test]
fn resolves_zero() {
    assert_eq!(parse_arguments(0, 0, 0, 0), 0);
}

#[test]
fn decomposes_one_of_each_unit() {
    assert_eq!(decompose(90061), (1, 1, 1, 1));
}

#[test]
fn decomposes_zero() {
    assert_eq!(decompose(0), (0, 0, 0, 0));
}

#[test]
fn decomposes_unit_boundaries() {
    assert_eq!(decompose(59), (0, 0, 0, 59));
    assert_eq!(decompose(60), (0, 0, 1, 0));
    assert_eq!(decompose(3600), (0, 1, 0, 0));
    assert_eq!(decompose(86399), (0, 23, 59, 59));
    assert_eq!(decompose(86400), (1, 0, 0, 0));
}

#[test]
fn round_trip_recombines() {
    for t in [0u64, 1, 59, 60, 61, 3599, 3600, 86399, 86400, 90061, 123456789] {
        let (d, h, m, s) = decompose(t);
        assert_eq!(parse_arguments(s, m, h, d), t);
    }
}

#[test]
fn resolves_largest_representable_sum() {
    assert_eq!(parse_arguments(u64::MAX, 0, 0, 0), u64::MAX);
}
