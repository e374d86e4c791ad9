use chronocam::archive::archive_path;
use chronocam::decimal::decimal_string;

#[test]
fn decimal_of_zero_is_one_digit() {
    assert_eq!(decimal_string(0), "0");
}

#[test]
fn decimal_of_single_digits() {
    assert_eq!(decimal_string(7), "7");
    assert_eq!(decimal_string(9), "9");
}

#[test]
fn decimal_keeps_inner_and_trailing_zeros() {
    assert_eq!(decimal_string(10), "10");
    assert_eq!(decimal_string(1001), "1001");
    assert_eq!(decimal_string(1_000_000_000), "1000000000");
}

#[test]
fn decimal_of_a_nanosecond_count() {
    assert_eq!(decimal_string(1_600_000_000_123_456_789), "1600000000123456789");
}

#[test]
fn decimal_of_negative_numbers_has_a_sign() {
    assert_eq!(decimal_string(-1), "-1");
    assert_eq!(decimal_string(-120), "-120");
}

#[test]
fn decimal_of_the_extremes() {
    assert_eq!(decimal_string(i64::MAX), "9223372036854775807");
    assert_eq!(decimal_string(i64::MIN), "-9223372036854775808");
}

#[test]
fn decimal_agrees_with_the_standard_formatter() {
    let samples: [i64; 9] = [0, 5, 42, 99, 100, 65_535, -7, -10, 123_456_789_012];
    for n in samples {
        assert_eq!(decimal_string(n), format!("{}", n));
    }
}

#[test]
fn path_is_directory_slash_nanoseconds_and_extension() {
    assert_eq!(
        archive_path("/tmp/chronocam-output", 1_600_000_000_000_000_000),
        "/tmp/chronocam-output/1600000000000000000.jpg"
    );
}

#[test]
fn path_keeps_the_directory_as_given() {
    assert_eq!(archive_path("out", 15), "out/15.jpg");
    assert_eq!(archive_path("out/", 15), "out//15.jpg");
    assert_eq!(archive_path("", 0), "/0.jpg");
}

#[test]
fn path_before_the_epoch_carries_the_sign() {
    assert_eq!(archive_path("d", -3), "d/-3.jpg");
}

#[test]
fn later_instants_sort_later_when_their_numbers_are_equally_long() {
    let instants: [i64; 5] = [
        1_000_000_000_000_000_000,
        1_000_000_000_000_000_001,
        1_599_999_999_999_999_999,
        1_600_000_000_000_000_000,
        i64::MAX,
    ];
    for pair in instants.windows(2) {
        let earlier = archive_path("shots", pair[0]);
        let later = archive_path("shots", pair[1]);
        assert!(earlier < later, "{} should sort before {}", earlier, later);
    }
}

#[test]
fn a_longer_number_may_sort_before_a_shorter_one() {
    let nine = archive_path("shots", 9);
    let ten = archive_path("shots", 10);
    assert!(ten < nine);
}

#[test]
fn names_before_the_epoch_sort_before_all_others() {
    for (before, after) in [(-1, 0), (-1, 1), (i64::MIN, 0), (-5, i64::MAX), (-120, 7)] {
        assert!(archive_path("shots", before) < archive_path("shots", after));
    }
}

#[test]
fn names_of_unequal_length_sort_by_their_leading_digits() {
    assert!(archive_path("shots", 1) < archive_path("shots", 10));
    assert!(archive_path("shots", 5) < archive_path("shots", 57));
    assert!(archive_path("shots", 6) > archive_path("shots", 57));
    assert!(archive_path("shots", 99) > archive_path("shots", 100));
    assert!(archive_path("shots", 12) < archive_path("shots", 123_456));
    assert!(archive_path("shots", 13) > archive_path("shots", 123_456));
}

#[test]
fn names_before_the_epoch_sort_by_the_digits_of_their_magnitudes() {
    assert!(archive_path("shots", -2) > archive_path("shots", -1));
    assert!(archive_path("shots", -20) > archive_path("shots", -19));
    assert!(archive_path("shots", -10) < archive_path("shots", -2));
    assert!(archive_path("shots", -57) < archive_path("shots", -6));
    assert!(archive_path("shots", -10) > archive_path("shots", -1));
    assert!(archive_path("shots", -67) > archive_path("shots", -6));
}

#[test]
fn names_of_different_instants_differ() {
    let instants: [i64; 8] = [i64::MIN, -10, -1, 0, 1, 10, 100, i64::MAX];
    for one in instants {
        for other in instants {
            if one != other {
                assert_ne!(archive_path("shots", one), archive_path("shots", other));
            }
        }
    }
}
