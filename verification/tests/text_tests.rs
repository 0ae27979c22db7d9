use ladder_filter::text::{format_fixed_3, u64_string};

#[test]
fn integers_format_in_decimal() {
    assert_eq!(u64_string(0), "0");
    assert_eq!(u64_string(7), "7");
    assert_eq!(u64_string(10), "10");
    assert_eq!(u64_string(44_100), "44100");
    assert_eq!(u64_string(20_000), "20000");
    assert_eq!(u64_string(u64::MAX), "18446744073709551615");
}

#[test]
fn fixed_point_values_format_with_three_places() {
    assert_eq!(format_fixed_3(0), "0.000");
    assert_eq!(format_fixed_3(2_000_000), "2.000");
    assert_eq!(format_fixed_3(1_234_567), "1.235");
    assert_eq!(format_fixed_3(-1_234_567), "-1.235");
    assert_eq!(format_fixed_3(499), "0.000");
    assert_eq!(format_fixed_3(500), "0.001");
    assert_eq!(format_fixed_3(999_999), "1.000");
    assert_eq!(format_fixed_3(5_000_000), "5.000");
}
