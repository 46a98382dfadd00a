use peach_menu::snapshot::{clock_now, Clock};
use peach_menu::states::clock_text;
use peach_menu::text::{two_digit_string, u64_string};

#[test]
fn decimal_formatting_matches_the_usual_numerals() {
    assert_eq!(u64_string(0), "0");
    assert_eq!(u64_string(7), "7");
    assert_eq!(u64_string(10), "10");
    assert_eq!(u64_string(42), "42");
    assert_eq!(u64_string(1024), "1024");
    assert_eq!(u64_string(90210), "90210");
    assert_eq!(u64_string(u64::MAX), "18446744073709551615");
}

#[test]
fn two_digit_formatting_pads_with_a_zero() {
    assert_eq!(two_digit_string(0), "00");
    assert_eq!(two_digit_string(5), "05");
    assert_eq!(two_digit_string(10), "10");
    assert_eq!(two_digit_string(59), "59");
    assert_eq!(two_digit_string(99), "99");
}

#[test]
fn clock_text_reads_like_a_clock_face() {
    assert_eq!(clock_text(&Clock { hour: 0, minute: 0 }), "00:00");
    assert_eq!(clock_text(&Clock { hour: 9, minute: 5 }), "09:05");
    assert_eq!(clock_text(&Clock { hour: 23, minute: 59 }), "23:59");
}

#[test]
fn the_wall_clock_reads_a_valid_time() {
    let c = clock_now();
    assert!(c.hour < 24);
    assert!(c.minute < 60);
}
