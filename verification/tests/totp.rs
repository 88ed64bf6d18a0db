use bitwarden_desktop_next::totp::{
    countdown, countdown_at,
    delay_after_subsec, delay_to_next_second, format_code, seconds_remaining_at,
    seconds_remaining_from, BOUNDARY_SLACK_NANOS, NANOS_PER_SEC,
};

#[test]
fn six_digit_code_gets_split() {
    assert_eq!(format_code("123456"), "123 456");
    assert_eq!(format_code("000000"), "000 000");
}

#[test]
fn steam_codes_pass_through() {
    // Steam guard codes are 5 alphanumeric chars; leave them alone.
    assert_eq!(format_code("X4F2K"), "X4F2K");
}

#[test]
fn non_six_digit_codes_pass_through() {
    assert_eq!(format_code("12345"), "12345");
    assert_eq!(format_code("1234567"), "1234567");
    assert_eq!(format_code(""), "");
}

#[test]
fn non_digit_six_chars_pass_through() {
    // The all-digits branch must not trigger for mixed content.
    assert_eq!(format_code("12345A"), "12345A");
    assert_eq!(format_code("ABCDEF"), "ABCDEF");
}

#[test]
fn six_non_ascii_digits_pass_through() {
    assert_eq!(format_code("١٢٣٤٥٦"), "١٢٣٤٥٦");
}

#[test]
fn seconds_remaining_counts_down_to_the_period_boundary() {
    assert_eq!(seconds_remaining_at(0, 30), 30);
    assert_eq!(seconds_remaining_at(1, 30), 29);
    assert_eq!(seconds_remaining_at(29, 30), 1);
    assert_eq!(seconds_remaining_at(30, 30), 30);
    assert_eq!(seconds_remaining_at(1_700_000_015, 30), 25);
    assert_eq!(seconds_remaining_at(7, 1), 1);
}

#[test]
fn seconds_remaining_from_clock_stays_in_period() {
    let r = seconds_remaining_from(30);
    assert!((1..=30).contains(&r));
}

#[test]
fn delay_lands_just_past_next_second() {
    assert_eq!(delay_after_subsec(0), NANOS_PER_SEC + BOUNDARY_SLACK_NANOS);
    assert_eq!(delay_after_subsec(999_999_999), 1 + BOUNDARY_SLACK_NANOS);
    assert_eq!(delay_after_subsec(250_000_000), 760_000_000);
    let d = delay_to_next_second();
    assert!(d > BOUNDARY_SLACK_NANOS && d <= NANOS_PER_SEC + BOUNDARY_SLACK_NANOS);
}

#[test]
fn countdown_turns_urgent_at_five_seconds() {
    assert_eq!(countdown_at(24, 30), (6, false));
    assert_eq!(countdown_at(25, 30), (5, true));
    assert_eq!(countdown_at(29, 30), (1, true));
    assert_eq!(countdown_at(30, 30), (30, false));
    let (rem, urgent) = countdown(30);
    assert!((1..=30).contains(&rem));
    assert_eq!(urgent, rem <= 5);
}
