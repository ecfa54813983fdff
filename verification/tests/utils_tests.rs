use rctop::textfit::fit_row;
use rctop::utils::{fixed2_string, parse_size, parse_time, spaces, two_digit_string, u64_to_string};

#[test]
fn decimal_rendering() {
    assert_eq!(u64_to_string(0), "0");
    assert_eq!(u64_to_string(7), "7");
    assert_eq!(u64_to_string(10), "10");
    assert_eq!(u64_to_string(65535), "65535");
    assert_eq!(u64_to_string(u64::MAX), "18446744073709551615");
}

#[test]
fn zero_padded_two_digits() {
    assert_eq!(two_digit_string(0), "00");
    assert_eq!(two_digit_string(5), "05");
    assert_eq!(two_digit_string(99), "99");
}

#[test]
fn fixed_point_rendering() {
    assert_eq!(fixed2_string(0), "0.00");
    assert_eq!(fixed2_string(2500), "25.00");
    assert_eq!(fixed2_string(2507), "25.07");
    assert_eq!(fixed2_string(10000), "100.00");
}

#[test]
fn spaces_of_every_length() {
    assert_eq!(spaces(0), "");
    assert_eq!(spaces(3), "   ");
}

#[test]
fn uptime_with_every_component() {
    // One 365-day year is 52 weeks and one day, so the day component
    // comes out one higher than naive addition suggests.
    let t = 31536000 + 2 * 604800 + 3 * 86400 + 4 * 3600 + 5 * 60 + 6;
    assert_eq!(parse_time(t), "1y 2w 4d 4h 5m 6s ");
}

#[test]
fn uptime_skips_zero_components() {
    assert_eq!(parse_time(0), "");
    assert_eq!(parse_time(61), "1m 1s ");
    assert_eq!(parse_time(90061), "1d 1h 1m 1s ");
    assert_eq!(parse_time(3600), "1h ");
}

#[test]
fn size_rendering_picks_the_unit() {
    assert_eq!(parse_size(&0), "0.00B");
    assert_eq!(parse_size(&512), "512.00B");
    assert_eq!(parse_size(&1024), "1024.00B");
    assert_eq!(parse_size(&1500), "1.46KB");
    assert_eq!(parse_size(&(1024 * 1024)), "1024.00KB");
    assert_eq!(parse_size(&(3 * 1024 * 1024)), "3.00MB");
    assert_eq!(parse_size(&(5 * 1024 * 1024 * 1024)), "5.00GB");
    assert_eq!(parse_size(&u64::MAX), "15.99EB");
}

#[test]
fn fit_row_right_justifies_when_both_fit() {
    assert_eq!(fit_row("left", "right", 12), "left   right");
}

#[test]
fn fit_row_pads_when_only_left_fits() {
    assert_eq!(fit_row("left", "right", 9), "left     ");
    assert_eq!(fit_row("left", "", 6), "left  ");
}

#[test]
fn fit_row_truncates_with_ellipsis() {
    assert_eq!(fit_row("a very long title", "x", 10), "a very ...");
}

#[test]
fn fit_row_hard_cut_on_tiny_widths() {
    assert_eq!(fit_row("abcdef", "x", 2), "ab");
    assert_eq!(fit_row("abcdef", "x", 0), "");
}

#[test]
fn fit_row_always_fills_the_width() {
    for w in 0..30usize {
        assert_eq!(fit_row("some title", "meta", w).chars().count(), w);
    }
}
