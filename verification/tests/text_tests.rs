use departure_board::text::format_minutes;
use departure_board::text::time_text;
use departure_board::Upcoming;

fn minutes(values: &[i64]) -> Vec<Upcoming> {
    values.iter().map(|&m| Upcoming { minutes: m }).collect()
}

#[test]
fn two_estimates_join_with_comma_and_min_suffix() {
    assert_eq!(time_text(&minutes(&[3, 11])), "3, 11 min");
}

#[test]
fn single_estimate_has_no_separator() {
    assert_eq!(time_text(&minutes(&[7])), "7 min");
}

#[test]
fn three_estimates_keep_dataset_order() {
    assert_eq!(time_text(&minutes(&[12, 2, 45])), "12, 2, 45 min");
}

#[test]
fn no_estimates_give_bare_min_suffix() {
    assert_eq!(time_text(&minutes(&[])), " min");
}

#[test]
fn negative_and_zero_minutes_format_with_sign() {
    assert_eq!(time_text(&minutes(&[-2, 0])), "-2, 0 min");
}

#[test]
fn format_minutes_small_values() {
    assert_eq!(format_minutes(0), "0");
    assert_eq!(format_minutes(7), "7");
    assert_eq!(format_minutes(10), "10");
    assert_eq!(format_minutes(1234), "1234");
    assert_eq!(format_minutes(-5), "-5");
}

#[test]
fn format_minutes_extreme_values() {
    assert_eq!(format_minutes(i64::MAX), "9223372036854775807");
    assert_eq!(format_minutes(i64::MIN), "-9223372036854775808");
}
