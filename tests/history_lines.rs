use ratifact::history::{history_line, BuildTime};

fn at(year: u32, month: u32, day: u32, hour: u32, minute: u32) -> BuildTime {
    BuildTime { year, month, day, hour, minute }
}

#[test]
fn history_line_pads_date_and_time() {
    assert_eq!(
        history_line("./proj", "Rust", &at(2024, 3, 7, 9, 5)),
        "./proj - Rust - 2024-03-07 09:05"
    );
}

#[test]
fn history_line_two_digit_fields_unpadded() {
    assert_eq!(
        history_line("/w", "JavaScript", &at(1999, 12, 31, 23, 59)),
        "/w - JavaScript - 1999-12-31 23:59"
    );
}

#[test]
fn history_line_small_year_padded_to_four() {
    assert_eq!(history_line("p", "C", &at(7, 1, 1, 0, 0)), "p - C - 0007-01-01 00:00");
}
