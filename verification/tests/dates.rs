use platform_utils::dates::{format_date, generate_current_date, is_date_current, parse_date, CalendarDate};

#[test]
fn current_date_matches_pattern() {
    let s = generate_current_date();
    let chars: Vec<char> = s.chars().collect();
    assert_eq!(chars.len(), 10);
    for (i, c) in chars.iter().enumerate() {
        if i == 4 || i == 7 {
            assert_eq!(*c, '-');
        } else {
            assert!(c.is_ascii_digit());
        }
    }
}

#[test]
fn current_date_matches_system_clock() {
    // Rendered twice in case the first pair of calls straddles midnight.
    let ours = generate_current_date();
    let expected = chrono::Local::now().date_naive().format("%Y-%m-%d").to_string();
    if ours != expected {
        let ours_again = generate_current_date();
        let expected_again = chrono::Local::now().date_naive().format("%Y-%m-%d").to_string();
        assert_eq!(ours_again, expected_again);
    }
}

#[test]
fn today_is_current() {
    let today = generate_current_date();
    if !is_date_current(&today) {
        // The clock may have crossed midnight between the two calls.
        let again = generate_current_date();
        assert!(is_date_current(&again));
    }
}

#[test]
fn garbage_is_not_current() {
    assert!(!is_date_current("not-a-date"));
}

#[test]
fn past_date_is_not_current() {
    assert!(!is_date_current("2000-01-01"));
}

#[test]
fn parse_accepts_leap_day() {
    let d = parse_date("2024-02-29").unwrap();
    assert_eq!(d, CalendarDate { year: 2024, month: 2, day: 29 });
}

#[test]
fn parse_rejects_nonexistent_days() {
    assert_eq!(parse_date("2023-02-29"), None);
    assert_eq!(parse_date("2023-04-31"), None);
    assert_eq!(parse_date("1900-02-29"), None);
    assert_eq!(parse_date("2000-02-29"), Some(CalendarDate { year: 2000, month: 2, day: 29 }));
}

#[test]
fn parse_rejects_out_of_range_fields() {
    assert_eq!(parse_date("2023-00-10"), None);
    assert_eq!(parse_date("2023-13-10"), None);
    assert_eq!(parse_date("2023-12-00"), None);
    assert_eq!(parse_date("2023-12-32"), None);
}

#[test]
fn parse_rejects_wrong_shape() {
    assert_eq!(parse_date(""), None);
    assert_eq!(parse_date("2023-1-01"), None);
    assert_eq!(parse_date("2023/01/01"), None);
    assert_eq!(parse_date("2023-01-01 "), None);
    assert_eq!(parse_date("x023-01-01"), None);
    assert_eq!(parse_date("+2023-01-1"), None);
    assert_eq!(parse_date("20230-1-01"), None);
}

#[test]
fn format_pads_and_signs_years() {
    assert_eq!(format_date(CalendarDate { year: 2026, month: 10, day: 11 }), "2026-10-11");
    assert_eq!(format_date(CalendarDate { year: 5, month: 1, day: 2 }), "0005-01-02");
    assert_eq!(format_date(CalendarDate { year: 987, month: 12, day: 31 }), "0987-12-31");
    assert_eq!(format_date(CalendarDate { year: -5, month: 1, day: 2 }), "-0005-01-02");
    assert_eq!(format_date(CalendarDate { year: 12345, month: 6, day: 7 }), "12345-06-07");
}

#[test]
fn format_then_parse_returns_the_date() {
    let dates = [
        CalendarDate { year: 2026, month: 10, day: 11 },
        CalendarDate { year: 2024, month: 2, day: 29 },
        CalendarDate { year: 1, month: 1, day: 1 },
        CalendarDate { year: 9999, month: 12, day: 31 },
    ];
    for d in dates {
        assert_eq!(parse_date(&format_date(d)), Some(d));
    }
}
