use cron_preview::args::{Args, DEFAULT_LINES};
use cron_preview::line::DisplayLine;
use cron_preview::present::preview;
use cron_preview::schedule::ResolveError;

fn text_of(line: &DisplayLine) -> String {
    line.cells.iter().map(|c| c.ch).collect()
}

fn request(expression: &str, timezone: &str, lines: usize, diff: bool) -> Args {
    Args { expression: String::from(expression), timezone: String::from(timezone), lines, diff }
}

fn is_hourly_utc_stamp(text: &str) -> bool {
    let b = text.as_bytes();
    b.len() == 23
        && b.iter().enumerate().all(|(i, c)| match i {
            4 | 7 => *c == b'-',
            10 | 19 => *c == b' ',
            13 | 16 => *c == b':',
            20..=22 => true,
            _ => c.is_ascii_digit(),
        })
        && text.ends_with(":00:00 UTC")
}

fn hour_of(text: &str) -> u32 {
    text[11..13].parse().unwrap()
}

#[test]
fn defaults_are_utc_five_lines_no_emphasis() {
    let args = Args::new(String::from("0 0 * * * *"));
    assert_eq!(args.expression, "0 0 * * * *");
    assert_eq!(args.timezone, "UTC");
    assert_eq!(args.lines, 5);
    assert_eq!(DEFAULT_LINES, 5);
    assert!(!args.diff);
}

#[test]
fn default_request_gives_five_lines() {
    let lines = preview(&Args::new(String::from("0 0 * * * *"))).unwrap();
    assert_eq!(lines.len(), 5);
}

#[test]
fn hourly_schedule_gives_three_lines_one_hour_apart() {
    let lines = preview(&request("0 0 * * * *", "UTC", 3, false)).unwrap();
    assert_eq!(lines.len(), 3);
    let texts: Vec<String> = lines.iter().map(text_of).collect();
    for text in &texts {
        assert!(is_hourly_utc_stamp(text), "{}", text);
    }
    for pair in texts.windows(2) {
        assert_eq!(hour_of(&pair[1]), (hour_of(&pair[0]) + 1) % 24);
        assert!(pair[0] < pair[1]);
    }
    assert!(lines.iter().all(|line| line.cells.iter().all(|c| !c.emphasized)));
}

#[test]
fn hourly_schedule_with_emphasis_marks_what_changed() {
    let lines = preview(&request("0 0 * * * *", "UTC", 3, true)).unwrap();
    assert_eq!(lines.len(), 3);
    assert!(lines[0].cells.iter().all(|c| !c.emphasized));
    for line in &lines[1..] {
        assert!(is_hourly_utc_stamp(&text_of(line)));
        assert!(line.cells.iter().any(|c| c.emphasized));
        assert!(line.cells[13..].iter().all(|c| !c.emphasized));
    }
}

#[test]
fn requested_count_is_the_number_of_lines() {
    for n in [1usize, 2, 7, 40] {
        let lines = preview(&request("0 */5 * * * *", "Europe/Paris", n, true)).unwrap();
        assert_eq!(lines.len(), n);
        let texts: Vec<String> = lines.iter().map(text_of).collect();
        assert!(texts.iter().all(|t| t.len() > 20));
    }
}

#[test]
fn zero_lines_give_no_output_and_no_error() {
    assert_eq!(preview(&request("0 0 * * * *", "UTC", 0, false)), Ok(Vec::new()));
    assert_eq!(preview(&request("0 0 * * * *", "UTC", 0, true)), Ok(Vec::new()));
}

#[test]
fn unknown_time_zone_is_an_error() {
    let result = preview(&request("0 0 * * * *", "Not/AZone", 3, false));
    assert_eq!(
        result,
        Err(ResolveError::InvalidTimeZone(String::from("failed to parse timezone")))
    );
    assert_eq!(result.unwrap_err().message(), "failed to parse timezone");
}

#[test]
fn malformed_expression_is_an_error() {
    let result = preview(&request("not a cron", "UTC", 3, false));
    match result {
        Err(ResolveError::InvalidExpression(reason)) => assert!(!reason.is_empty()),
        other => panic!("{:?}", other),
    }
}

#[test]
fn time_zone_is_resolved_before_the_expression() {
    let result = preview(&request("not a cron", "Not/AZone", 3, false));
    assert!(matches!(result, Err(ResolveError::InvalidTimeZone(_))));
}

#[test]
fn errors_come_even_when_no_line_is_asked_for() {
    assert!(matches!(
        preview(&request("not a cron", "UTC", 0, false)),
        Err(ResolveError::InvalidExpression(_))
    ));
    assert!(matches!(
        preview(&request("0 0 * * * *", "Not/AZone", 0, true)),
        Err(ResolveError::InvalidTimeZone(_))
    ));
}

#[test]
fn times_carry_the_offset_of_their_zone() {
    let lines = preview(&request("0 0 12 * * *", "Asia/Tokyo", 2, false)).unwrap();
    for line in &lines {
        let text = text_of(line);
        assert!(text.ends_with("12:00:00 JST"), "{}", text);
    }
}

#[test]
fn schedule_that_has_run_out_gives_no_lines() {
    assert_eq!(preview(&request("0 0 0 1 1 * 2000", "UTC", 5, true)), Ok(Vec::new()));
}

#[test]
fn message_returns_the_reason_of_either_error() {
    let a = ResolveError::InvalidTimeZone(String::from("one"));
    let b = ResolveError::InvalidExpression(String::from("two"));
    assert_eq!(a.message(), "one");
    assert_eq!(b.message(), "two");
}

#[test]
fn expression_without_a_seconds_field_is_rejected() {
    assert!(matches!(
        preview(&request("* * * * *", "UTC", 3, false)),
        Err(ResolveError::InvalidExpression(_))
    ));
}

#[test]
fn shorthand_expression_is_accepted() {
    let lines = preview(&request("@hourly", "UTC", 2, false)).unwrap();
    assert_eq!(lines.len(), 2);
    assert!(lines.iter().all(|line| is_hourly_utc_stamp(&text_of(line))));
}
