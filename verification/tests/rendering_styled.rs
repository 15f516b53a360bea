use cron_preview::diff::diff_line;
use cron_preview::line::{Cell, DisplayLine};
use cron_preview::render::error_line;

#[test]
fn styled_emphasized_cell_is_wrapped_in_underlined_yellow() {
    colored::control::set_override(true);
    let line = DisplayLine { cells: vec![Cell { ch: 'x', emphasized: true }] };
    assert_eq!(line.render(), "\u{1b}[4;33mx\u{1b}[0m");
}

#[test]
fn styled_plain_cells_stay_bare() {
    colored::control::set_override(true);
    let line = DisplayLine::plain("12:00");
    assert_eq!(line.render(), "12:00");
}

#[test]
fn styled_line_wraps_each_emphasized_cell_on_its_own() {
    colored::control::set_override(true);
    let line = DisplayLine {
        cells: vec![
            Cell { ch: 'a', emphasized: false },
            Cell { ch: 'b', emphasized: true },
            Cell { ch: 'c', emphasized: true },
            Cell { ch: 'd', emphasized: false },
        ],
    };
    assert_eq!(line.render(), "a\u{1b}[4;33mb\u{1b}[0m\u{1b}[4;33mc\u{1b}[0md");
}

#[test]
fn styled_diff_line_marks_the_changed_hour_digit() {
    colored::control::set_override(true);
    let line = diff_line("2024-01-01 01:00:00 UTC", "2024-01-01 02:00:00 UTC");
    assert_eq!(line.render(), "2024-01-01 0\u{1b}[4;33m2\u{1b}[0m:00:00 UTC");
}

#[test]
fn styled_escape_character_is_wrapped_like_any_other() {
    colored::control::set_override(true);
    let line = DisplayLine { cells: vec![Cell { ch: '\u{1b}', emphasized: true }] };
    assert_eq!(line.render(), "\u{1b}[4;33m\u{1b}\u{1b}[0m");
}

#[test]
fn styled_error_line_has_a_bold_red_label() {
    colored::control::set_override(true);
    assert_eq!(error_line("bad input"), "\u{1b}[1;31merror:\u{1b}[0m bad input");
}
