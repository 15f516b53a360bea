//! The presentation of a schedule: one display line for each execution time,
//! shown plainly or against the time before it.

use crate::args::Args;
use crate::diff::{char_diff, diff_cells, diff_line};
use crate::line::{plain_cells, Cell, DisplayLine};
use crate::schedule::{
    is_cron_expression, is_timezone_name, parse_schedule, parse_timezone, schedule_error_text,
    timezone_error_text, unknown_timezone_text, upcoming_times, ResolveError,
};
use vstd::prelude::*;
use vstd::string::StringExecFns;

verus! {

/// The cells of the line for `current`, given the mode and the time that was
/// shown before it, if any. Without a predecessor, or with emphasis off, the
/// line is plain.
pub open spec fn next_cells(diff: bool, previous: Option<Seq<char>>, current: Seq<char>) -> Seq<
    Cell,
> {
    match previous {
        Some(before) => if diff {
            diff_cells(char_diff(before, current))
        } else {
            plain_cells(current)
        },
        None => plain_cells(current),
    }
}

/// The time shown before line `i`, if any.
pub open spec fn predecessor(times: Seq<Seq<char>>, i: int) -> Option<Seq<char>> {
    if i > 0 {
        Some(times[i - 1])
    } else {
        None
    }
}

/// The cells of line `i` of the presentation of `times`.
pub open spec fn shown(times: Seq<Seq<char>>, diff: bool, i: int) -> Seq<Cell> {
    next_cells(diff, predecessor(times, i), times[i])
}

/// The formatted times as mathematical texts.
pub open spec fn texts(times: Seq<String>) -> Seq<Seq<char>> {
    Seq::new(times.len(), |i: int| times[i]@)
}

/// Whether `lines` is the presentation of `times`: one line for each time, in
/// order, each with the cells that its mode and its predecessor give it, and
/// each reading, without its marks, as its time in full.
pub open spec fn is_presentation(lines: Seq<DisplayLine>, times: Seq<Seq<char>>, diff: bool) -> bool {
    &&& lines.len() == times.len()
    &&& forall|i: int|
        0 <= i < lines.len() ==> {
            &&& (#[trigger] lines[i])@ == shown(times, diff, i)
            &&& lines[i].text() == times[i]
        }
}

/// The first line is the same with emphasis on as with emphasis off: there is
/// nothing before it to compare it with.
pub proof fn lemma_first_line_is_plain(times: Seq<Seq<char>>)
    requires
        times.len() > 0,
    ensures
        shown(times, true, 0) == shown(times, false, 0),
        shown(times, true, 0) == plain_cells(times[0]),
{
}

/// With emphasis off, every line is plain.
pub proof fn lemma_plain_mode_lines(times: Seq<Seq<char>>, i: int)
    requires
        0 <= i < times.len(),
    ensures
        shown(times, false, i) == plain_cells(times[i]),
{
}

/// The memory of the presentation: the mode, and the time shown last.
#[derive(Clone, Debug, PartialEq, Eq)]
pub struct Presenter {
    /// Whether changes against the previous time are emphasized.
    pub diff: bool,
    /// The time shown last, if any.
    pub previous: Option<String>,
}

impl Presenter {
    /// The time shown last, as a mathematical text.
    pub open spec fn last_shown(&self) -> Option<Seq<char>> {
        match self.previous {
            Some(before) => Some(before@),
            None => None,
        }
    }

    /// A presentation that has shown nothing yet.
    pub fn new(diff: bool) -> (presenter: Presenter)
        ensures
            presenter.diff == diff,
            presenter.previous is None,
    {
        Presenter { diff, previous: None }
    }

    /// The line for the next time, which then becomes the time shown last.
    pub fn present(&mut self, timestamp: &str) -> (line: DisplayLine)
        ensures
            line@ == next_cells(old(self).diff, old(self).last_shown(), timestamp@),
            line.text() == timestamp@,
            final(self).diff == old(self).diff,
            final(self).last_shown() == Some(timestamp@),
    {
        let line = match &self.previous {
            Some(before) => if self.diff {
                diff_line(before.as_str(), timestamp)
            } else {
                DisplayLine::plain(timestamp)
            },
            None => DisplayLine::plain(timestamp),
        };
        self.previous = Some(String::from_str(timestamp));
        line
    }
}

/// The presentation of `times`, in order.
pub fn present_all(times: &Vec<String>, diff: bool) -> (lines: Vec<DisplayLine>)
    ensures
        is_presentation(lines@, texts(times@), diff),
{
    let ghost all = texts(times@);
    let mut presenter = Presenter::new(diff);
    let mut lines: Vec<DisplayLine> = Vec::new();
    let mut i: usize = 0;
    while i < times.len()
        invariant
            i <= times.len(),
            all == texts(times@),
            presenter.diff == diff,
            presenter.last_shown() == predecessor(all, i as int),
            is_presentation(lines@, all.take(i as int), diff),
        decreases times.len() - i,
    {
        let line = presenter.present(times[i].as_str());
        let ghost before = lines@;
        lines.push(line);
        proof {
            assert(all[i as int] == times@[i as int]@);
            assert forall|j: int| 0 <= j < lines@.len() implies {
                &&& (#[trigger] lines@[j])@ == shown(all.take(i + 1), diff, j)
                &&& lines@[j].text() == all.take(i + 1)[j]
            } by {
                if j < i {
                    assert(lines@[j] == before[j]);
                    assert(before[j]@ == shown(all.take(i as int), diff, j));
                }
            }
        }
        i += 1;
    }
    assert(all.take(i as int) =~= all);
    lines
}

/// Resolves the request and presents its upcoming execution times.
///
/// The time zone is resolved first, then the expression; a request that fails
/// either yields the error and no line. Otherwise the result is the
/// presentation of the times that the schedule gave, at most `args.lines` of
/// them.
pub fn preview(args: &Args) -> (result: Result<Vec<DisplayLine>, ResolveError>)
    ensures
        match result {
            Ok(lines) => {
                &&& is_timezone_name(args.timezone@)
                &&& is_cron_expression(args.expression@)
                &&& lines@.len() <= args.lines
                &&& exists|times: Seq<Seq<char>>| is_presentation(lines@, times, args.diff)
            },
            Err(ResolveError::InvalidTimeZone(reason)) => {
                &&& !is_timezone_name(args.timezone@)
                &&& reason@ == unknown_timezone_text()
            },
            Err(ResolveError::InvalidExpression(_)) => {
                &&& is_timezone_name(args.timezone@)
                &&& !is_cron_expression(args.expression@)
            },
        },
        args.lines == 0 ==> (result matches Ok(lines) ==> lines@.len() == 0),
{
    let timezone = match parse_timezone(args.timezone.as_str()) {
        Ok(timezone) => timezone,
        Err(error) => {
            return Err(ResolveError::InvalidTimeZone(timezone_error_text(&error)));
        },
    };
    let schedule = match parse_schedule(args.expression.as_str()) {
        Ok(schedule) => schedule,
        Err(error) => {
            return Err(ResolveError::InvalidExpression(schedule_error_text(&error)));
        },
    };
    let times = upcoming_times(&schedule, timezone, args.lines);
    let lines = present_all(&times, args.diff);
    assert(lines@.len() == texts(times@).len());
    assert(exists|shown_times: Seq<Seq<char>>| is_presentation(lines@, shown_times, args.diff));
    Ok(lines)
}

} // verus!
