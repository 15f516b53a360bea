//! Resolving a request: the time zone by `chrono_tz`, the cron expression and
//! its upcoming execution times by `cron`.

use vstd::prelude::*;

verus! {

/// A time zone of `chrono_tz`.
#[verifier::external_type_specification]
#[verifier::external_body]
pub struct ExTz(chrono_tz::Tz);

/// The error with which `chrono_tz` rejects a time-zone name.
#[verifier::external_type_specification]
#[verifier::external_body]
pub struct ExTzParseError(chrono_tz::ParseError);

/// A parsed cron expression of `cron`.
#[verifier::external_type_specification]
#[verifier::external_body]
pub struct ExSchedule(cron::Schedule);

/// The error with which `cron` rejects an expression.
#[verifier::external_type_specification]
#[verifier::external_body]
pub struct ExScheduleError(cron::error::Error);

/// Whether `chrono_tz` knows a time zone of this name.
pub uninterp spec fn is_timezone_name(name: Seq<char>) -> bool;

/// Whether `cron` accepts this text as a cron expression.
pub uninterp spec fn is_cron_expression(expression: Seq<char>) -> bool;

/// What `chrono_tz` says of a name that it does not know.
pub open spec fn unknown_timezone_text() -> Seq<char> {
    "failed to parse timezone"@
}

/// Why a request could not be resolved, with the reason as the resolver
/// worded it.
#[derive(Clone, Debug, PartialEq, Eq)]
pub enum ResolveError {
    /// The time-zone name is not in the time-zone database.
    InvalidTimeZone(String),
    /// The cron expression does not conform to the grammar.
    InvalidExpression(String),
}

impl ResolveError {
    /// The reason, as it is shown to the user.
    pub open spec fn reason(&self) -> Seq<char> {
        match self {
            ResolveError::InvalidTimeZone(reason) => reason@,
            ResolveError::InvalidExpression(reason) => reason@,
        }
    }

    /// The reason, as it is shown to the user.
    pub fn message(&self) -> (text: &String)
        ensures
            text@ == self.reason(),
    {
        match self {
            ResolveError::InvalidTimeZone(reason) => reason,
            ResolveError::InvalidExpression(reason) => reason,
        }
    }
}

/// `str::parse` into `chrono_tz::Tz`: looks the name up in the time-zone
/// table that `chrono_tz` carries. Whether the name is found depends on the
/// name alone.
#[verifier::external_body]
pub(crate) fn parse_timezone(name: &str) -> (found: Result<chrono_tz::Tz, chrono_tz::ParseError>)
    ensures
        found.is_ok() == is_timezone_name(name@),
{
    name.parse::<chrono_tz::Tz>()
}

/// `Display` of `chrono_tz::ParseError`: one fixed sentence.
#[verifier::external_body]
pub(crate) fn timezone_error_text(error: &chrono_tz::ParseError) -> (text: String)
    ensures
        text@ == unknown_timezone_text(),
{
    error.to_string()
}

/// `str::parse` into `cron::Schedule`: parses the expression by the grammar
/// of `cron`. Whether it is accepted depends on the expression alone.
#[verifier::external_body]
pub(crate) fn parse_schedule(expression: &str) -> (parsed: Result<
    cron::Schedule,
    cron::error::Error,
>)
    ensures
        parsed.is_ok() == is_cron_expression(expression@),
{
    expression.parse::<cron::Schedule>()
}

/// `Display` of `cron::error::Error`: the parser's description of what it
/// could not read. Nothing is claimed of its wording.
#[verifier::external_body]
pub(crate) fn schedule_error_text(error: &cron::error::Error) -> (text: String) {
    error.to_string()
}

/// `cron::Schedule::upcoming` in the given time zone, cut off after `lines`
/// items, each formatted by `Display` of `chrono::DateTime`. The times
/// depend on the clock, and a schedule may run out, so only the bound on
/// their number is claimed.
#[verifier::external_body]
pub(crate) fn upcoming_times(schedule: &cron::Schedule, timezone: chrono_tz::Tz, lines: usize) -> (times:
    Vec<String>)
    ensures
        times@.len() <= lines,
{
    schedule.upcoming(timezone).take(lines).map(|datetime| datetime.to_string()).collect()
}

} // verus!
