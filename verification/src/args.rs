//! What the user asks for: which schedule, in which time zone, how many
//! execution times, and whether changes are emphasized.

use vstd::prelude::*;
use vstd::string::StringExecFns;

verus! {

/// The name of the time zone used when none is given.
pub open spec fn default_timezone() -> Seq<char> {
    "UTC"@
}

/// The number of execution times shown when none is given.
pub const DEFAULT_LINES: usize = 5;

/// The request for one preview.
#[derive(Clone, Debug, PartialEq, Eq)]
pub struct Args {
    /// The cron expression to test.
    pub expression: String,
    /// The name of the time zone in which the execution times are shown.
    pub timezone: String,
    /// The number of execution times to show.
    pub lines: usize,
    /// Whether each time is shown with its difference from the previous one
    /// emphasized.
    pub diff: bool,
}

impl Args {
    /// The request for `expression` with every option at its default: the
    /// time zone `UTC`, five lines, no emphasis.
    pub fn new(expression: String) -> (args: Args)
        ensures
            args.expression == expression,
            args.timezone@ == default_timezone(),
            args.lines == DEFAULT_LINES,
            !args.diff,
    {
        Args { expression, timezone: String::from_str("UTC"), lines: DEFAULT_LINES, diff: false }
    }
}

} // verus!
