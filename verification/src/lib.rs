//! Preview of a cron schedule: the next execution times of a cron expression
//! in a chosen time zone, each shown plainly or with the characters that
//! changed since the previous time emphasized.

pub mod args;
pub mod diff;
pub mod line;
pub mod present;
pub mod render;
pub mod schedule;
