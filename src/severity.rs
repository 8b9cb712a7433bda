//! Levels of the logging framework and the remote severities they map to.
use vstd::prelude::*;

verus! {

/// The level of a log event, from most to least severe.
#[derive(Clone, Copy, Debug, PartialEq, Eq, Structural)]
pub enum Level {
    Error,
    Warn,
    Info,
    Debug,
    Trace,
}

/// The remote severity label of each level: the remote side has no level
/// below DEBUG, so TRACE shares it.
pub open spec fn severity_name(level: Level) -> Seq<char> {
    match level {
        Level::Error => "ERROR"@,
        Level::Warn => "WARNING"@,
        Level::Info => "INFO"@,
        Level::Debug => "DEBUG"@,
        Level::Trace => "DEBUG"@,
    }
}

/// Maps a level to the remote severity label.
pub fn map_level_to_severity(level: Level) -> (r: &'static str)
    ensures
        r@ == severity_name(level),
{
    match level {
        Level::Error => "ERROR",
        Level::Warn => "WARNING",
        Level::Info => "INFO",
        Level::Debug => "DEBUG",
        Level::Trace => "DEBUG",
    }
}

/// Every level maps into the four remote severities ERROR, WARNING, INFO and
/// DEBUG, and TRACE maps exactly as DEBUG does.
pub proof fn lemma_severity_table(level: Level)
    ensures
        severity_name(level) == "ERROR"@ || severity_name(level) == "WARNING"@
            || severity_name(level) == "INFO"@ || severity_name(level) == "DEBUG"@,
        severity_name(Level::Trace) == severity_name(Level::Debug),
{
}

} // verus!
