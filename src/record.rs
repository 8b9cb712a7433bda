//! The record captured for each log event: its severity and the formatted
//! message line.
use vstd::prelude::*;
use crate::severity::{Level, map_level_to_severity, severity_name};

verus! {

/// The pattern of the timestamp at the head of each line: local time with
/// millisecond precision.
pub const TIMESTAMP_PATTERN: &'static str = "%Y-%m-%d %H:%M:%S,%3f";

/// One captured log event, handed to the delivery worker exactly once.
pub struct LogRecord {
    /// The formatted message line
    pub message: String,
    /// The remote severity label
    pub severity: String,
}

pub open spec fn digit_text(d: nat) -> Seq<char> {
    if d == 0 {
        "0"@
    } else if d == 1 {
        "1"@
    } else if d == 2 {
        "2"@
    } else if d == 3 {
        "3"@
    } else if d == 4 {
        "4"@
    } else if d == 5 {
        "5"@
    } else if d == 6 {
        "6"@
    } else if d == 7 {
        "7"@
    } else if d == 8 {
        "8"@
    } else {
        "9"@
    }
}

/// The decimal digits of `n`, most significant first, without leading zeros.
pub open spec fn decimal(n: nat) -> Seq<char>
    decreases n,
{
    if n < 10 {
        digit_text(n)
    } else {
        decimal(n / 10) + digit_text(n % 10)
    }
}

fn digit_str(d: u32) -> (r: &'static str)
    requires
        d < 10,
    ensures
        r@ == digit_text(d as nat),
{
    if d == 0 {
        "0"
    } else if d == 1 {
        "1"
    } else if d == 2 {
        "2"
    } else if d == 3 {
        "3"
    } else if d == 4 {
        "4"
    } else if d == 5 {
        "5"
    } else if d == 6 {
        "6"
    } else if d == 7 {
        "7"
    } else if d == 8 {
        "8"
    } else {
        "9"
    }
}

/// Writes `n` in decimal.
pub fn decimal_string(n: u32) -> (r: String)
    ensures
        r@ == decimal(n as nat),
    decreases n,
{
    if n < 10 {
        String::from_str(digit_str(n))
    } else {
        let mut s = decimal_string(n / 10);
        s.append(digit_str(n % 10));
        s
    }
}

/// The source file of an event, `unknown_file` where it has none.
pub open spec fn file_text(file: Option<&str>) -> Seq<char> {
    match file {
        Some(f) => f@,
        None => "unknown_file"@,
    }
}

/// The source line of an event, 0 where it has none.
pub open spec fn line_number(line: Option<u32>) -> nat {
    match line {
        Some(l) => l as nat,
        None => 0,
    }
}

/// The message of an event, `**UNDEFINED**` where it has no message field.
pub open spec fn message_text(message: Option<String>) -> Seq<char> {
    match message {
        Some(m) => m@,
        None => "**UNDEFINED**"@,
    }
}

/// The line `[<timestamp>] <severity> [<target> <file>:<line>] [<message>]`.
pub open spec fn event_line(
    timestamp: Seq<char>,
    level: Level,
    target: Seq<char>,
    file: Option<&str>,
    line: Option<u32>,
    message: Option<String>,
) -> Seq<char> {
    "["@ + timestamp + "] "@ + severity_name(level) + " ["@ + target + " "@ + file_text(file) + ":"@
        + decimal(line_number(line)) + "] ["@ + message_text(message) + "]"@
}

/// Builds the record of an event that happened at `timestamp`.
pub fn format_record(
    timestamp: &str,
    level: Level,
    target: &str,
    file: Option<&str>,
    line: Option<u32>,
    message: Option<String>,
) -> (r: LogRecord)
    ensures
        r.severity@ == severity_name(level),
        r.message@ == event_line(timestamp@, level, target@, file, line, message),
{
    let severity = map_level_to_severity(level);
    let file_name = match file {
        Some(f) => f,
        None => "unknown_file",
    };
    let line_text = match line {
        Some(l) => decimal_string(l),
        None => decimal_string(0),
    };
    let mut text = String::from_str("[");
    text.append(timestamp);
    text.append("] ");
    text.append(severity);
    text.append(" [");
    text.append(target);
    text.append(" ");
    text.append(file_name);
    text.append(":");
    text.append(line_text.as_str());
    text.append("] [");
    match &message {
        Some(m) => text.append(m.as_str()),
        None => text.append("**UNDEFINED**"),
    }
    text.append("]");
    LogRecord { message: text, severity: String::from_str(severity) }
}

/// The shape of a timestamp written in `TIMESTAMP_PATTERN`: a year of at
/// least four characters, then `-MM-DD HH:MM:SS,mmm` in digits.
pub open spec fn timestamp_shape(t: Seq<char>) -> bool {
    &&& t.len() >= 23
    &&& forall|i: int|
        0 <= i < 19 ==> {
            let c = #[trigger] t[t.len() - 19 + i];
            if i == 0 || i == 3 {
                c == '-'
            } else if i == 6 {
                c == ' '
            } else if i == 9 || i == 12 {
                c == ':'
            } else if i == 15 {
                c == ','
            } else {
                '0' <= c <= '9'
            }
        }
}

/// Relies on chrono's `Local::now` and `DateTime::format`: the current local
/// time written in `TIMESTAMP_PATTERN` (`%Y` takes four digits or more,
/// `%m %d %H %M %S` two digits each, `%3f` three digits). Which time it is
/// depends on the clock, so only the shape is stated.
#[verifier::external_body]
fn local_time_formatted(pattern: &str) -> (r: String)
    requires
        pattern@ == TIMESTAMP_PATTERN@,
    ensures
        timestamp_shape(r@),
{
    chrono::Local::now().format(pattern).to_string()
}

/// Captures an event as it happens: its record carries the current local
/// time at the head of the line.
pub fn capture_record(
    level: Level,
    target: &str,
    file: Option<&str>,
    line: Option<u32>,
    message: Option<String>,
) -> (r: LogRecord)
    ensures
        r.severity@ == severity_name(level),
        exists|timestamp: Seq<char>|
            timestamp_shape(timestamp) && r.message@ == #[trigger] event_line(
                timestamp,
                level,
                target@,
                file,
                line,
                message,
            ),
{
    let now = local_time_formatted(TIMESTAMP_PATTERN);
    let r = format_record(now.as_str(), level, target, file, line, message);
    assert(r.message@ == event_line(now@, level, target@, file, line, message));
    r
}

} // verus!
