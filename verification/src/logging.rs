//! Lines of the updater's log.
use vstd::prelude::*;
use vstd::string::*;
use crate::text::{all_white, chars_of, is_blank, nat_chars, nat_text, string_of};

verus! {

/// A log line: the time and the level in brackets, then the message.
pub open spec fn log_line(timestamp: Seq<char>, level: Seq<char>, message: Seq<char>) -> Seq<char> {
    "["@ + timestamp + "] ["@ + level + "] "@ + message
}

/// The time written on a log line: the clock's text when it is not blank, else
/// the seconds since the Unix epoch, else `0`.
pub open spec fn stamp_of(clock: Option<Seq<char>>, epoch_seconds: Option<u64>) -> Seq<char> {
    match clock {
        Some(c) if !all_white(c) => c,
        _ => match epoch_seconds {
            Some(n) => nat_text(n as nat),
            None => "0"@,
        },
    }
}

fn line(timestamp: &str, level: &str, message: &str) -> (r: String)
    ensures
        r@ == log_line(timestamp@, level@, message@),
{
    let mut s = String::from_str("[");
    s.append(timestamp);
    s.append("] [");
    s.append(level);
    s.append("] ");
    s.append(message);
    s
}

/// The log line for an informational message.
pub fn info(timestamp: &str, message: &str) -> (r: String)
    ensures
        r@ == log_line(timestamp@, "INFO"@, message@),
{
    line(timestamp, "INFO", message)
}

/// The log line for a warning.
pub fn warn(timestamp: &str, message: &str) -> (r: String)
    ensures
        r@ == log_line(timestamp@, "WARN"@, message@),
{
    line(timestamp, "WARN", message)
}

/// The log line for an error.
pub fn error(timestamp: &str, message: &str) -> (r: String)
    ensures
        r@ == log_line(timestamp@, "ERROR"@, message@),
{
    line(timestamp, "ERROR", message)
}

/// Chooses the time written on a log line from what the clock script printed
/// (`None` when it failed) and the seconds since the Unix epoch (`None` when the
/// system clock is before it).
pub fn log_timestamp(clock: Option<&str>, epoch_seconds: Option<u64>) -> (r: String)
    ensures
        r@ == stamp_of(
            match clock { Some(c) => Some(c@), None => None },
            epoch_seconds,
        ),
{
    match clock {
        Some(c) => {
            if !is_blank(&chars_of(c)) {
                return String::from_str(c);
            }
        },
        None => {},
    }
    match epoch_seconds {
        Some(n) => string_of(&nat_chars(n)),
        None => String::from_str("0"),
    }
}

} // verus!
