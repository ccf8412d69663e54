//! The default logger: timestamped lines, debug and info to standard
//! output, warnings and errors to standard error.

use std::io::Write;
use vstd::prelude::*;
use vstd::string::*;

use crate::text::all_ascii_digits;
use crate::types::common::Logger;

verus! {

/// The text of a year in RFC 3339 output: four digits, or a sign and at
/// least four digits for years outside `0..=9999`.
pub open spec fn rfc3339_year(y: Seq<char>) -> bool {
    ||| y.len() == 4 && all_ascii_digits(y)
    ||| y.len() >= 5 && (y[0] == '+' || y[0] == '-') && all_ascii_digits(y.drop_first())
}

/// Two digits.
pub open spec fn two_digits(d: Seq<char>) -> bool {
    d.len() == 2 && all_ascii_digits(d)
}

/// The fraction of a second: nothing, or a dot and three, six or nine
/// digits.
pub open spec fn rfc3339_fraction(f: Seq<char>) -> bool {
    ||| f.len() == 0
    ||| (f.len() == 4 || f.len() == 7 || f.len() == 10) && f[0] == '.' && all_ascii_digits(f.drop_first())
}

/// `{year}-{month}-{day}T{hour}:{minute}:{second}{fraction}+00:00`.
pub open spec fn utc_rfc3339_text(
    year: Seq<char>,
    month: Seq<char>,
    day: Seq<char>,
    hour: Seq<char>,
    minute: Seq<char>,
    second: Seq<char>,
    fraction: Seq<char>,
) -> Seq<char> {
    year + "-"@ + month + "-"@ + day + "T"@ + hour + ":"@ + minute + ":"@ + second + fraction + "+00:00"@
}

/// A UTC time in RFC 3339 form, with the offset written `+00:00`.
pub open spec fn is_utc_rfc3339(s: Seq<char>) -> bool {
    exists|year: Seq<char>, month: Seq<char>, day: Seq<char>, hour: Seq<char>, minute: Seq<char>,
        second: Seq<char>, fraction: Seq<char>|
        rfc3339_year(year) && two_digits(month) && two_digits(day) && two_digits(hour)
            && two_digits(minute) && two_digits(second) && rfc3339_fraction(fraction)
            && s == #[trigger] utc_rfc3339_text(year, month, day, hour, minute, second, fraction)
}

/// The current time, from `chrono::Utc::now()` and `to_rfc3339`. As
/// chrono's `write_rfc3339` shows, the text is the year (four digits, or
/// signed when outside `0..=9999`), two-digit month, day, hour, minute and
/// second, the fraction of the second with as many groups of three digits
/// as it needs (none when it is zero), and the offset of `Utc`, written
/// `+00:00`. Which time it is is not claimed. `Utc::now` panics when the
/// system clock is set before 1970, which no argument can rule out.
#[verifier::external_body]
pub(crate) fn now_rfc3339() -> (s: String)
    ensures
        is_utc_rfc3339(s@),
{
    chrono::Utc::now().to_rfc3339()
}

/// Writes a line to standard output (`writeln!` on `std::io::stdout()`),
/// and panics when the write fails, as `println!` does.
#[verifier::external_body]
fn write_stdout_line(line: &str) {
    writeln!(std::io::stdout(), "{}", line).expect("failed printing to stdout")
}

/// Writes a line to standard error (`writeln!` on `std::io::stderr()`),
/// and panics when the write fails, as `eprintln!` does.
#[verifier::external_body]
fn write_stderr_line(line: &str) {
    writeln!(std::io::stderr(), "{}", line).expect("failed printing to stderr")
}

/// A logger that writes timestamped lines tagged with a prefix.
pub struct DefaultLogger {
    prefix: String,
}

/// A log line: `[{time}] [{prefix}] [{level}] {message}`.
pub open spec fn log_line(time: Seq<char>, prefix: Seq<char>, level: Seq<char>, message: Seq<char>) -> Seq<char> {
    "["@ + time + "] ["@ + prefix + "] ["@ + level + "] "@ + message
}

impl DefaultLogger {
    /// The logger's prefix.
    pub closed spec fn prefix_text(&self) -> Seq<char> {
        self.prefix@
    }

    /// A logger with the given prefix.
    pub fn new(prefix: &str) -> (l: Self)
        ensures
            l.prefix_text() == prefix@,
    {
        DefaultLogger { prefix: String::from_str(prefix) }
    }

    /// The logger's prefix.
    pub fn prefix(&self) -> (p: &str)
        ensures
            p@ == self.prefix_text(),
    {
        self.prefix.as_str()
    }

    /// The line for a message at a level, stamped with the given time.
    pub fn format_at(&self, time: &str, level: &str, message: &str) -> (s: String)
        ensures
            s@ == log_line(time@, self.prefix_text(), level@, message@),
    {
        let mut s = String::from_str("[");
        s.append(time);
        s.append("] [");
        s.append(self.prefix.as_str());
        s.append("] [");
        s.append(level);
        s.append("] ");
        s.append(message);
        s
    }

    /// The line for a message at a level, stamped with the current time.
    pub fn format(&self, level: &str, message: &str) -> (s: String)
        ensures
            exists|time: Seq<char>| is_utc_rfc3339(time)
                && s@ == #[trigger] log_line(time, self.prefix_text(), level@, message@),
    {
        let time = now_rfc3339();
        self.format_at(time.as_str(), level, message)
    }
}

impl Default for DefaultLogger {
    /// A logger with the prefix `AiBotSDK`.
    fn default() -> (l: Self)
        ensures
            l.prefix_text() == "AiBotSDK"@,
    {
        DefaultLogger::new("AiBotSDK")
    }
}

impl Logger for DefaultLogger {
    fn debug(&self, message: &str) {
        let line = self.format("DEBUG", message);
        write_stdout_line(line.as_str());
    }

    fn info(&self, message: &str) {
        let line = self.format("INFO", message);
        write_stdout_line(line.as_str());
    }

    fn warn(&self, message: &str) {
        let line = self.format("WARN", message);
        write_stderr_line(line.as_str());
    }

    fn error(&self, message: &str) {
        let line = self.format("ERROR", message);
        write_stderr_line(line.as_str());
    }
}

} // verus!
