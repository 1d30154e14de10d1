//! The process-wide logger slot and the text of forwarded records.

use vstd::prelude::*;
use vstd::string::{StrSliceExecFns, StringExecFns};
use crate::levels::{
    LevelError, LogLevel, JavaLogLevel, java_level_of, log_level_of, max_level_spec,
    set_max_level_from_java_level, validate_max_level,
};

verus! {

/// The decimal digit for `d`, which is below ten.
pub open spec fn digit_char(d: nat) -> char {
    seq!['0', '1', '2', '3', '4', '5', '6', '7', '8', '9'][d as int]
}

/// The decimal notation of `n`: no sign, no leading zeros.
pub open spec fn decimal_digits(n: nat) -> Seq<char>
    decreases n,
{
    if n < 10 {
        seq![digit_char(n)]
    } else {
        decimal_digits(n / 10).push(digit_char(n % 10))
    }
}

/// The decimal notation of `n`.
pub fn decimal_text(n: u32) -> (r: String)
    ensures
        r@ == decimal_digits(n as nat),
    decreases n,
{
    let digits = "0123456789";
    proof {
        reveal_strlit("0123456789");
    }
    let d: usize = (n % 10) as usize;
    let last = digits.substring_char(d, d + 1);
    assert(last@ =~= seq![digit_char(d as nat)]);
    if n < 10 {
        String::from_str(last)
    } else {
        let mut text = decimal_text(n / 10);
        text.append(last);
        text
    }
}

/// The text forwarded for a record: `file:line: message`, with
/// `<unknown>` for a missing file and 0 for a missing line.
pub open spec fn record_text(file: Option<Seq<char>>, line: Option<u32>, message: Seq<char>) -> Seq<
    char,
> {
    let f = match file {
        Some(f) => f,
        None => "<unknown>"@,
    };
    let n: nat = match line {
        Some(n) => n as nat,
        None => 0,
    };
    f + ":"@ + decimal_digits(n) + ": "@ + message
}

/// Formats a record for the host's log sink.
pub fn format_record(file: Option<&str>, line: Option<u32>, message: &str) -> (r: String)
    ensures
        r@ == record_text(
            match file {
                Some(f) => Some(f@),
                None => None,
            },
            line,
            message@,
        ),
{
    let mut text = match file {
        Some(f) => String::from_str(f),
        None => String::from_str("<unknown>"),
    };
    text.append(":");
    let digits = match line {
        Some(n) => decimal_text(n),
        None => decimal_text(0),
    };
    text.append(digits.as_str());
    text.append(": ");
    text.append(message);
    text
}

/// The tag that every forwarded line carries.
pub open spec fn library_tag() -> Seq<char> {
    "libsignal-client"@
}

/// Returns the tag that every forwarded line carries.
pub fn library_tag_text() -> (r: String)
    ensures
        r@ == library_tag(),
{
    String::from_str("libsignal-client")
}

/// The first line logged once the logger is installed.
pub open spec fn startup_text(version: Seq<char>) -> Seq<char> {
    "Initializing libsignal-client version:"@ + version
}

/// The line logged when the logger is initialized a second time.
pub open spec fn repeated_init_text() -> Seq<char> {
    "logging already initialized for libsignal-client; ignoring later call"@
}

/// A line that the bridge itself logs.
#[derive(Debug, Clone, PartialEq, Eq)]
pub struct LogLine {
    pub level: LogLevel,
    pub message: String,
}

/// The process-wide logger, as a one-way state: uninitialized, then
/// installed with a maximum level.
pub struct LoggerSlot {
    installed: bool,
    max_level: Option<LogLevel>,
}

impl LoggerSlot {
    /// Whether a logger has been installed.
    pub closed spec fn spec_installed(&self) -> bool {
        self.installed
    }

    /// The maximum level that was last set, if any.
    pub closed spec fn spec_max_level(&self) -> Option<LogLevel> {
        self.max_level
    }

    /// An uninitialized slot.
    pub fn new() -> (r: LoggerSlot)
        ensures
            !r.spec_installed(),
            r.spec_max_level() is None,
    {
        LoggerSlot { installed: false, max_level: None }
    }

    pub fn is_installed(&self) -> (r: bool)
        ensures
            r == self.spec_installed(),
    {
        self.installed
    }

    pub fn max_level(&self) -> (r: Option<LogLevel>)
        ensures
            r == self.spec_max_level(),
    {
        self.max_level
    }

    /// Handles the host's initialize call. The first call installs the
    /// logger, sets the maximum level and gives the startup line (at `Info`,
    /// with the version); a refused level is reported after the installation
    /// and leaves the maximum as it was. A later call changes nothing and
    /// gives a warning line.
    pub fn initialize(&mut self, max_level: i32, version: &str) -> (r: Result<LogLine, LevelError>)
        ensures
            !old(self).spec_installed() ==> {
                &&& final(self).spec_installed()
                &&& match max_level_spec(max_level as int) {
                    Ok(level) => {
                        &&& final(self).spec_max_level() == Some(log_level_of(level))
                        &&& r matches Ok(line) && line.level == LogLevel::Info && line.message@
                            == startup_text(version@)
                    },
                    Err(e) => {
                        &&& final(self).spec_max_level() == old(self).spec_max_level()
                        &&& r == Err::<LogLine, LevelError>(e)
                    },
                }
            },
            old(self).spec_installed() ==> {
                &&& final(self).spec_installed()
                &&& final(self).spec_max_level() == old(self).spec_max_level()
                &&& r matches Ok(line) && line.level == LogLevel::Warn && line.message@
                    == repeated_init_text()
            },
    {
        if self.installed {
            return Ok(
                LogLine {
                    level: LogLevel::Warn,
                    message: String::from_str(
                        "logging already initialized for libsignal-client; ignoring later call",
                    ),
                },
            );
        }
        self.installed = true;
        let level = self.set_max_level(max_level)?;
        let mut message = String::from_str("Initializing libsignal-client version:");
        message.append(version);
        Ok(LogLine { level: LogLevel::Info, message })
    }

    /// Handles the host's call that changes the maximum level; a refused
    /// level changes nothing.
    pub fn set_max_level(&mut self, max_level: i32) -> (r: Result<LogLevel, LevelError>)
        ensures
            final(self).spec_installed() == old(self).spec_installed(),
            match max_level_spec(max_level as int) {
                Ok(level) => {
                    &&& r == Ok::<LogLevel, LevelError>(log_level_of(level))
                    &&& final(self).spec_max_level() == Some(log_level_of(level))
                },
                Err(e) => {
                    &&& r == Err::<LogLevel, LevelError>(e)
                    &&& final(self).spec_max_level() == old(self).spec_max_level()
                },
            },
    {
        validate_max_level(max_level)?;
        let level = set_max_level_from_java_level(max_level);
        self.max_level = Some(level);
        Ok(level)
    }
}

/// The host number with which a record of `level` is forwarded.
pub open spec fn forwarded_level_number(level: LogLevel) -> int {
    crate::levels::java_level_number(java_level_of(level))
}

/// The host number with which a record of `level` is forwarded.
pub fn forwarded_level(level: LogLevel) -> (r: i32)
    ensures
        r == forwarded_level_number(level),
{
    JavaLogLevel::from(level).to_jint()
}

} // verus!
