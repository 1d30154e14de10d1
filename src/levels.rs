//! The log levels of the library and of the host, and the table between them.

use vstd::prelude::*;
use vstd::string::StringExecFns;

verus! {

/// The library's five log levels, most severe first.
#[derive(Debug, Clone, Copy, PartialEq, Eq, Structural)]
pub enum LogLevel {
    Error,
    Warn,
    Info,
    Debug,
    Trace,
}

/// The host's log levels; their numbers are those of the host's logging
/// interface (2 to 7).
#[derive(Debug, Clone, Copy, PartialEq, Eq, Structural)]
pub enum JavaLogLevel {
    Verbose,
    Debug,
    Info,
    Warn,
    Error,
    Assert,
}

/// Why a host level was refused as a maximum level.
#[derive(Debug, Clone, Copy, PartialEq, Eq, Structural)]
pub enum LevelError {
    /// The host's verbose level (2): the host bindings themselves log at
    /// that level, so it cannot be the maximum.
    Reserved,
    /// Not a level of the host at all.
    OutOfRange,
}

/// The host's number for a level.
pub open spec fn java_level_number(level: JavaLogLevel) -> int {
    match level {
        JavaLogLevel::Verbose => 2,
        JavaLogLevel::Debug => 3,
        JavaLogLevel::Info => 4,
        JavaLogLevel::Warn => 5,
        JavaLogLevel::Error => 6,
        JavaLogLevel::Assert => 7,
    }
}

/// The host level of a library level.
pub open spec fn java_level_of(level: LogLevel) -> JavaLogLevel {
    match level {
        LogLevel::Error => JavaLogLevel::Error,
        LogLevel::Warn => JavaLogLevel::Warn,
        LogLevel::Info => JavaLogLevel::Info,
        LogLevel::Debug => JavaLogLevel::Debug,
        LogLevel::Trace => JavaLogLevel::Verbose,
    }
}

/// The library level of a host level; both of the host's two most severe
/// levels become `Error`.
pub open spec fn log_level_of(level: JavaLogLevel) -> LogLevel {
    match level {
        JavaLogLevel::Error | JavaLogLevel::Assert => LogLevel::Error,
        JavaLogLevel::Warn => LogLevel::Warn,
        JavaLogLevel::Info => LogLevel::Info,
        JavaLogLevel::Debug => LogLevel::Debug,
        JavaLogLevel::Verbose => LogLevel::Trace,
    }
}

/// Which host numbers are accepted as a maximum level, and as what.
pub open spec fn max_level_spec(n: int) -> Result<JavaLogLevel, LevelError> {
    if n == 2 {
        Err(LevelError::Reserved)
    } else if n == 3 {
        Ok(JavaLogLevel::Debug)
    } else if n == 4 {
        Ok(JavaLogLevel::Info)
    } else if n == 5 {
        Ok(JavaLogLevel::Warn)
    } else if n == 6 {
        Ok(JavaLogLevel::Error)
    } else if n == 7 {
        Ok(JavaLogLevel::Assert)
    } else {
        Err(LevelError::OutOfRange)
    }
}

impl From<LogLevel> for JavaLogLevel {
    fn from(level: LogLevel) -> (r: JavaLogLevel) {
        match level {
            LogLevel::Error => JavaLogLevel::Error,
            LogLevel::Warn => JavaLogLevel::Warn,
            LogLevel::Info => JavaLogLevel::Info,
            LogLevel::Debug => JavaLogLevel::Debug,
            LogLevel::Trace => JavaLogLevel::Verbose,
        }
    }
}

impl vstd::std_specs::convert::FromSpecImpl<LogLevel> for JavaLogLevel {
    open spec fn obeys_from_spec() -> bool {
        true
    }

    open spec fn from_spec(v: LogLevel) -> JavaLogLevel {
        java_level_of(v)
    }
}

impl From<JavaLogLevel> for LogLevel {
    fn from(level: JavaLogLevel) -> (r: LogLevel) {
        match level {
            JavaLogLevel::Error | JavaLogLevel::Assert => LogLevel::Error,
            JavaLogLevel::Warn => LogLevel::Warn,
            JavaLogLevel::Info => LogLevel::Info,
            JavaLogLevel::Debug => LogLevel::Debug,
            JavaLogLevel::Verbose => LogLevel::Trace,
        }
    }
}

impl vstd::std_specs::convert::FromSpecImpl<JavaLogLevel> for LogLevel {
    open spec fn obeys_from_spec() -> bool {
        true
    }

    open spec fn from_spec(v: JavaLogLevel) -> LogLevel {
        log_level_of(v)
    }
}

impl JavaLogLevel {
    /// The host's number for this level.
    pub fn to_jint(self) -> (r: i32)
        ensures
            r == java_level_number(self),
    {
        match self {
            JavaLogLevel::Verbose => 2,
            JavaLogLevel::Debug => 3,
            JavaLogLevel::Info => 4,
            JavaLogLevel::Warn => 5,
            JavaLogLevel::Error => 6,
            JavaLogLevel::Assert => 7,
        }
    }
}

/// The text with which a refused level is reported.
pub open spec fn level_error_text(e: LevelError) -> Seq<char> {
    match e {
        LevelError::Reserved => "invalid log level (must be DEBUG or higher for libsignal-client)"@,
        LevelError::OutOfRange => "invalid log level (see SignalProtocolLogger)"@,
    }
}

impl LevelError {
    /// The text with which this refusal is reported.
    pub fn message(&self) -> (r: String)
        ensures
            r@ == level_error_text(*self),
    {
        match self {
            LevelError::Reserved => String::from_str(
                "invalid log level (must be DEBUG or higher for libsignal-client)",
            ),
            LevelError::OutOfRange => String::from_str("invalid log level (see SignalProtocolLogger)"),
        }
    }
}

/// Checks a host number given as the maximum level: 3 to 7 are accepted.
pub fn validate_max_level(max_level: i32) -> (r: Result<JavaLogLevel, LevelError>)
    ensures
        r == max_level_spec(max_level as int),
        r is Ok <==> 3 <= max_level <= 7,
        r matches Ok(level) ==> java_level_number(level) == max_level,
{
    match max_level {
        2 => Err(LevelError::Reserved),
        3 => Ok(JavaLogLevel::Debug),
        4 => Ok(JavaLogLevel::Info),
        5 => Ok(JavaLogLevel::Warn),
        6 => Ok(JavaLogLevel::Error),
        7 => Ok(JavaLogLevel::Assert),
        _ => Err(LevelError::OutOfRange),
    }
}

/// Relies on `log::set_max_level`: it stores the process-wide filter of the
/// `log` facade, records at or below `level` pass it.
#[verifier::external_body]
fn store_max_level(level: LogLevel) {
    log::set_max_level(
        match level {
            LogLevel::Error => log::LevelFilter::Error,
            LogLevel::Warn => log::LevelFilter::Warn,
            LogLevel::Info => log::LevelFilter::Info,
            LogLevel::Debug => log::LevelFilter::Debug,
            LogLevel::Trace => log::LevelFilter::Trace,
        },
    )
}

/// Sets the process-wide maximum level from an accepted host number, and
/// returns the library level it was set to. Callers validate the number
/// first with [`validate_max_level`].
pub fn set_max_level_from_java_level(max_level: i32) -> (r: LogLevel)
    requires
        3 <= max_level <= 7,
    ensures
        r == log_level_of(max_level_spec(max_level as int)->Ok_0),
{
    let level = match max_level {
        3 => JavaLogLevel::Debug,
        4 => JavaLogLevel::Info,
        5 => JavaLogLevel::Warn,
        6 => JavaLogLevel::Error,
        _ => JavaLogLevel::Assert,
    };
    let filter = LogLevel::from(level);
    store_max_level(filter);
    filter
}

/// Host level to library level and back: the identity on 3 to 6, and 7
/// comes back as 6. No accepted number is refused.
pub proof fn lemma_level_round_trip(n: int)
    requires
        3 <= n <= 7,
    ensures
        max_level_spec(n) is Ok,
        java_level_number(java_level_of(log_level_of(max_level_spec(n)->Ok_0))) == if n == 7 {
            6
        } else {
            n
        },
{
}

/// Every host number outside 3 to 7 is refused as a maximum level.
pub proof fn lemma_out_of_range_refused(n: int)
    requires
        !(3 <= n <= 7),
    ensures
        max_level_spec(n) is Err,
{
}

} // verus!
