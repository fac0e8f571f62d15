//! Where and whether a run of the analyzer keeps a log.

use vstd::prelude::*;
use vstd::string::StringExecFns;
use crate::text::str_eq;

verus! {

/// How much is logged.
#[derive(Clone, Copy, Debug, PartialEq, Eq, Structural)]
pub enum LevelFilter {
    /// Nothing.
    Off,
    /// Errors.
    Error,
    /// Warnings, and what is above.
    Warn,
    /// Information, and what is above.
    Info,
    /// Everything.
    Debug,
}

/// The log that a run keeps.
#[derive(Debug)]
pub struct LogSetup {
    /// The directory of the log file, below the directory of the analyzer.
    pub directory: String,
    /// The name of the log file in it.
    pub file_name: String,
    /// How much is written to it: never `Off`.
    pub level: LevelFilter,
}

/// The level that the setting `name` asks for: one of four names, in upper
/// case; anything else turns logging off.
pub open spec fn level_named(name: Seq<char>) -> LevelFilter {
    if name == "DEBUG"@ {
        LevelFilter::Debug
    } else if name == "INFO"@ {
        LevelFilter::Info
    } else if name == "WARN"@ {
        LevelFilter::Warn
    } else if name == "ERROR"@ {
        LevelFilter::Error
    } else {
        LevelFilter::Off
    }
}

/// The level that a run is configured with: that of `setting`, or `Debug`
/// where nothing was set.
pub open spec fn level_set(setting: Option<Seq<char>>) -> LevelFilter {
    match setting {
        Some(name) => level_named(name),
        None => LevelFilter::Debug,
    }
}

/// The characters of `setting`, where there is one.
pub open spec fn option_chars(setting: Option<&str>) -> Option<Seq<char>> {
    match setting {
        Some(name) => Some(name@),
        None => None,
    }
}

/// The level that the setting `name` asks for.
pub fn level_filter(name: &str) -> (level: LevelFilter)
    ensures
        level == level_named(name@),
{
    if str_eq(name, "DEBUG") {
        LevelFilter::Debug
    } else if str_eq(name, "INFO") {
        LevelFilter::Info
    } else if str_eq(name, "WARN") {
        LevelFilter::Warn
    } else if str_eq(name, "ERROR") {
        LevelFilter::Error
    } else {
        LevelFilter::Off
    }
}

/// Decides on the log of a run on the crate `crate_name`, where `log_level`
/// is what the log level was set to, if it was set. No log is kept where the
/// level is `Off`. Otherwise the log is the file named after the crate in
/// the directory `.log`, and what is written to it is what the level lets
/// through.
pub fn initialize_logging(crate_name: &str, log_level: Option<&str>) -> (setup: Option<LogSetup>)
    ensures
        setup is None <==> level_set(option_chars(log_level)) == LevelFilter::Off,
        setup matches Some(log) ==> {
            &&& log.directory@ == ".log"@
            &&& log.file_name@ == crate_name@ + ".log"@
            &&& log.level == level_set(option_chars(log_level))
        },
{
    let level = match log_level {
        Some(name) => level_filter(name),
        None => LevelFilter::Debug,
    };
    if level == LevelFilter::Off {
        return None;
    }
    Some(
        LogSetup {
            directory: ".log".to_owned(),
            file_name: crate_name.to_owned().concat(".log"),
            level,
        },
    )
}

} // verus!
