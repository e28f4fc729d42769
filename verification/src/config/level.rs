//! Log levels.

use log::LevelFilter;
use std::str::FromStr;
use vstd::prelude::*;
use crate::text;

verus! {

/// How much the local log records.
#[derive(Clone, Copy, Debug, PartialEq, Eq, Structural)]
pub enum LogLevel {
    Off,
    Error,
    Warn,
    Info,
    Debug,
    Trace,
}

/// The level with the name `s`, in any mixture of upper and lower case.
pub open spec fn level_named(s: Seq<char>) -> Option<LogLevel> {
    let name = text::ascii_lower(s);
    if name == "off"@ {
        Some(LogLevel::Off)
    } else if name == "error"@ {
        Some(LogLevel::Error)
    } else if name == "warn"@ {
        Some(LogLevel::Warn)
    } else if name == "info"@ {
        Some(LogLevel::Info)
    } else if name == "debug"@ {
        Some(LogLevel::Debug)
    } else if name == "trace"@ {
        Some(LogLevel::Trace)
    } else {
        None
    }
}

/// `log::LevelFilter::from_str` compares the text with the names of the six levels, without
/// regard to ASCII case, and fails on any other text.
#[verifier::external_body]
pub(crate) fn parse_level(s: &str) -> (r: Option<LogLevel>)
    ensures
        r == level_named(s@),
{
    match LevelFilter::from_str(s) {
        Ok(LevelFilter::Off) => Some(LogLevel::Off),
        Ok(LevelFilter::Error) => Some(LogLevel::Error),
        Ok(LevelFilter::Warn) => Some(LogLevel::Warn),
        Ok(LevelFilter::Info) => Some(LogLevel::Info),
        Ok(LevelFilter::Debug) => Some(LogLevel::Debug),
        Ok(LevelFilter::Trace) => Some(LogLevel::Trace),
        Err(_) => None,
    }
}

} // verus!
