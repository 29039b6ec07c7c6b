use vstd::prelude::*;
use crate::text::{owned, push_str};

verus! {

/// The severity of a log entry.
#[derive(Debug, PartialEq, Eq, Clone, Copy)]
pub enum LogLevel {
    Error,
    Warn,
    Info,
}

pub open spec fn level_tag(l: LogLevel) -> Seq<char> {
    match l {
        LogLevel::Error => "ERROR"@,
        LogLevel::Warn => "WARN"@,
        LogLevel::Info => "INFO"@,
    }
}

/// Whether entries of this level also go to standard error.
pub fn echoes_to_stderr(level: LogLevel) -> (r: bool)
    ensures
        r == !(level is Info),
{
    match level {
        LogLevel::Info => false,
        _ => true,
    }
}

/// A log line: `[<timestamp>] [<LEVEL>] <message>`.
pub fn log_entry(stamp: &str, level: LogLevel, msg: &str) -> (r: String)
    ensures
        r@ == "["@ + stamp@ + "] ["@ + level_tag(level) + "] "@ + msg@,
{
    let mut r = owned("[");
    push_str(&mut r, stamp);
    push_str(&mut r, "] [");
    let tag = match level {
        LogLevel::Error => "ERROR",
        LogLevel::Warn => "WARN",
        LogLevel::Info => "INFO",
    };
    push_str(&mut r, tag);
    push_str(&mut r, "] ");
    push_str(&mut r, msg);
    r
}

} // verus!
