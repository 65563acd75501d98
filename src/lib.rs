//! Client-side runtime core: a registry of logical network connections and
//! a bounded history of resource samples, with the decisions around the
//! native transport, sampler and log sink stated and proved.
//!
//! The native layer itself is reached by the caller. Each operation that
//! needs it is split in two: one function says what to hand to the native
//! call (or why not to make it), and another says what the operation returns,
//! and how the state changes, given what the native call answered.

use vstd::prelude::*;

pub mod error;
pub mod text;
pub mod keyed;
pub mod strmap;
pub mod network;
pub mod history;
pub mod runtime;
pub mod words;

verus! {

/// Severity attached to a message handed to the log sink.
#[derive(Debug, Clone, Copy, PartialEq, Eq, Structural)]
pub enum LogLevel {
    Debug,
    Info,
    Warning,
    Error,
    Critical,
}

impl LogLevel {
    /// The numeric code of this level on the native interface.
    pub open spec fn spec_code(self) -> i32 {
        match self {
            LogLevel::Debug => 0,
            LogLevel::Info => 1,
            LogLevel::Warning => 2,
            LogLevel::Error => 3,
            LogLevel::Critical => 4,
        }
    }

    /// The level a native code stands for; an unknown code reads as `Info`.
    pub open spec fn spec_from_code(code: i32) -> LogLevel {
        if code == 0 {
            LogLevel::Debug
        } else if code == 1 {
            LogLevel::Info
        } else if code == 2 {
            LogLevel::Warning
        } else if code == 3 {
            LogLevel::Error
        } else if code == 4 {
            LogLevel::Critical
        } else {
            LogLevel::Info
        }
    }

    /// The numeric code of this level on the native interface.
    pub fn code(self) -> (r: i32)
        ensures
            r == self.spec_code(),
    {
        match self {
            LogLevel::Debug => 0,
            LogLevel::Info => 1,
            LogLevel::Warning => 2,
            LogLevel::Error => 3,
            LogLevel::Critical => 4,
        }
    }

    /// The level a native code stands for; an unknown code reads as `Info`.
    pub fn from_code(code: i32) -> (r: LogLevel)
        ensures
            r == LogLevel::spec_from_code(code),
    {
        if code == 0 {
            LogLevel::Debug
        } else if code == 1 {
            LogLevel::Info
        } else if code == 2 {
            LogLevel::Warning
        } else if code == 3 {
            LogLevel::Error
        } else if code == 4 {
            LogLevel::Critical
        } else {
            LogLevel::Info
        }
    }
}

impl From<i32> for LogLevel {
    fn from(value: i32) -> LogLevel {
        LogLevel::from_code(value)
    }
}

impl vstd::std_specs::convert::FromSpecImpl<i32> for LogLevel {
    open spec fn obeys_from_spec() -> bool {
        true
    }

    open spec fn from_spec(v: i32) -> LogLevel {
        LogLevel::spec_from_code(v)
    }
}

impl From<LogLevel> for i32 {
    fn from(level: LogLevel) -> i32 {
        level.code()
    }
}

impl vstd::std_specs::convert::FromSpecImpl<LogLevel> for i32 {
    open spec fn obeys_from_spec() -> bool {
        true
    }

    open spec fn from_spec(v: LogLevel) -> i32 {
        v.spec_code()
    }
}

} // verus!
