//! Log severities and their host encoding.
//!
//! The logging call itself goes to the host's logging facility at the
//! unverified boundary; this module fixes the severity convention the bridge
//! reports failures with.

use vstd::prelude::*;

verus! {

/// Log message severity.
#[derive(Clone, Copy, Debug, PartialEq, Eq, Structural)]
pub enum Severity {
    Debug,
    UserDebug,
    Info,
    Warning,
    Error,
    Fatal,
}

/// The host integer that stands for a severity.
pub open spec fn severity_code(s: Severity) -> u32 {
    match s {
        Severity::Debug => 0u32,
        Severity::UserDebug => 1u32,
        Severity::Info => 2u32,
        Severity::Warning => 3u32,
        Severity::Error => 4u32,
        Severity::Fatal => 5u32,
    }
}

impl Severity {
    /// Encodes this severity in the host's integer convention.
    pub fn to_host(self) -> (code: u32)
        ensures
            code == severity_code(self),
    {
        match self {
            Severity::Debug => 0,
            Severity::UserDebug => 1,
            Severity::Info => 2,
            Severity::Warning => 3,
            Severity::Error => 4,
            Severity::Fatal => 5,
        }
    }
}

} // verus!
