//! The error kinds of a monitoring cycle.
use vstd::prelude::*;

verus! {

/// Why a scrape cycle, or startup, failed.
#[derive(PartialEq, Eq, Structural, Clone, Copy, Debug)]
pub enum MonitorError {
    /// The fetch or its transport failed.
    NetworkError,
    /// A configured selector matched no element of the document.
    SelectorNotFound,
    /// The target's pattern is not a valid regular expression.
    InvalidPattern,
    /// A fully configured alert channel failed to send.
    NotificationError,
    /// The configuration could not be read or parsed.
    ConfigError,
    /// The audit file of a cycle could not be written.
    AuditError,
}

} // verus!
