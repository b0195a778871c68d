//! Diagnostic severities and the threshold test the attached logger applies.

use vstd::prelude::*;

verus! {

/// Severity of a diagnostic message, from finest to coarsest.
#[derive(Debug, Clone, Copy, PartialEq, Eq, Structural)]
pub enum Severity {
    Trace,
    Debug,
    Info,
    Warn,
    Error,
}

/// Rank of a severity: coarser severities rank higher.
pub open spec fn spec_rank(s: Severity) -> nat {
    match s {
        Severity::Trace => 0,
        Severity::Debug => 1,
        Severity::Info => 2,
        Severity::Warn => 3,
        Severity::Error => 4,
    }
}

/// Whether a message at severity `level` passes a logger whose minimum
/// severity is `min`: finer-grained messages are suppressed.
pub fn meets_threshold(level: Severity, min: Severity) -> (r: bool)
    ensures
        r == (spec_rank(level) >= spec_rank(min)),
{
    rank(level) >= rank(min)
}

/// Executable rank, equal to the specification rank.
fn rank(s: Severity) -> (r: u8)
    ensures
        r as nat == spec_rank(s),
{
    match s {
        Severity::Trace => 0,
        Severity::Debug => 1,
        Severity::Info => 2,
        Severity::Warn => 3,
        Severity::Error => 4,
    }
}

} // verus!
