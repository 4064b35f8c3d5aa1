//! Result and status types shared by every detector and by the orchestrator.

use vstd::prelude::*;
use vstd::string::StringExecFns;

verus! {

/// Severity of one readiness check, and of the scan as a whole.
///
/// For aggregation, `Fail` dominates `Warning`, which dominates the
/// non-blocking pair `Skipped` and `Pass`.
#[derive(Clone, Copy, Debug, PartialEq, Eq, Structural)]
pub enum CheckStatus {
    Pass,
    Fail,
    Warning,
    Skipped,
}

/// The outcome of one target's detector: a stable machine key, a display
/// label, a status, a human-readable message, and remediation guidance
/// wherever the status calls for user action.
#[derive(Clone, Debug)]
pub struct CheckResult {
    pub id: String,
    pub label: String,
    pub status: CheckStatus,
    pub message: String,
    pub remediation: Option<String>,
}

/// A `Fail` or `Warning` result carries non-empty remediation text; a `Pass`
/// or `Skipped` result carries none.
pub open spec fn result_wf(r: CheckResult) -> bool {
    &&& (r.status == CheckStatus::Fail || r.status == CheckStatus::Warning) ==> (
    r.remediation matches Some(t) && t@.len() > 0)
    &&& (r.status == CheckStatus::Pass || r.status == CheckStatus::Skipped)
        ==> r.remediation is None
}

/// The aggregate of one full scan: every detector's result in registration
/// order, a completion timestamp, an OS descriptor, and the overall verdict.
#[derive(Clone, Debug)]
pub struct ScanResult {
    pub checks: Vec<CheckResult>,
    pub timestamp: String,
    pub os_info: String,
    pub overall: CheckStatus,
}

/// A scan-level failure: a condition that prevented any check from running.
/// Individual probe failures are never reported this way; they become `Fail`
/// results inside the `ScanResult`.
#[derive(Clone, Debug)]
pub enum ScanError {
    RegistryAccessDenied(String),
    ComInitFailed(String),
    Unexpected(String),
}

impl ScanError {
    /// The user-facing line for this error: its kind, then the
    /// underlying diagnostic text.
    pub fn message(&self) -> (r: String)
        ensures
            self matches ScanError::RegistryAccessDenied(m) ==> r@ == "Registry access denied: "@
                + m@,
            self matches ScanError::ComInitFailed(m) ==> r@ == "COM initialization failed: "@ + m@,
            self matches ScanError::Unexpected(m) ==> r@ == "Unexpected error: "@ + m@,
    {
        match self {
            ScanError::RegistryAccessDenied(m) => "Registry access denied: ".to_owned().concat(
                m.as_str(),
            ),
            ScanError::ComInitFailed(m) => "COM initialization failed: ".to_owned().concat(
                m.as_str(),
            ),
            ScanError::Unexpected(m) => "Unexpected error: ".to_owned().concat(m.as_str()),
        }
    }
}

} // verus!
