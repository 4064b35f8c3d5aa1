//! The scan orchestrator: runs every registered detector once, in the
//! fixed registration order, rolls the per-target results into one
//! overall verdict, and stamps the completed scan with a timestamp and
//! an OS descriptor.

use vstd::prelude::*;
use vstd::string::StringExecFns;
use crate::com_check;
use crate::joplin_check;
use crate::onenote_check;
use crate::os_check;
use crate::sync_check;
use crate::types::CheckResult;
use crate::types::CheckStatus;
use crate::types::ScanError;
use crate::types::ScanResult;
use crate::types::result_wf;
use crate::word_check;

verus! {

/// Some result among the first `n` has status `s`.
pub open spec fn status_in_prefix(checks: Seq<CheckResult>, n: int, s: CheckStatus) -> bool {
    exists|i: int| 0 <= i < n && (#[trigger] checks[i]).status == s
}

/// Every result among the first `n` is skipped.
pub open spec fn prefix_all_skipped(checks: Seq<CheckResult>, n: int) -> bool {
    forall|i: int| 0 <= i < n ==> (#[trigger] checks[i]).status == CheckStatus::Skipped
}

/// Some result in the sequence has status `s`.
pub open spec fn has_status(checks: Seq<CheckResult>, s: CheckStatus) -> bool {
    status_in_prefix(checks, checks.len() as int, s)
}

/// Every result in the sequence is skipped.
pub open spec fn all_skipped(checks: Seq<CheckResult>) -> bool {
    prefix_all_skipped(checks, checks.len() as int)
}

/// The overall verdict over a sequence of per-target results: any
/// failure fails the scan; otherwise any warning makes it a warning;
/// otherwise a scan whose every check was skipped is skipped; otherwise
/// it passes.
pub open spec fn overall_spec(checks: Seq<CheckResult>) -> CheckStatus {
    if has_status(checks, CheckStatus::Fail) {
        CheckStatus::Fail
    } else if has_status(checks, CheckStatus::Warning) {
        CheckStatus::Warning
    } else if all_skipped(checks) {
        CheckStatus::Skipped
    } else {
        CheckStatus::Pass
    }
}

/// The overall verdict characterized status by status: it is `Fail`
/// exactly when some result failed; `Warning` exactly when none failed
/// but some warned; `Skipped` exactly when, besides that, every result
/// was skipped; `Pass` exactly when, besides that, some result was not
/// skipped.
pub proof fn lemma_overall_characterization(checks: Seq<CheckResult>)
    ensures
        overall_spec(checks) == CheckStatus::Fail <==> has_status(checks, CheckStatus::Fail),
        overall_spec(checks) == CheckStatus::Warning <==> (!has_status(checks, CheckStatus::Fail)
            && has_status(checks, CheckStatus::Warning)),
        overall_spec(checks) == CheckStatus::Skipped <==> (!has_status(checks, CheckStatus::Fail)
            && !has_status(checks, CheckStatus::Warning) && all_skipped(checks)),
        overall_spec(checks) == CheckStatus::Pass <==> (!has_status(checks, CheckStatus::Fail)
            && !has_status(checks, CheckStatus::Warning) && !all_skipped(checks)),
{
}

/// Computes the overall verdict for a list of per-target results.
pub fn overall_status(checks: &Vec<CheckResult>) -> (r: CheckStatus)
    ensures
        r == overall_spec(checks@),
{
    let mut any_fail = false;
    let mut any_warning = false;
    let mut all_skip = true;
    let mut i: usize = 0;
    while i < checks.len()
        invariant
            i <= checks@.len(),
            any_fail == status_in_prefix(checks@, i as int, CheckStatus::Fail),
            any_warning == status_in_prefix(checks@, i as int, CheckStatus::Warning),
            all_skip == prefix_all_skipped(checks@, i as int),
        decreases checks@.len() - i,
    {
        let c = &checks[i];
        if c.status == CheckStatus::Fail {
            any_fail = true;
        }
        if c.status == CheckStatus::Warning {
            any_warning = true;
        }
        if !(c.status == CheckStatus::Skipped) {
            all_skip = false;
        }
        i = i + 1;
    }
    if any_fail {
        CheckStatus::Fail
    } else if any_warning {
        CheckStatus::Warning
    } else if all_skip {
        CheckStatus::Skipped
    } else {
        CheckStatus::Pass
    }
}

/// Relies on chrono's `Utc::now` and `DateTime::to_rfc3339` for the
/// completion timestamp: the moment of the call rendered in RFC 3339
/// form, which is never empty.
#[verifier::external_body]
fn now_rfc3339() -> (r: String)
    ensures
        r@.len() > 0,
{
    chrono::Utc::now().to_rfc3339()
}

/// Completes a scan from the collected per-target results: the results
/// are kept exactly as collected, in order; the overall verdict is
/// computed from them; a completion timestamp is stamped on.
pub fn assemble_scan_result(checks: Vec<CheckResult>, os_info: String) -> (r: ScanResult)
    ensures
        r.checks@ == checks@,
        r.os_info@ == os_info@,
        r.overall == overall_spec(checks@),
        r.timestamp@.len() > 0,
{
    let overall = overall_status(&checks);
    let timestamp = now_rfc3339();
    ScanResult { checks, timestamp, os_info, overall }
}

/// The OS descriptor reported on hosts without the native version
/// probes.
pub fn get_os_info() -> (r: String)
    ensures
        r@ == "Non-Windows OS (checks unavailable)"@,
{
    "Non-Windows OS (checks unavailable)".to_owned()
}

/// Runs the full registered scan on a host without the native probe
/// subsystems: every detector degrades to its fixed negative or skipped
/// result, one per registered target, in registration order.
pub fn run_all_checks() -> (r: Result<ScanResult, ScanError>)
    ensures
        r is Ok,
        r matches Ok(s) ==> {
            &&& s.checks@.len() == 7
            &&& s.checks@[0].id@ == "joplin"@
            &&& s.checks@[1].id@ == "windows_os"@
            &&& s.checks@[2].id@ == "onenote"@
            &&& s.checks@[3].id@ == "word"@
            &&& s.checks@[4].id@ == "com_bridge"@
            &&& s.checks@[5].id@ == "sync_auto"@
            &&& s.checks@[6].id@ == "sync_download"@
            &&& forall|i: int| 0 <= i < 5 ==> (#[trigger] s.checks@[i]).status == CheckStatus::Fail
            &&& s.checks@[5].status == CheckStatus::Skipped
            &&& s.checks@[6].status == CheckStatus::Skipped
            &&& forall|i: int| 0 <= i < s.checks@.len() ==> result_wf(#[trigger] s.checks@[i])
            &&& s.overall == overall_spec(s.checks@)
            &&& s.overall == CheckStatus::Fail
            &&& s.os_info@ == "Non-Windows OS (checks unavailable)"@
            &&& s.timestamp@.len() > 0
        },
{
    let joplin = joplin_check::check_unsupported();
    let os = os_check::check_unsupported();
    let onenote = onenote_check::check_unsupported();
    let word = word_check::check_unsupported();
    let com = com_check::check_unsupported();
    let sync_auto = sync_check::check_auto_sync(None, None);
    let sync_download = sync_check::check_full_download(None, None);

    let mut checks: Vec<CheckResult> = Vec::new();
    checks.push(joplin);
    checks.push(os);
    checks.push(onenote);
    checks.push(word);
    checks.push(com);
    checks.push(sync_auto);
    checks.push(sync_download);

    proof {
        assert(checks@[0].status == CheckStatus::Fail);
        assert(status_in_prefix(checks@, checks@.len() as int, CheckStatus::Fail));
    }
    let os_info = get_os_info();
    let result = assemble_scan_result(checks, os_info);
    Ok(result)
}

} // verus!
