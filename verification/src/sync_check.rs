//! Detectors for the two sync-related configuration flags. Both hinge on
//! the same prerequisite — a resolved install version of the note-taking
//! desktop application — and read one numeric value each, but they apply
//! opposite default readings to an absent value: absent auto-sync counts
//! as enabled, absent full-download counts as not enabled.

use vstd::prelude::*;
use vstd::string::StringExecFns;
use crate::text;
use crate::types::CheckResult;
use crate::types::CheckStatus;
use crate::types::result_wf;

verus! {

/// Resolves the installed version of the note-taking desktop
/// application, newest supported version token first, from the two
/// installation-root probe outcomes.
pub fn detect_onenote_version(root_16: Option<String>, root_15: Option<String>) -> (r: Option<
    &'static str,
>)
    ensures
        root_16 is Some ==> (r matches Some(v) && v@ == "16.0"@),
        root_16 is None && root_15 is Some ==> (r matches Some(v) && v@ == "15.0"@),
        root_16 is None && root_15 is None ==> r is None,
{
    if root_16.is_some() {
        Some("16.0")
    } else if root_15.is_some() {
        Some("15.0")
    } else {
        None
    }
}

/// The parenthesized suffix naming the resolved version in a sync-check
/// message, with a caveat for the older version token whose option
/// layout was not verified against a live install.
pub open spec fn version_suffix_text(v: Seq<char>) -> Seq<char> {
    if v == "16.0"@ {
        "(Office "@ + v + ")"@
    } else {
        "(Office "@ + v + " \u{2014} unverified; check manually if unsure)"@
    }
}

/// Renders the version suffix used in the sync-check messages.
pub fn version_suffix(version: &str) -> (r: String)
    ensures
        r@ == version_suffix_text(version@),
{
    if text::str_eq(version, "16.0") {
        "(Office ".to_owned().concat(version).concat(")")
    } else {
        "(Office ".to_owned().concat(version).concat(
            " \u{2014} unverified; check manually if unsure)",
        )
    }
}

/// The per-version registry subkey that carries the auto-sync setting.
pub fn auto_sync_subkey(version: &str) -> (r: String)
    ensures
        r@ == "Software\\Microsoft\\Office\\"@ + version@ + "\\OneNote\\Options\\Save"@,
{
    "Software\\Microsoft\\Office\\".to_owned().concat(version).concat("\\OneNote\\Options\\Save")
}

/// The per-version registry subkey that carries the full-download
/// setting.
pub fn full_download_subkey(version: &str) -> (r: String)
    ensures
        r@ == "Software\\Microsoft\\Office\\"@ + version@ + "\\OneNote\\Options"@,
{
    "Software\\Microsoft\\Office\\".to_owned().concat(version).concat("\\OneNote\\Options")
}

/// Classifies the auto-sync setting. Without a resolved prerequisite
/// version the check is skipped outright; otherwise an absent value, or
/// an explicit 0, reads as sync enabled, and any other value warns.
pub fn check_auto_sync(version: Option<&str>, value: Option<u32>) -> (r: CheckResult)
    ensures
        r.id@ == "sync_auto"@,
        r.label@ == "OneNote Auto-Sync"@,
        result_wf(r),
        version is None ==> {
            &&& r.status == CheckStatus::Skipped
            &&& r.message@ == "Skipped \u{2014} OneNote Desktop not installed"@
            &&& r.remediation is None
        },
        version matches Some(v) ==> {
            &&& (value is None || value == Some(0u32)) ==> {
                &&& r.status == CheckStatus::Pass
                &&& r.message@ == "Automatic sync is enabled "@ + version_suffix_text(v@)
                &&& r.remediation is None
            }
            &&& value matches Some(x) ==> x != 0 ==> {
                &&& r.status == CheckStatus::Warning
                &&& r.message@ == "Automatic sync is disabled "@ + version_suffix_text(v@)
                &&& (r.remediation matches Some(t) && t@
                    == "Open OneNote \u{2192} File \u{2192} Options \u{2192} Sync and enable 'Sync notebooks automatically'. This ensures your notebooks are up-to-date before migration."@)
            }
        },
{
    let v = match version {
        None => {
            return CheckResult {
                id: "sync_auto".to_owned(),
                label: "OneNote Auto-Sync".to_owned(),
                status: CheckStatus::Skipped,
                message: "Skipped \u{2014} OneNote Desktop not installed".to_owned(),
                remediation: None,
            };
        },
        Some(v) => v,
    };
    let suffix = version_suffix(v);
    let enabled = match value {
        None => true,
        Some(x) => x == 0,
    };
    if enabled {
        CheckResult {
            id: "sync_auto".to_owned(),
            label: "OneNote Auto-Sync".to_owned(),
            status: CheckStatus::Pass,
            message: "Automatic sync is enabled ".to_owned().concat(suffix.as_str()),
            remediation: None,
        }
    } else {
        proof {
            reveal_strlit(
                "Open OneNote \u{2192} File \u{2192} Options \u{2192} Sync and enable 'Sync notebooks automatically'. This ensures your notebooks are up-to-date before migration.",
            );
        }
        CheckResult {
            id: "sync_auto".to_owned(),
            label: "OneNote Auto-Sync".to_owned(),
            status: CheckStatus::Warning,
            message: "Automatic sync is disabled ".to_owned().concat(suffix.as_str()),
            remediation: Some(
                "Open OneNote \u{2192} File \u{2192} Options \u{2192} Sync and enable 'Sync notebooks automatically'. This ensures your notebooks are up-to-date before migration.".to_owned(),
            ),
        }
    }
}

/// Classifies the full-download setting. Without a resolved prerequisite
/// version the check is skipped outright; otherwise only an explicit 0
/// reads as enabled — an absent value warns, unlike the auto-sync check.
pub fn check_full_download(version: Option<&str>, value: Option<u32>) -> (r: CheckResult)
    ensures
        r.id@ == "sync_download"@,
        r.label@ == "OneNote Full Download"@,
        result_wf(r),
        version is None ==> {
            &&& r.status == CheckStatus::Skipped
            &&& r.message@ == "Skipped \u{2014} OneNote Desktop not installed"@
            &&& r.remediation is None
        },
        version matches Some(v) ==> {
            &&& value == Some(0u32) ==> {
                &&& r.status == CheckStatus::Pass
                &&& r.message@ == "Full file and image download is enabled "@
                    + version_suffix_text(v@)
                &&& r.remediation is None
            }
            &&& (value is None || (value matches Some(x) && x != 0)) ==> {
                &&& r.status == CheckStatus::Warning
                &&& r.message@ == "Full file and image download is not enabled "@
                    + version_suffix_text(v@)
                &&& (r.remediation matches Some(t) && t@
                    == "Open OneNote \u{2192} File \u{2192} Options \u{2192} Sync and enable 'Download all files and images'. This ensures all attachments and embedded images are cached locally before migration, preventing missing content."@)
            }
        },
{
    let v = match version {
        None => {
            return CheckResult {
                id: "sync_download".to_owned(),
                label: "OneNote Full Download".to_owned(),
                status: CheckStatus::Skipped,
                message: "Skipped \u{2014} OneNote Desktop not installed".to_owned(),
                remediation: None,
            };
        },
        Some(v) => v,
    };
    let suffix = version_suffix(v);
    let enabled = match value {
        Some(x) => x == 0,
        None => false,
    };
    if enabled {
        CheckResult {
            id: "sync_download".to_owned(),
            label: "OneNote Full Download".to_owned(),
            status: CheckStatus::Pass,
            message: "Full file and image download is enabled ".to_owned().concat(suffix.as_str()),
            remediation: None,
        }
    } else {
        proof {
            reveal_strlit(
                "Open OneNote \u{2192} File \u{2192} Options \u{2192} Sync and enable 'Download all files and images'. This ensures all attachments and embedded images are cached locally before migration, preventing missing content.",
            );
        }
        CheckResult {
            id: "sync_download".to_owned(),
            label: "OneNote Full Download".to_owned(),
            status: CheckStatus::Warning,
            message: "Full file and image download is not enabled ".to_owned().concat(
                suffix.as_str(),
            ),
            remediation: Some(
                "Open OneNote \u{2192} File \u{2192} Options \u{2192} Sync and enable 'Download all files and images'. This ensures all attachments and embedded images are cached locally before migration, preventing missing content.".to_owned(),
            ),
        }
    }
}

} // verus!
