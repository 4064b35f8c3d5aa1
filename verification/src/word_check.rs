//! Detector for the word-processing helper application, merged exactly
//! like the note-taking detector — installation evidence plus a live
//! automation-activation probe — except that nothing distinguishes a
//! store-only variant when both come back negative.

use vstd::prelude::*;
use vstd::string::StringExecFns;
use crate::registry::ClickToRunInfo;
use crate::types::CheckResult;
use crate::types::CheckStatus;
use crate::types::result_wf;

verus! {

/// The evidence text for a Click-to-Run hit: the product identifiers and
/// the reported version, with a placeholder when no version was
/// reported.
pub open spec fn c2r_evidence_text(info: ClickToRunInfo, m: Seq<char>) -> bool {
    match info.version {
        Some(v) => m == "Click-to-Run "@ + info.product_ids@ + " (v"@ + v@ + ")"@,
        None => m == "Click-to-Run "@ + info.product_ids@ + " (vunknown)"@,
    }
}

/// Merges the registry probes for installation evidence, newest version
/// first: an installation root for version 16.0, then 15.0, then a
/// Click-to-Run installation from which the application is not excluded.
pub fn detect_via_registry(
    root_16: Option<String>,
    root_15: Option<String>,
    c2r: Option<ClickToRunInfo>,
    excluded: bool,
) -> (r: Option<String>)
    ensures
        root_16 matches Some(p) ==> (r matches Some(m) && m@ == "Version 16.0 at "@ + p@),
        root_15 matches Some(p) ==> root_16 is None ==> (r matches Some(m) && m@
            == "Version 15.0 at "@ + p@),
        c2r matches Some(info) ==> (root_16 is None && root_15 is None && !excluded) ==> (
        r matches Some(m) && c2r_evidence_text(info, m@)),
        (root_16 is None && root_15 is None && (c2r is None || excluded)) ==> r is None,
{
    match root_16 {
        Some(p) => Some("Version 16.0 at ".to_owned().concat(p.as_str())),
        None => match root_15 {
            Some(p) => Some("Version 15.0 at ".to_owned().concat(p.as_str())),
            None => match c2r {
                Some(info) => {
                    if excluded {
                        None
                    } else {
                        let ver = match info.version {
                            Some(v) => v,
                            None => "unknown".to_owned(),
                        };
                        let m = "Click-to-Run ".to_owned().concat(info.product_ids.as_str())
                            .concat(" (v").concat(ver.as_str()).concat(")");
                        proof {
                            reveal_strlit(" (v");
                            reveal_strlit(" (vunknown)");
                            reveal_strlit("unknown");
                            reveal_strlit(")");
                            if info.version is None {
                                assert(m@ =~= "Click-to-Run "@ + info.product_ids@
                                    + " (vunknown)"@);
                            }
                        }
                        Some(m)
                    }
                },
                None => None,
            },
        },
    }
}

/// Merges installation evidence with the automation-activation outcome:
/// both positive passes; activation alone warns of a non-standard
/// install; evidence without activation fails as repair-needed; nothing
/// at all fails as not installed.
pub fn check(registry_info: Option<String>, com_result: Result<(), String>) -> (r: CheckResult)
    ensures
        r.id@ == "word"@,
        r.label@ == "Word"@,
        result_wf(r),
        r.status == CheckStatus::Pass ==> (registry_info is Some && com_result is Ok),
        registry_info matches Some(info) ==> com_result is Ok ==> {
            &&& r.status == CheckStatus::Pass
            &&& r.message@ == info@ + " \u{2014} COM automation verified."@
            &&& r.remediation is None
        },
        registry_info is None && com_result is Ok ==> {
            &&& r.status == CheckStatus::Warning
            &&& r.message@
                == "Word COM automation works but installation not found via standard registry paths."@
            &&& (r.remediation matches Some(t) && t@
                == "The export should work, but your Office installation appears non-standard (e.g. Microsoft Store or MSIX deployment). For best reliability, consider reinstalling Office as a standard Click-to-Run installation from office.com."@)
        },
        registry_info matches Some(info) ==> com_result matches Err(e) ==> {
            &&& r.status == CheckStatus::Fail
            &&& r.message@ == info@ + " \u{2014} but COM automation failed: "@ + e@
            &&& (r.remediation matches Some(t) && t@
                == "Word is installed but COM automation is not working. Try repairing your Office installation: Settings \u{2192} Apps \u{2192} Microsoft Office \u{2192} Modify \u{2192} Online Repair."@)
        },
        registry_info is None && com_result is Err ==> {
            &&& r.status == CheckStatus::Fail
            &&& r.message@ == "Word desktop application not found."@
            &&& (r.remediation matches Some(t) && t@
                == "Install Microsoft Office (Desktop) with Word included. Office 2013 or later is required. Word is needed for data rendering during the export process."@)
        },
{
    match (registry_info, com_result) {
        (Some(info), Ok(())) => CheckResult {
            id: "word".to_owned(),
            label: "Word".to_owned(),
            status: CheckStatus::Pass,
            message: info.concat(" \u{2014} COM automation verified."),
            remediation: None,
        },
        (None, Ok(())) => {
            proof {
                reveal_strlit(
                    "The export should work, but your Office installation appears non-standard (e.g. Microsoft Store or MSIX deployment). For best reliability, consider reinstalling Office as a standard Click-to-Run installation from office.com.",
                );
            }
            CheckResult {
                id: "word".to_owned(),
                label: "Word".to_owned(),
                status: CheckStatus::Warning,
                message: "Word COM automation works but installation not found via standard registry paths.".to_owned(),
                remediation: Some(
                    "The export should work, but your Office installation appears non-standard (e.g. Microsoft Store or MSIX deployment). For best reliability, consider reinstalling Office as a standard Click-to-Run installation from office.com.".to_owned(),
                ),
            }
        },
        (Some(info), Err(e)) => {
            proof {
                reveal_strlit(
                    "Word is installed but COM automation is not working. Try repairing your Office installation: Settings \u{2192} Apps \u{2192} Microsoft Office \u{2192} Modify \u{2192} Online Repair.",
                );
            }
            CheckResult {
                id: "word".to_owned(),
                label: "Word".to_owned(),
                status: CheckStatus::Fail,
                message: info.concat(" \u{2014} but COM automation failed: ").concat(e.as_str()),
                remediation: Some(
                    "Word is installed but COM automation is not working. Try repairing your Office installation: Settings \u{2192} Apps \u{2192} Microsoft Office \u{2192} Modify \u{2192} Online Repair.".to_owned(),
                ),
            }
        },
        (None, Err(_)) => {
            proof {
                reveal_strlit(
                    "Install Microsoft Office (Desktop) with Word included. Office 2013 or later is required. Word is needed for data rendering during the export process.",
                );
            }
            CheckResult {
                id: "word".to_owned(),
                label: "Word".to_owned(),
                status: CheckStatus::Fail,
                message: "Word desktop application not found.".to_owned(),
                remediation: Some(
                    "Install Microsoft Office (Desktop) with Word included. Office 2013 or later is required. Word is needed for data rendering during the export process.".to_owned(),
                ),
            }
        },
    }
}

/// The fixed result reported on hosts where neither the registry probes
/// nor the automation handshake can run.
pub fn check_unsupported() -> (r: CheckResult)
    ensures
        r.id@ == "word"@,
        r.label@ == "Word"@,
        r.status == CheckStatus::Fail,
        r.message@ == "Not running on Windows \u{2014} cannot check Word."@,
        r.remediation matches Some(t) && t@ == "This tool must be run on Windows."@,
        result_wf(r),
{
    proof {
        reveal_strlit("This tool must be run on Windows.");
    }
    CheckResult {
        id: "word".to_owned(),
        label: "Word".to_owned(),
        status: CheckStatus::Fail,
        message: "Not running on Windows \u{2014} cannot check Word.".to_owned(),
        remediation: Some("This tool must be run on Windows.".to_owned()),
    }
}

} // verus!
