//! Detector for the note-taking desktop application. Installation
//! evidence comes from the per-version installation-root registry values
//! (newest version first) with the Click-to-Run configuration as
//! fallback; a live automation-activation probe is merged in
//! independently, and a store-only variant is told apart from a missing
//! installation when both come back negative.

use vstd::prelude::*;
use vstd::string::StringExecFns;
use crate::registry::ClickToRunInfo;
use crate::text;
use crate::types::CheckResult;
use crate::types::CheckStatus;
use crate::types::result_wf;

verus! {

/// The evidence text for a Click-to-Run hit: the product identifiers and
/// the reported version, with a placeholder when no version was
/// reported.
pub open spec fn c2r_evidence_text(info: ClickToRunInfo, m: Seq<char>) -> bool {
    match info.version {
        Some(v) => m == "Click-to-Run "@ + info.product_ids@ + " (v"@ + v@ + ")"@,
        None => m == "Click-to-Run "@ + info.product_ids@ + " (vunknown)"@,
    }
}

/// Merges the registry probes for installation evidence, newest version
/// first: an installation root for version 16.0, then 15.0, then a
/// Click-to-Run installation from which the application is not excluded.
pub fn detect_via_registry(
    root_16: Option<String>,
    root_15: Option<String>,
    c2r: Option<ClickToRunInfo>,
    excluded: bool,
) -> (r: Option<String>)
    ensures
        root_16 matches Some(p) ==> (r matches Some(m) && m@ == "Version 16.0 at "@ + p@),
        root_15 matches Some(p) ==> root_16 is None ==> (r matches Some(m) && m@
            == "Version 15.0 at "@ + p@),
        c2r matches Some(info) ==> (root_16 is None && root_15 is None && !excluded) ==> (
        r matches Some(m) && c2r_evidence_text(info, m@)),
        (root_16 is None && root_15 is None && (c2r is None || excluded)) ==> r is None,
{
    match root_16 {
        Some(p) => Some("Version 16.0 at ".to_owned().concat(p.as_str())),
        None => match root_15 {
            Some(p) => Some("Version 15.0 at ".to_owned().concat(p.as_str())),
            None => match c2r {
                Some(info) => {
                    if excluded {
                        None
                    } else {
                        let ver = match info.version {
                            Some(v) => v,
                            None => "unknown".to_owned(),
                        };
                        let m = "Click-to-Run ".to_owned().concat(info.product_ids.as_str())
                            .concat(" (v").concat(ver.as_str()).concat(")");
                        proof {
                            reveal_strlit(" (v");
                            reveal_strlit(" (vunknown)");
                            reveal_strlit("unknown");
                            reveal_strlit(")");
                            if info.version is None {
                                assert(m@ =~= "Click-to-Run "@ + info.product_ids@
                                    + " (vunknown)"@);
                            }
                        }
                        Some(m)
                    }
                },
                None => None,
            },
        },
    }
}

/// Some enumerated application package name carries the store edition's
/// name, in either casing the store uses.
pub open spec fn uwp_package_listed(names: Seq<String>) -> bool {
    exists|i: int|
        0 <= i < names.len() && (text::contains_seq(#[trigger] names[i]@, "OneNote"@)
            || text::contains_seq(names[i]@, "onenote"@))
}

/// Scans the enumerated application-package names for the store edition
/// of OneNote.
pub fn is_uwp_onenote_installed(package_names: &Vec<String>) -> (r: bool)
    ensures
        r == uwp_package_listed(package_names@),
{
    let mut i: usize = 0;
    while i < package_names.len()
        invariant
            i <= package_names@.len(),
            forall|t: int|
                0 <= t < i ==> !(text::contains_seq(#[trigger] package_names@[t]@, "OneNote"@)
                    || text::contains_seq(package_names@[t]@, "onenote"@)),
        decreases package_names@.len() - i,
    {
        let name = &package_names[i];
        if text::contains_substring(name.as_str(), "OneNote") || text::contains_substring(
            name.as_str(),
            "onenote",
        ) {
            return true;
        }
        i = i + 1;
    }
    false
}

/// Merges installation evidence with the automation-activation outcome:
/// both positive passes; activation alone warns of a non-standard
/// install; evidence without activation fails as repair-needed; nothing
/// at all fails, with the store-only variant called out when its package
/// was seen.
pub fn check(
    registry_info: Option<String>,
    com_result: Result<(), String>,
    uwp_installed: bool,
) -> (r: CheckResult)
    ensures
        r.id@ == "onenote"@,
        r.label@ == "OneNote (Desktop)"@,
        result_wf(r),
        r.status == CheckStatus::Pass ==> (registry_info is Some && com_result is Ok),
        registry_info matches Some(info) ==> com_result is Ok ==> {
            &&& r.status == CheckStatus::Pass
            &&& r.message@ == info@ + " \u{2014} COM automation verified."@
            &&& r.remediation is None
        },
        registry_info is None && com_result is Ok ==> {
            &&& r.status == CheckStatus::Warning
            &&& r.message@
                == "OneNote COM automation works but installation not found via standard registry paths."@
            &&& (r.remediation matches Some(t) && t@
                == "The export should work, but your Office installation appears non-standard (e.g. Microsoft Store or MSIX deployment). For best reliability, consider reinstalling Office as a standard Click-to-Run installation from office.com."@)
        },
        registry_info matches Some(info) ==> com_result matches Err(e) ==> {
            &&& r.status == CheckStatus::Fail
            &&& r.message@ == info@ + " \u{2014} but COM automation failed: "@ + e@
            &&& (r.remediation matches Some(t) && t@
                == "OneNote is installed but COM automation is not working. Try repairing your Office installation: Settings \u{2192} Apps \u{2192} Microsoft Office \u{2192} Modify \u{2192} Online Repair."@)
        },
        registry_info is None && com_result is Err && uwp_installed ==> {
            &&& r.status == CheckStatus::Fail
            &&& r.message@
                == "Only UWP/Store version of OneNote detected. Desktop version is required."@
            &&& (r.remediation matches Some(t) && t@
                == "Install Microsoft Office (Desktop) with OneNote. The Microsoft Store version (OneNote for Windows 10) does not support COM automation. You need Office 2013, 2016, 2019, 2021, or Microsoft 365 desktop apps."@)
        },
        registry_info is None && com_result is Err && !uwp_installed ==> {
            &&& r.status == CheckStatus::Fail
            &&& r.message@ == "OneNote desktop application not found."@
            &&& (r.remediation matches Some(t) && t@
                == "Install Microsoft Office (Desktop) with OneNote included. Office 2013 or later is required."@)
        },
{
    match (registry_info, com_result) {
        (Some(info), Ok(())) => CheckResult {
            id: "onenote".to_owned(),
            label: "OneNote (Desktop)".to_owned(),
            status: CheckStatus::Pass,
            message: info.concat(" \u{2014} COM automation verified."),
            remediation: None,
        },
        (None, Ok(())) => {
            proof {
                reveal_strlit(
                    "The export should work, but your Office installation appears non-standard (e.g. Microsoft Store or MSIX deployment). For best reliability, consider reinstalling Office as a standard Click-to-Run installation from office.com.",
                );
            }
            CheckResult {
                id: "onenote".to_owned(),
                label: "OneNote (Desktop)".to_owned(),
                status: CheckStatus::Warning,
                message: "OneNote COM automation works but installation not found via standard registry paths.".to_owned(),
                remediation: Some(
                    "The export should work, but your Office installation appears non-standard (e.g. Microsoft Store or MSIX deployment). For best reliability, consider reinstalling Office as a standard Click-to-Run installation from office.com.".to_owned(),
                ),
            }
        },
        (Some(info), Err(e)) => {
            proof {
                reveal_strlit(
                    "OneNote is installed but COM automation is not working. Try repairing your Office installation: Settings \u{2192} Apps \u{2192} Microsoft Office \u{2192} Modify \u{2192} Online Repair.",
                );
            }
            CheckResult {
                id: "onenote".to_owned(),
                label: "OneNote (Desktop)".to_owned(),
                status: CheckStatus::Fail,
                message: info.concat(" \u{2014} but COM automation failed: ").concat(e.as_str()),
                remediation: Some(
                    "OneNote is installed but COM automation is not working. Try repairing your Office installation: Settings \u{2192} Apps \u{2192} Microsoft Office \u{2192} Modify \u{2192} Online Repair.".to_owned(),
                ),
            }
        },
        (None, Err(_)) => {
            if uwp_installed {
                proof {
                    reveal_strlit(
                        "Install Microsoft Office (Desktop) with OneNote. The Microsoft Store version (OneNote for Windows 10) does not support COM automation. You need Office 2013, 2016, 2019, 2021, or Microsoft 365 desktop apps.",
                    );
                }
                CheckResult {
                    id: "onenote".to_owned(),
                    label: "OneNote (Desktop)".to_owned(),
                    status: CheckStatus::Fail,
                    message: "Only UWP/Store version of OneNote detected. Desktop version is required.".to_owned(),
                    remediation: Some(
                        "Install Microsoft Office (Desktop) with OneNote. The Microsoft Store version (OneNote for Windows 10) does not support COM automation. You need Office 2013, 2016, 2019, 2021, or Microsoft 365 desktop apps.".to_owned(),
                    ),
                }
            } else {
                proof {
                    reveal_strlit(
                        "Install Microsoft Office (Desktop) with OneNote included. Office 2013 or later is required.",
                    );
                }
                CheckResult {
                    id: "onenote".to_owned(),
                    label: "OneNote (Desktop)".to_owned(),
                    status: CheckStatus::Fail,
                    message: "OneNote desktop application not found.".to_owned(),
                    remediation: Some(
                        "Install Microsoft Office (Desktop) with OneNote included. Office 2013 or later is required.".to_owned(),
                    ),
                }
            }
        },
    }
}

/// The fixed result reported on hosts where neither the registry probes
/// nor the automation handshake can run.
pub fn check_unsupported() -> (r: CheckResult)
    ensures
        r.id@ == "onenote"@,
        r.label@ == "OneNote (Desktop)"@,
        r.status == CheckStatus::Fail,
        r.message@ == "Not running on Windows \u{2014} cannot check OneNote."@,
        r.remediation matches Some(t) && t@ == "This tool must be run on Windows."@,
        result_wf(r),
{
    proof {
        reveal_strlit("This tool must be run on Windows.");
    }
    CheckResult {
        id: "onenote".to_owned(),
        label: "OneNote (Desktop)".to_owned(),
        status: CheckStatus::Fail,
        message: "Not running on Windows \u{2014} cannot check OneNote.".to_owned(),
        remediation: Some("This tool must be run on Windows.".to_owned()),
    }
}

} // verus!
