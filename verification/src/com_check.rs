//! Detector for the automation bridge itself: whether the automation
//! subsystem initializes and whether both application objects can be
//! instantiated through it. Any failure here blocks the export path, so
//! every negative arm fails rather than warns.

use vstd::prelude::*;
use vstd::string::StringExecFns;
use crate::types::CheckResult;
use crate::types::CheckStatus;
use crate::types::result_wf;

verus! {

/// Merges the automation-subsystem outcomes: the initialization result
/// and, when initialization succeeded, the activation result for each of
/// the two application objects.
pub fn check(
    init_result: Result<(), String>,
    onenote_result: Result<(), String>,
    word_result: Result<(), String>,
) -> (r: CheckResult)
    ensures
        r.id@ == "com_bridge"@,
        r.label@ == "COM Automation"@,
        result_wf(r),
        r.status == CheckStatus::Pass <==> (init_result is Ok && onenote_result is Ok
            && word_result is Ok),
        init_result matches Err(e) ==> {
            &&& r.status == CheckStatus::Fail
            &&& r.message@ == "COM initialization failed: "@ + e@
            &&& (r.remediation matches Some(t) && t@
                == "COM subsystem could not be initialized. Try restarting your computer."@)
        },
        init_result is Ok && onenote_result is Ok && word_result is Ok ==> {
            &&& r.message@ == "OneNote.Application and Word.Application are accessible."@
            &&& r.remediation is None
        },
        onenote_result matches Err(oe) ==> word_result matches Err(we) ==> init_result is Ok
            ==> {
            &&& r.status == CheckStatus::Fail
            &&& r.message@ == "Both COM objects failed. OneNote: "@ + oe@ + ". Word: "@ + we@ + "."@
            &&& (r.remediation matches Some(t) && t@
                == "Office COM objects are not accessible. Try repairing your Office installation: Open Settings > Apps > Microsoft Office > Modify > Online Repair."@)
        },
        onenote_result matches Err(e) ==> (init_result is Ok && word_result is Ok) ==> {
            &&& r.status == CheckStatus::Fail
            &&& r.message@ == "OneNote.Application failed: "@ + e@ + ". Word.Application OK."@
            &&& (r.remediation matches Some(t) && t@
                == "OneNote COM automation is not accessible. If you have the Store/UWP version, you need the Desktop version instead. Otherwise, try repairing your Office installation."@)
        },
        word_result matches Err(e) ==> (init_result is Ok && onenote_result is Ok) ==> {
            &&& r.status == CheckStatus::Fail
            &&& r.message@ == "OneNote.Application OK. Word.Application failed: "@ + e@ + "."@
            &&& (r.remediation matches Some(t) && t@
                == "Word COM automation is not accessible. Try repairing your Office installation: Open Settings > Apps > Microsoft Office > Modify > Online Repair."@)
        },
{
    match init_result {
        Err(e) => {
            proof {
                reveal_strlit(
                    "COM subsystem could not be initialized. Try restarting your computer.",
                );
            }
            return CheckResult {
                id: "com_bridge".to_owned(),
                label: "COM Automation".to_owned(),
                status: CheckStatus::Fail,
                message: "COM initialization failed: ".to_owned().concat(e.as_str()),
                remediation: Some(
                    "COM subsystem could not be initialized. Try restarting your computer.".to_owned(),
                ),
            };
        },
        Ok(()) => {},
    }
    match (onenote_result, word_result) {
        (Ok(()), Ok(())) => CheckResult {
            id: "com_bridge".to_owned(),
            label: "COM Automation".to_owned(),
            status: CheckStatus::Pass,
            message: "OneNote.Application and Word.Application are accessible.".to_owned(),
            remediation: None,
        },
        (Err(onenote_err), Err(word_err)) => {
            proof {
                reveal_strlit(
                    "Office COM objects are not accessible. Try repairing your Office installation: Open Settings > Apps > Microsoft Office > Modify > Online Repair.",
                );
            }
            CheckResult {
                id: "com_bridge".to_owned(),
                label: "COM Automation".to_owned(),
                status: CheckStatus::Fail,
                message: "Both COM objects failed. OneNote: ".to_owned().concat(
                    onenote_err.as_str(),
                ).concat(". Word: ").concat(word_err.as_str()).concat("."),
                remediation: Some(
                    "Office COM objects are not accessible. Try repairing your Office installation: Open Settings > Apps > Microsoft Office > Modify > Online Repair.".to_owned(),
                ),
            }
        },
        (Err(e), Ok(())) => {
            proof {
                reveal_strlit(
                    "OneNote COM automation is not accessible. If you have the Store/UWP version, you need the Desktop version instead. Otherwise, try repairing your Office installation.",
                );
            }
            CheckResult {
                id: "com_bridge".to_owned(),
                label: "COM Automation".to_owned(),
                status: CheckStatus::Fail,
                message: "OneNote.Application failed: ".to_owned().concat(e.as_str()).concat(
                    ". Word.Application OK.",
                ),
                remediation: Some(
                    "OneNote COM automation is not accessible. If you have the Store/UWP version, you need the Desktop version instead. Otherwise, try repairing your Office installation.".to_owned(),
                ),
            }
        },
        (Ok(()), Err(e)) => {
            proof {
                reveal_strlit(
                    "Word COM automation is not accessible. Try repairing your Office installation: Open Settings > Apps > Microsoft Office > Modify > Online Repair.",
                );
            }
            CheckResult {
                id: "com_bridge".to_owned(),
                label: "COM Automation".to_owned(),
                status: CheckStatus::Fail,
                message: "OneNote.Application OK. Word.Application failed: ".to_owned().concat(
                    e.as_str(),
                ).concat("."),
                remediation: Some(
                    "Word COM automation is not accessible. Try repairing your Office installation: Open Settings > Apps > Microsoft Office > Modify > Online Repair.".to_owned(),
                ),
            }
        },
    }
}

/// The fixed result reported on hosts without the automation subsystem.
pub fn check_unsupported() -> (r: CheckResult)
    ensures
        r.id@ == "com_bridge"@,
        r.label@ == "COM Bridge"@,
        r.status == CheckStatus::Fail,
        r.message@ == "Not running on Windows - COM is not available."@,
        r.remediation matches Some(t) && t@ == "This tool must be run on Windows."@,
        result_wf(r),
{
    proof {
        reveal_strlit("This tool must be run on Windows.");
    }
    CheckResult {
        id: "com_bridge".to_owned(),
        label: "COM Bridge".to_owned(),
        status: CheckStatus::Fail,
        message: "Not running on Windows - COM is not available.".to_owned(),
        remediation: Some("This tool must be run on Windows.".to_owned()),
    }
}

} // verus!
