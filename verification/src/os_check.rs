//! Detector for the host operating-system version. One registry read
//! supplies the raw facts; the detector normalizes the product name,
//! classifies the build number against the supported thresholds, and
//! renders the descriptor text shown in the report header.

use vstd::prelude::*;
use vstd::string::StrSliceExecFns;
use vstd::string::StringExecFns;
use crate::text;
use crate::types::CheckResult;
use crate::types::CheckStatus;
use crate::types::result_wf;

verus! {

/// The version facts read from the OS version registry key. `build` is
/// kept as the raw text it was read as; `ubr` is the update build
/// revision, when present.
pub struct OsVersionInfo {
    pub build: String,
    pub display_version: String,
    pub product_name: String,
    pub ubr: Option<u32>,
}

/// The build number parsed from the raw build text, 0 when malformed.
pub open spec fn build_number(info: OsVersionInfo) -> u32 {
    text::parse_u32_or_zero(info.build@)
}

/// The product name with predecessor branding rewritten: builds at or
/// above 22000 register under the name of the predecessor release on
/// some systems.
pub open spec fn normalized_product(info: OsVersionInfo) -> Seq<char> {
    if build_number(info) >= 22000 {
        text::replace_spec(info.product_name@, "Windows 10"@, "Windows 11"@)
    } else {
        info.product_name@
    }
}

/// The build text shown to the user: the raw build, with the update
/// build revision appended after a dot when present.
pub open spec fn build_text(info: OsVersionInfo) -> Seq<char> {
    match info.ubr {
        Some(u) => info.build@ + "."@ + text::dec_str(u as nat),
        None => info.build@,
    }
}

/// The display-version suffix: a space plus the display version, or
/// nothing when the display version is empty.
pub open spec fn version_suffix_text(info: OsVersionInfo) -> Seq<char> {
    if info.display_version@.len() == 0 {
        Seq::empty()
    } else {
        " "@ + info.display_version@
    }
}

/// The descriptor used inside the check message: normalized product
/// name, display-version suffix, and build text.
pub open spec fn described(info: OsVersionInfo) -> Seq<char> {
    normalized_product(info) + version_suffix_text(info) + " (Build "@ + build_text(info) + ")"@
}

/// Classifies the version facts: builds at or above 19041 pass, builds
/// back to 10240 warn as outdated, anything older — or an unreadable
/// version — fails.
pub fn check(version: Result<OsVersionInfo, String>) -> (r: CheckResult)
    ensures
        r.id@ == "windows_os"@,
        r.label@ == "Windows OS"@,
        result_wf(r),
        version matches Err(e) ==> {
            &&& r.status == CheckStatus::Fail
            &&& r.message@ == "Could not read OS version: "@ + e@
            &&& (r.remediation matches Some(t) && t@ == "Ensure you are running Windows 10 or 11."@)
        },
        version matches Ok(info) ==> {
            &&& build_number(info) >= 19041 ==> {
                &&& r.status == CheckStatus::Pass
                &&& r.message@ == described(info)
                &&& r.remediation is None
            }
            &&& 10240 <= build_number(info) < 19041 ==> {
                &&& r.status == CheckStatus::Warning
                &&& r.message@ == described(info) + " - consider updating"@
                &&& (r.remediation matches Some(t) && t@
                    == "Update Windows 10 to version 2004 or later via Windows Update."@)
            }
            &&& build_number(info) < 10240 ==> {
                &&& r.status == CheckStatus::Fail
                &&& r.message@ == "Unsupported OS: "@ + described(info)
                &&& (r.remediation matches Some(t) && t@
                    == "Windows 10 (version 2004+) or Windows 11 is required."@)
            }
        },
{
    let info = match version {
        Err(e) => {
            proof {
                reveal_strlit("Ensure you are running Windows 10 or 11.");
            }
            return CheckResult {
                id: "windows_os".to_owned(),
                label: "Windows OS".to_owned(),
                status: CheckStatus::Fail,
                message: "Could not read OS version: ".to_owned().concat(e.as_str()),
                remediation: Some("Ensure you are running Windows 10 or 11.".to_owned()),
            };
        },
        Ok(info) => info,
    };
    let build_num = text::parse_u32(info.build.as_str());
    let product = if build_num >= 22000 {
        proof {
            reveal_strlit("Windows 10");
        }
        text::replace_all(info.product_name.as_str(), "Windows 10", "Windows 11")
    } else {
        info.product_name.clone()
    };
    let build_str = match &info.ubr {
        Some(u) => info.build.clone().concat(".").concat(text::u32_to_string(*u).as_str()),
        None => info.build.clone(),
    };
    let suffix = if info.display_version.as_str().is_empty() {
        String::new()
    } else {
        " ".to_owned().concat(info.display_version.as_str())
    };
    let core = product.concat(suffix.as_str()).concat(" (Build ").concat(build_str.as_str())
        .concat(")");
    if build_num >= 19041 {
        CheckResult {
            id: "windows_os".to_owned(),
            label: "Windows OS".to_owned(),
            status: CheckStatus::Pass,
            message: core,
            remediation: None,
        }
    } else if build_num >= 10240 {
        proof {
            reveal_strlit("Update Windows 10 to version 2004 or later via Windows Update.");
        }
        CheckResult {
            id: "windows_os".to_owned(),
            label: "Windows OS".to_owned(),
            status: CheckStatus::Warning,
            message: core.concat(" - consider updating"),
            remediation: Some(
                "Update Windows 10 to version 2004 or later via Windows Update.".to_owned(),
            ),
        }
    } else {
        proof {
            reveal_strlit("Windows 10 (version 2004+) or Windows 11 is required.");
        }
        CheckResult {
            id: "windows_os".to_owned(),
            label: "Windows OS".to_owned(),
            status: CheckStatus::Fail,
            message: "Unsupported OS: ".to_owned().concat(core.as_str()),
            remediation: Some("Windows 10 (version 2004+) or Windows 11 is required.".to_owned()),
        }
    }
}

/// The descriptor text for the report header, from the same version
/// facts the check classifies.
pub fn get_os_display_string(version: Result<OsVersionInfo, String>) -> (r: String)
    ensures
        version matches Err(e) ==> r@ == "Windows (version unknown)"@,
        version matches Ok(info) ==> {
            &&& info.display_version@.len() == 0 ==> r@ == normalized_product(info) + " (Build "@
                + build_text(info) + ")"@
            &&& info.display_version@.len() > 0 ==> r@ == normalized_product(info) + " "@
                + info.display_version@ + " (Build "@ + build_text(info) + ")"@
        },
{
    let info = match version {
        Err(_) => {
            return "Windows (version unknown)".to_owned();
        },
        Ok(info) => info,
    };
    let build_num = text::parse_u32(info.build.as_str());
    let product = if build_num >= 22000 {
        proof {
            reveal_strlit("Windows 10");
        }
        text::replace_all(info.product_name.as_str(), "Windows 10", "Windows 11")
    } else {
        info.product_name.clone()
    };
    let build_str = match &info.ubr {
        Some(u) => info.build.clone().concat(".").concat(text::u32_to_string(*u).as_str()),
        None => info.build.clone(),
    };
    if info.display_version.as_str().is_empty() {
        product.concat(" (Build ").concat(build_str.as_str()).concat(")")
    } else {
        product.concat(" ").concat(info.display_version.as_str()).concat(" (Build ").concat(
            build_str.as_str(),
        ).concat(")")
    }
}

/// The fixed result reported on hosts where the version registry cannot
/// be read at all because the platform is not the supported one.
pub fn check_unsupported() -> (r: CheckResult)
    ensures
        r.id@ == "windows_os"@,
        r.label@ == "Windows OS"@,
        r.status == CheckStatus::Fail,
        r.message@ == "Not running on Windows"@,
        r.remediation matches Some(t) && t@ == "This tool must be run on Windows 10 or 11."@,
        result_wf(r),
{
    proof {
        reveal_strlit("This tool must be run on Windows 10 or 11.");
    }
    CheckResult {
        id: "windows_os".to_owned(),
        label: "Windows OS".to_owned(),
        status: CheckStatus::Fail,
        message: "Not running on Windows".to_owned(),
        remediation: Some("This tool must be run on Windows 10 or 11.".to_owned()),
    }
}

} // verus!
