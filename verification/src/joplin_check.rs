//! Detector for the migration-target note application. Three probe
//! strategies feed it, in priority order: the per-user and per-machine
//! uninstall registry entries, a fixed list of on-disk install paths, and
//! the per-user profile directory as a weak last signal.

use vstd::prelude::*;
use vstd::string::StringExecFns;
use crate::text;
use crate::types::CheckResult;
use crate::types::CheckStatus;
use crate::types::result_wf;

verus! {

/// One application entry enumerated under an uninstall registry root.
pub struct RegistryAppEntry {
    pub display_name: String,
    pub display_version: Option<String>,
    pub install_location: Option<String>,
}

/// The entry's display name names Joplin, up to ASCII case.
pub open spec fn joplin_entry_matches(e: RegistryAppEntry) -> bool {
    text::contains_ci(e.display_name@, "joplin"@)
}

/// Some enumerated entry names Joplin.
pub open spec fn any_joplin_entry(s: Seq<RegistryAppEntry>) -> bool {
    exists|i: int| 0 <= i < s.len() && #[trigger] joplin_entry_matches(s[i])
}

/// `v` is the version text shown for the entry: the display version under
/// the product name, or the bare product name when none was recorded.
pub open spec fn entry_version_text(e: RegistryAppEntry, v: Seq<char>) -> bool {
    match e.display_version {
        Some(dv) => v == "Joplin "@ + dv@,
        None => v == "Joplin"@,
    }
}

/// `l` is the location text shown for the entry: its recorded install
/// location, or a placeholder when none was recorded.
pub open spec fn entry_location_text(e: RegistryAppEntry, l: Seq<char>) -> bool {
    match e.install_location {
        Some(loc) => l == loc@,
        None => l == "(registry entry found)"@,
    }
}

/// `v` and `l` describe the first enumerated entry that names Joplin.
pub open spec fn first_joplin_hit(s: Seq<RegistryAppEntry>, v: Seq<char>, l: Seq<char>) -> bool {
    exists|i: int|
        {
            &&& 0 <= i < s.len()
            &&& #[trigger] joplin_entry_matches(s[i])
            &&& forall|t: int| 0 <= t < i ==> !joplin_entry_matches(s[t])
            &&& entry_version_text(s[i], v)
            &&& entry_location_text(s[i], l)
        }
}

/// Scans the entries enumerated under one uninstall root for the first
/// one whose display name names Joplin, yielding its version and location
/// texts.
pub fn scan_uninstall_keys(entries: &Vec<RegistryAppEntry>) -> (r: Option<(String, String)>)
    ensures
        r is Some <==> any_joplin_entry(entries@),
        r matches Some(p) ==> first_joplin_hit(entries@, p.0@, p.1@),
{
    let mut i: usize = 0;
    while i < entries.len()
        invariant
            i <= entries@.len(),
            forall|t: int| 0 <= t < i ==> !joplin_entry_matches(entries@[t]),
        decreases entries@.len() - i,
    {
        let e = &entries[i];
        if text::contains_substring_ci(e.display_name.as_str(), "joplin") {
            proof {
                assert(joplin_entry_matches(entries@[i as int]));
            }
            let version_str = match &e.display_version {
                Some(v) => "Joplin ".to_owned().concat(v.as_str()),
                None => "Joplin".to_owned(),
            };
            let location_str = match &e.install_location {
                Some(l) => l.clone(),
                None => "(registry entry found)".to_owned(),
            };
            proof {
                assert(entry_version_text(entries@[i as int], version_str@));
                assert(entry_location_text(entries@[i as int], location_str@));
            }
            return Some((version_str, location_str));
        }
        i = i + 1;
    }
    None
}

/// Looks for Joplin under the per-user uninstall root first, then the
/// per-machine root: a user install registers in the former, a
/// system-wide install in the latter.
pub fn find_joplin_in_registry(
    user_entries: &Vec<RegistryAppEntry>,
    machine_entries: &Vec<RegistryAppEntry>,
) -> (r: Option<(String, String)>)
    ensures
        r is Some <==> (any_joplin_entry(user_entries@) || any_joplin_entry(machine_entries@)),
        r matches Some(p) ==> (if any_joplin_entry(user_entries@) {
            first_joplin_hit(user_entries@, p.0@, p.1@)
        } else {
            first_joplin_hit(machine_entries@, p.0@, p.1@)
        }),
{
    match scan_uninstall_keys(user_entries) {
        Some(p) => Some(p),
        None => scan_uninstall_keys(machine_entries),
    }
}

/// The candidate executable paths under one optional environment root.
pub open spec fn rooted_path(base: Option<String>, suffix: Seq<char>) -> Seq<Seq<char>> {
    match base {
        Some(b) => seq![b@ + suffix],
        None => seq![],
    }
}

/// Builds the fixed, ordered candidate list of Joplin executable paths
/// from the environment-variable roots that exist: the per-user install
/// location, the per-machine location, and its 32-bit reflected
/// counterpart, in that order.
pub fn joplin_candidate_paths(
    local_app_data: Option<String>,
    program_files: Option<String>,
    program_files_x86: Option<String>,
) -> (r: Vec<String>)
    ensures
        r.deep_view() == rooted_path(local_app_data, "\\Programs\\joplin\\Joplin.exe"@)
            + rooted_path(program_files, "\\Joplin\\Joplin.exe"@) + rooted_path(
            program_files_x86,
            "\\Joplin\\Joplin.exe"@,
        ),
{
    let mut out: Vec<String> = Vec::new();
    match local_app_data {
        Some(b) => out.push(b.concat("\\Programs\\joplin\\Joplin.exe")),
        None => {},
    }
    match program_files {
        Some(b) => out.push(b.concat("\\Joplin\\Joplin.exe")),
        None => {},
    }
    match program_files_x86 {
        Some(b) => out.push(b.concat("\\Joplin\\Joplin.exe")),
        None => {},
    }
    proof {
        assert(out.deep_view() =~~= rooted_path(local_app_data, "\\Programs\\joplin\\Joplin.exe"@)
            + rooted_path(program_files, "\\Joplin\\Joplin.exe"@) + rooted_path(
            program_files_x86,
            "\\Joplin\\Joplin.exe"@,
        ));
    }
    out
}

/// Picks the first candidate path that was found on disk. `found`
/// records, for each candidate, whether it exists.
pub fn find_joplin_on_disk(candidates: &Vec<String>, found: &Vec<bool>) -> (r: Option<String>)
    requires
        candidates@.len() == found@.len(),
    ensures
        r is Some <==> exists|i: int| 0 <= i < found@.len() && found@[i],
        r matches Some(p) ==> exists|i: int|
            {
                &&& 0 <= i < found@.len()
                &&& #[trigger] found@[i]
                &&& forall|t: int| 0 <= t < i ==> !found@[t]
                &&& p@ == candidates@[i]@
            },
{
    let mut i: usize = 0;
    while i < found.len()
        invariant
            candidates@.len() == found@.len(),
            i <= found@.len(),
            forall|t: int| 0 <= t < i ==> !found@[t],
        decreases found@.len() - i,
    {
        if found[i] {
            return Some(candidates[i].clone());
        }
        i = i + 1;
    }
    None
}

/// The per-user configuration directory whose existence signals that
/// Joplin was used on this machine even if the binary is gone.
pub fn joplin_profile_path(appdata: Option<String>) -> (r: Option<String>)
    ensures
        appdata is None ==> r is None,
        appdata matches Some(a) ==> (r matches Some(p) && p@ == a@ + "\\joplin-desktop"@),
{
    match appdata {
        Some(a) => Some(a.concat("\\joplin-desktop")),
        None => None,
    }
}

/// Merges the three probe outcomes for Joplin, first success winning:
/// a registry hit or an on-disk hit is a pass, a profile-directory-only
/// hit a warning, nothing at all a failure.
pub fn check(
    registry_hit: Option<(String, String)>,
    disk_path: Option<String>,
    profile_found: bool,
) -> (r: CheckResult)
    ensures
        r.id@ == "joplin"@,
        result_wf(r),
        r.status == CheckStatus::Pass ==> (registry_hit is Some || disk_path is Some),
        registry_hit matches Some(p) ==> {
            &&& r.status == CheckStatus::Pass
            &&& r.label@ == "Joplin"@
            &&& r.message@ == p.0@ + " found at "@ + p.1@
            &&& r.remediation is None
        },
        disk_path matches Some(d) ==> registry_hit is None ==> {
            &&& r.status == CheckStatus::Pass
            &&& r.label@ == "Joplin"@
            &&& r.message@ == "Found at "@ + d@
            &&& r.remediation is None
        },
        registry_hit is None && disk_path is None && profile_found ==> {
            &&& r.status == CheckStatus::Warning
            &&& r.label@ == "Joplin"@
            &&& r.message@ == "Joplin profile directory found, but application not detected."@
            &&& (r.remediation matches Some(t) && t@
                == "A Joplin configuration folder exists but the application was not found. Joplin may have been uninstalled or is a portable installation in a non-standard location. Reinstall from https://joplinapp.org/download/ or verify it is accessible."@)
        },
        registry_hit is None && disk_path is None && !profile_found ==> {
            &&& r.status == CheckStatus::Fail
            &&& r.label@ == "Joplin Desktop"@
            &&& r.message@ == "Joplin desktop application not found."@
            &&& (r.remediation matches Some(t) && t@
                == "Install Joplin from https://joplinapp.org/download/. The desktop application is required as the migration target. Both the per-user install and the system-wide install are supported."@)
        },
{
    match registry_hit {
        Some(p) => {
            let (version, location) = p;
            let message = version.concat(" found at ").concat(location.as_str());
            CheckResult {
                id: "joplin".to_owned(),
                label: "Joplin".to_owned(),
                status: CheckStatus::Pass,
                message,
                remediation: None,
            }
        },
        None => match disk_path {
            Some(d) => {
                let message = "Found at ".to_owned().concat(d.as_str());
                CheckResult {
                    id: "joplin".to_owned(),
                    label: "Joplin".to_owned(),
                    status: CheckStatus::Pass,
                    message,
                    remediation: None,
                }
            },
            None => {
                if profile_found {
                    proof {
                        reveal_strlit(
                            "A Joplin configuration folder exists but the application was not found. Joplin may have been uninstalled or is a portable installation in a non-standard location. Reinstall from https://joplinapp.org/download/ or verify it is accessible.",
                        );
                    }
                    CheckResult {
                        id: "joplin".to_owned(),
                        label: "Joplin".to_owned(),
                        status: CheckStatus::Warning,
                        message: "Joplin profile directory found, but application not detected.".to_owned(),
                        remediation: Some(
                            "A Joplin configuration folder exists but the application was not found. Joplin may have been uninstalled or is a portable installation in a non-standard location. Reinstall from https://joplinapp.org/download/ or verify it is accessible.".to_owned(),
                        ),
                    }
                } else {
                    proof {
                        reveal_strlit(
                            "Install Joplin from https://joplinapp.org/download/. The desktop application is required as the migration target. Both the per-user install and the system-wide install are supported.",
                        );
                    }
                    CheckResult {
                        id: "joplin".to_owned(),
                        label: "Joplin Desktop".to_owned(),
                        status: CheckStatus::Fail,
                        message: "Joplin desktop application not found.".to_owned(),
                        remediation: Some(
                            "Install Joplin from https://joplinapp.org/download/. The desktop application is required as the migration target. Both the per-user install and the system-wide install are supported.".to_owned(),
                        ),
                    }
                }
            },
        },
    }
}

/// The fixed result reported on hosts where none of the probes can run:
/// the target application cannot be confirmed, which blocks migration.
pub fn check_unsupported() -> (r: CheckResult)
    ensures
        r.id@ == "joplin"@,
        r.label@ == "Joplin Desktop"@,
        r.status == CheckStatus::Fail,
        r.message@ == "Not running on Windows - cannot check Joplin."@,
        r.remediation matches Some(t) && t@ == "This tool must be run on Windows."@,
        result_wf(r),
{
    proof {
        reveal_strlit("This tool must be run on Windows.");
    }
    CheckResult {
        id: "joplin".to_owned(),
        label: "Joplin Desktop".to_owned(),
        status: CheckStatus::Fail,
        message: "Not running on Windows - cannot check Joplin.".to_owned(),
        remediation: Some("This tool must be run on Windows.".to_owned()),
    }
}

} // verus!
