//! Per-detector merge arms.

use readiness_scan::com_check;
use readiness_scan::joplin_check;
use readiness_scan::joplin_check::RegistryAppEntry;
use readiness_scan::onenote_check;
use readiness_scan::registry::ClickToRunInfo;
use readiness_scan::sync_check;
use readiness_scan::types::CheckStatus;
use readiness_scan::word_check;

fn entry(name: &str, version: Option<&str>, location: Option<&str>) -> RegistryAppEntry {
    RegistryAppEntry {
        display_name: name.to_string(),
        display_version: version.map(|s| s.to_string()),
        install_location: location.map(|s| s.to_string()),
    }
}

#[test]
fn joplin_registry_match_is_case_insensitive() {
    let entries = vec![entry("JOPLIN desktop", None, None)];
    let hit = joplin_check::scan_uninstall_keys(&entries).expect("should match");
    assert_eq!(hit.0, "Joplin");
    assert_eq!(hit.1, "(registry entry found)");
}

#[test]
fn joplin_registry_no_match() {
    let entries = vec![entry("Notepad++", Some("8.6"), None)];
    assert!(joplin_check::scan_uninstall_keys(&entries).is_none());
}

#[test]
fn joplin_registry_first_match_wins() {
    let entries = vec![
        entry("Joplin 1", Some("1.0"), Some("C:\\a")),
        entry("Joplin 2", Some("2.0"), Some("C:\\b")),
    ];
    let hit = joplin_check::scan_uninstall_keys(&entries).unwrap();
    assert_eq!(hit.0, "Joplin 1.0");
    assert_eq!(hit.1, "C:\\a");
}

#[test]
fn joplin_user_root_takes_priority() {
    let user = vec![entry("Joplin", Some("2.0"), Some("C:\\user"))];
    let machine = vec![entry("Joplin", Some("3.0"), Some("C:\\machine"))];
    let hit = joplin_check::find_joplin_in_registry(&user, &machine).unwrap();
    assert_eq!(hit.1, "C:\\user");

    let empty: Vec<RegistryAppEntry> = Vec::new();
    let hit2 = joplin_check::find_joplin_in_registry(&empty, &machine).unwrap();
    assert_eq!(hit2.1, "C:\\machine");
}

#[test]
fn joplin_candidate_paths_in_fixed_order() {
    let paths = joplin_check::joplin_candidate_paths(
        Some("C:\\Users\\u\\AppData\\Local".to_string()),
        Some("C:\\Program Files".to_string()),
        Some("C:\\Program Files (x86)".to_string()),
    );
    assert_eq!(
        paths,
        vec![
            "C:\\Users\\u\\AppData\\Local\\Programs\\joplin\\Joplin.exe".to_string(),
            "C:\\Program Files\\Joplin\\Joplin.exe".to_string(),
            "C:\\Program Files (x86)\\Joplin\\Joplin.exe".to_string(),
        ]
    );
    let fewer = joplin_check::joplin_candidate_paths(None, Some("C:\\Program Files".to_string()), None);
    assert_eq!(fewer, vec!["C:\\Program Files\\Joplin\\Joplin.exe".to_string()]);
}

#[test]
fn joplin_on_disk_picks_first_existing() {
    let candidates = vec!["a".to_string(), "b".to_string(), "c".to_string()];
    let found = vec![false, true, true];
    assert_eq!(joplin_check::find_joplin_on_disk(&candidates, &found).as_deref(), Some("b"));
    let none = vec![false, false, false];
    assert!(joplin_check::find_joplin_on_disk(&candidates, &none).is_none());
}

#[test]
fn joplin_profile_path_built_from_appdata() {
    assert_eq!(
        joplin_check::joplin_profile_path(Some("C:\\Users\\u\\AppData\\Roaming".to_string())).as_deref(),
        Some("C:\\Users\\u\\AppData\\Roaming\\joplin-desktop")
    );
    assert!(joplin_check::joplin_profile_path(None).is_none());
}

#[test]
fn joplin_profile_only_warns() {
    let r = joplin_check::check(None, None, true);
    assert_eq!(r.status, CheckStatus::Warning);
    assert_eq!(r.label, "Joplin");
    assert!(r.remediation.is_some());
}

#[test]
fn joplin_disk_hit_passes() {
    let r = joplin_check::check(None, Some("C:\\Joplin\\Joplin.exe".to_string()), true);
    assert_eq!(r.status, CheckStatus::Pass);
    assert_eq!(r.message, "Found at C:\\Joplin\\Joplin.exe");
    assert!(r.remediation.is_none());
}

#[test]
fn joplin_nothing_found_fails() {
    let r = joplin_check::check(None, None, false);
    assert_eq!(r.status, CheckStatus::Fail);
    assert_eq!(r.label, "Joplin Desktop");
    assert_eq!(r.message, "Joplin desktop application not found.");
    assert!(r.remediation.unwrap().contains("joplinapp.org"));
}

#[test]
fn onenote_c2r_fallback_used_when_no_install_root() {
    let c2r = ClickToRunInfo {
        install_path: "C:\\Program Files\\Common Files\\Microsoft Shared\\ClickToRun".to_string(),
        product_ids: "O365ProPlusRetail".to_string(),
        version: Some("16.0.17328.20142".to_string()),
    };
    let evidence = onenote_check::detect_via_registry(None, None, Some(c2r), false);
    assert_eq!(
        evidence.as_deref(),
        Some("Click-to-Run O365ProPlusRetail (v16.0.17328.20142)")
    );
}

#[test]
fn onenote_c2r_version_placeholder() {
    let c2r = ClickToRunInfo {
        install_path: "C:\\C2R".to_string(),
        product_ids: "O365ProPlusRetail".to_string(),
        version: None,
    };
    let evidence = onenote_check::detect_via_registry(None, None, Some(c2r), false);
    assert_eq!(evidence.as_deref(), Some("Click-to-Run O365ProPlusRetail (vunknown)"));
}

#[test]
fn onenote_c2r_excluded_gives_no_evidence() {
    let c2r = ClickToRunInfo {
        install_path: "C:\\C2R".to_string(),
        product_ids: "O365ProPlusRetail".to_string(),
        version: None,
    };
    assert!(onenote_check::detect_via_registry(None, None, Some(c2r), true).is_none());
}

#[test]
fn onenote_older_version_used_second() {
    let evidence = onenote_check::detect_via_registry(None, Some("C:\\Office15".to_string()), None, false);
    assert_eq!(evidence.as_deref(), Some("Version 15.0 at C:\\Office15"));
}

#[test]
fn onenote_activation_without_evidence_warns() {
    let r = onenote_check::check(None, Ok(()), false);
    assert_eq!(r.status, CheckStatus::Warning);
    assert!(r.remediation.unwrap().contains("non-standard"));
}

#[test]
fn onenote_store_only_variant_called_out() {
    let r = onenote_check::check(None, Err("x".to_string()), true);
    assert_eq!(r.status, CheckStatus::Fail);
    assert_eq!(
        r.message,
        "Only UWP/Store version of OneNote detected. Desktop version is required."
    );
    assert!(r.remediation.unwrap().contains("Microsoft Store version"));
}

#[test]
fn onenote_nothing_found_fails() {
    let r = onenote_check::check(None, Err("x".to_string()), false);
    assert_eq!(r.status, CheckStatus::Fail);
    assert_eq!(r.message, "OneNote desktop application not found.");
}

#[test]
fn onenote_uwp_package_scan_is_case_sensitive_both_ways() {
    let names = vec!["Microsoft.Office.OneNote_16001".to_string()];
    assert!(onenote_check::is_uwp_onenote_installed(&names));
    let lower = vec!["microsoft.onenoteim".to_string()];
    assert!(onenote_check::is_uwp_onenote_installed(&lower));
    let other = vec!["Microsoft.ONENOTE".to_string()];
    assert!(!onenote_check::is_uwp_onenote_installed(&other));
    let none: Vec<String> = Vec::new();
    assert!(!onenote_check::is_uwp_onenote_installed(&none));
}

#[test]
fn word_both_positive_passes() {
    let r = word_check::check(Some("Version 16.0 at C:\\Office16".to_string()), Ok(()));
    assert_eq!(r.status, CheckStatus::Pass);
    assert_eq!(r.message, "Version 16.0 at C:\\Office16 \u{2014} COM automation verified.");
    assert!(r.remediation.is_none());
}

#[test]
fn word_evidence_without_activation_fails() {
    let r = word_check::check(Some("Version 15.0 at C:\\Office15".to_string()), Err("denied".to_string()));
    assert_eq!(r.status, CheckStatus::Fail);
    assert_eq!(
        r.message,
        "Version 15.0 at C:\\Office15 \u{2014} but COM automation failed: denied"
    );
    assert!(r.remediation.unwrap().contains("repairing"));
}

#[test]
fn word_nothing_found_fails() {
    let r = word_check::check(None, Err("x".to_string()));
    assert_eq!(r.status, CheckStatus::Fail);
    assert_eq!(r.message, "Word desktop application not found.");
}

#[test]
fn com_init_failure_dominates() {
    let r = com_check::check(Err("0x80010106".to_string()), Ok(()), Ok(()));
    assert_eq!(r.status, CheckStatus::Fail);
    assert_eq!(r.message, "COM initialization failed: 0x80010106");
    assert!(r.remediation.unwrap().contains("restarting"));
}

#[test]
fn com_both_objects_accessible_passes() {
    let r = com_check::check(Ok(()), Ok(()), Ok(()));
    assert_eq!(r.status, CheckStatus::Pass);
    assert_eq!(r.message, "OneNote.Application and Word.Application are accessible.");
    assert!(r.remediation.is_none());
}

#[test]
fn com_both_objects_failing_reports_both() {
    let r = com_check::check(Ok(()), Err("one".to_string()), Err("two".to_string()));
    assert_eq!(r.status, CheckStatus::Fail);
    assert_eq!(r.message, "Both COM objects failed. OneNote: one. Word: two.");
}

#[test]
fn com_single_object_failures_differ() {
    let r1 = com_check::check(Ok(()), Err("one".to_string()), Ok(()));
    assert_eq!(r1.message, "OneNote.Application failed: one. Word.Application OK.");
    let r2 = com_check::check(Ok(()), Ok(()), Err("two".to_string()));
    assert_eq!(r2.message, "OneNote.Application OK. Word.Application failed: two.");
    assert_eq!(r1.status, CheckStatus::Fail);
    assert_eq!(r2.status, CheckStatus::Fail);
}

#[test]
fn sync_prerequisite_missing_skips_both() {
    // Skipped regardless of what the value read would have been.
    for value in [None, Some(0), Some(1)] {
        let auto = sync_check::check_auto_sync(None, value);
        assert_eq!(auto.status, CheckStatus::Skipped);
        assert_eq!(auto.message, "Skipped \u{2014} OneNote Desktop not installed");
        assert!(auto.remediation.is_none());
        let download = sync_check::check_full_download(None, value);
        assert_eq!(download.status, CheckStatus::Skipped);
        assert!(download.remediation.is_none());
    }
}

#[test]
fn sync_auto_explicit_nonzero_warns() {
    let r = sync_check::check_auto_sync(Some("16.0"), Some(1));
    assert_eq!(r.status, CheckStatus::Warning);
    assert_eq!(r.message, "Automatic sync is disabled (Office 16.0)");
    assert!(r.remediation.unwrap().contains("Sync notebooks automatically"));
}

#[test]
fn sync_auto_explicit_zero_passes() {
    let r = sync_check::check_auto_sync(Some("16.0"), Some(0));
    assert_eq!(r.status, CheckStatus::Pass);
}

#[test]
fn sync_download_explicit_zero_passes() {
    let r = sync_check::check_full_download(Some("15.0"), Some(0));
    assert_eq!(r.status, CheckStatus::Pass);
    assert_eq!(
        r.message,
        "Full file and image download is enabled (Office 15.0 \u{2014} unverified; check manually if unsure)"
    );
}

#[test]
fn sync_download_explicit_nonzero_warns() {
    let r = sync_check::check_full_download(Some("16.0"), Some(1));
    assert_eq!(r.status, CheckStatus::Warning);
    assert!(r.remediation.unwrap().contains("Download all files and images"));
}

#[test]
fn sync_version_resolution_newest_first() {
    assert_eq!(
        sync_check::detect_onenote_version(Some("C:\\a".to_string()), Some("C:\\b".to_string())),
        Some("16.0")
    );
    assert_eq!(sync_check::detect_onenote_version(None, Some("C:\\b".to_string())), Some("15.0"));
    assert_eq!(sync_check::detect_onenote_version(None, None), None);
}

#[test]
fn sync_subkeys_are_version_specific() {
    assert_eq!(
        sync_check::auto_sync_subkey("16.0"),
        "Software\\Microsoft\\Office\\16.0\\OneNote\\Options\\Save"
    );
    assert_eq!(
        sync_check::full_download_subkey("15.0"),
        "Software\\Microsoft\\Office\\15.0\\OneNote\\Options"
    );
}

#[test]
fn unsupported_results_are_fixed() {
    let j = joplin_check::check_unsupported();
    assert_eq!(j.status, CheckStatus::Fail);
    assert_eq!(j.message, "Not running on Windows - cannot check Joplin.");
    let o = onenote_check::check_unsupported();
    assert_eq!(o.message, "Not running on Windows \u{2014} cannot check OneNote.");
    let w = word_check::check_unsupported();
    assert_eq!(w.message, "Not running on Windows \u{2014} cannot check Word.");
    let c = com_check::check_unsupported();
    assert_eq!(c.label, "COM Bridge");
    assert_eq!(c.message, "Not running on Windows - COM is not available.");
}
