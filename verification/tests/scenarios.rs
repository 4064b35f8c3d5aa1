//! End-to-end scenarios over the detector and aggregation API.

use readiness_scan::com_check;
use readiness_scan::joplin_check;
use readiness_scan::joplin_check::RegistryAppEntry;
use readiness_scan::onenote_check;
use readiness_scan::os_check;
use readiness_scan::os_check::OsVersionInfo;
use readiness_scan::scan;
use readiness_scan::sync_check;
use readiness_scan::types::CheckStatus;
use readiness_scan::word_check;

fn os_19045() -> OsVersionInfo {
    OsVersionInfo {
        build: "19045".to_string(),
        display_version: "22H2".to_string(),
        product_name: "Windows 10 Pro".to_string(),
        ubr: Some(3693),
    }
}

#[test]
fn scenario_nothing_installed_build_19045() {
    // No target application installed at all; OS build 19045.
    let joplin = joplin_check::check(None, None, false);
    let os = os_check::check(Ok(os_19045()));
    let onenote = onenote_check::check(None, Err("CoCreateInstance: not registered".to_string()), false);
    let word = word_check::check(None, Err("CoCreateInstance: not registered".to_string()));
    let com = com_check::check(
        Ok(()),
        Err("CLSIDFromProgID: not registered".to_string()),
        Err("CLSIDFromProgID: not registered".to_string()),
    );
    let sync_auto = sync_check::check_auto_sync(None, None);
    let sync_download = sync_check::check_full_download(None, None);

    assert_eq!(os.status, CheckStatus::Pass);
    assert_eq!(joplin.status, CheckStatus::Fail);
    assert_eq!(sync_auto.status, CheckStatus::Skipped);
    assert_eq!(sync_download.status, CheckStatus::Skipped);

    let checks = vec![joplin, os, onenote, word, com, sync_auto, sync_download];
    let result = scan::assemble_scan_result(checks, "Windows 10 Pro 22H2 (Build 19045.3693)".to_string());
    assert_eq!(result.overall, CheckStatus::Fail);
    assert_eq!(result.checks.len(), 7);
}

#[test]
fn scenario_target_found_via_registry() {
    // Target app found via registry with version "2.14.2" at
    // "C:\Program Files\App\App.exe".
    let entries = vec![
        RegistryAppEntry {
            display_name: "Some Other Tool".to_string(),
            display_version: Some("1.0".to_string()),
            install_location: Some("C:\\Tools".to_string()),
        },
        RegistryAppEntry {
            display_name: "Joplin".to_string(),
            display_version: Some("2.14.2".to_string()),
            install_location: Some("C:\\Program Files\\App\\App.exe".to_string()),
        },
    ];
    let hit = joplin_check::scan_uninstall_keys(&entries);
    assert!(hit.is_some());
    let r = joplin_check::check(hit, None, false);
    assert_eq!(r.status, CheckStatus::Pass);
    assert!(r.message.contains("2.14.2"));
    assert!(r.message.contains("C:\\Program Files\\App\\App.exe"));
    assert_eq!(r.message, "Joplin 2.14.2 found at C:\\Program Files\\App\\App.exe");
    assert!(r.remediation.is_none());
}

#[test]
fn scenario_install_root_found_but_activation_denied() {
    // Install root found for version "16.0" but automation activation
    // fails with "CoCreateInstance: access denied".
    let evidence = onenote_check::detect_via_registry(
        Some("C:\\Program Files\\Microsoft Office\\root\\Office16\\".to_string()),
        None,
        None,
        false,
    );
    assert_eq!(
        evidence.as_deref(),
        Some("Version 16.0 at C:\\Program Files\\Microsoft Office\\root\\Office16\\")
    );
    let r = onenote_check::check(evidence, Err("CoCreateInstance: access denied".to_string()), false);
    assert_eq!(r.status, CheckStatus::Fail);
    assert_eq!(
        r.message,
        "Version 16.0 at C:\\Program Files\\Microsoft Office\\root\\Office16\\ \u{2014} but COM automation failed: CoCreateInstance: access denied"
    );
    let remediation = r.remediation.expect("repair remediation expected");
    assert!(remediation.contains("repairing"));
    assert!(!remediation.is_empty());
}

#[test]
fn scenario_sync_absence_handling_differs() {
    // Auto-sync value absent: enabled by default, so Pass. Full-download
    // value absent: not enabled by default, so Warning.
    let auto = sync_check::check_auto_sync(Some("16.0"), None);
    assert_eq!(auto.status, CheckStatus::Pass);
    assert_eq!(auto.message, "Automatic sync is enabled (Office 16.0)");
    assert!(auto.remediation.is_none());

    let download = sync_check::check_full_download(Some("16.0"), None);
    assert_eq!(download.status, CheckStatus::Warning);
    assert_eq!(
        download.message,
        "Full file and image download is not enabled (Office 16.0)"
    );
    assert!(download.remediation.is_some());
}

#[test]
fn scenario_degraded_full_scan() {
    // On a host without the native probe subsystems every detector
    // degrades to its fixed result, one per target, in order.
    let result = scan::run_all_checks().expect("scan never fails");
    let ids: Vec<&str> = result.checks.iter().map(|c| c.id.as_str()).collect();
    assert_eq!(
        ids,
        vec!["joplin", "windows_os", "onenote", "word", "com_bridge", "sync_auto", "sync_download"]
    );
    assert_eq!(result.overall, CheckStatus::Fail);
    assert_eq!(result.os_info, "Non-Windows OS (checks unavailable)");
    assert!(!result.timestamp.is_empty());
    for c in &result.checks[..5] {
        assert_eq!(c.status, CheckStatus::Fail);
    }
    assert_eq!(result.checks[5].status, CheckStatus::Skipped);
    assert_eq!(result.checks[6].status, CheckStatus::Skipped);
}
