//! OS-version classification, descriptor rendering, and the text
//! helpers underneath them.

use readiness_scan::os_check;
use readiness_scan::os_check::OsVersionInfo;
use readiness_scan::text;
use readiness_scan::types::CheckStatus;

fn info(build: &str, display: &str, product: &str, ubr: Option<u32>) -> OsVersionInfo {
    OsVersionInfo {
        build: build.to_string(),
        display_version: display.to_string(),
        product_name: product.to_string(),
        ubr,
    }
}

#[test]
fn os_modern_build_passes() {
    let r = os_check::check(Ok(info("19045", "22H2", "Windows 10 Pro", Some(3693))));
    assert_eq!(r.status, CheckStatus::Pass);
    assert_eq!(r.message, "Windows 10 Pro 22H2 (Build 19045.3693)");
    assert!(r.remediation.is_none());
}

#[test]
fn os_branding_rewritten_at_22000() {
    let r = os_check::check(Ok(info("22631", "23H2", "Windows 10 Pro", None)));
    assert_eq!(r.status, CheckStatus::Pass);
    assert_eq!(r.message, "Windows 11 Pro 23H2 (Build 22631)");
}

#[test]
fn os_branding_kept_below_22000() {
    let r = os_check::check(Ok(info("19044", "21H2", "Windows 10 Home", None)));
    assert_eq!(r.message, "Windows 10 Home 21H2 (Build 19044)");
}

#[test]
fn os_old_build_warns() {
    let r = os_check::check(Ok(info("10240", "", "Windows 10 Pro", None)));
    assert_eq!(r.status, CheckStatus::Warning);
    assert_eq!(r.message, "Windows 10 Pro (Build 10240) - consider updating");
    assert!(r.remediation.unwrap().contains("Windows Update"));
}

#[test]
fn os_ancient_build_fails() {
    let r = os_check::check(Ok(info("9600", "", "Windows 8.1", Some(1))));
    assert_eq!(r.status, CheckStatus::Fail);
    assert_eq!(r.message, "Unsupported OS: Windows 8.1 (Build 9600.1)");
}

#[test]
fn os_malformed_build_reads_as_zero_and_fails() {
    let r = os_check::check(Ok(info("build?", "", "Windows", None)));
    assert_eq!(r.status, CheckStatus::Fail);
    assert_eq!(r.message, "Unsupported OS: Windows (Build build?)");
}

#[test]
fn os_unreadable_version_fails() {
    let r = os_check::check(Err("RegOpenKeyExW failed: 5".to_string()));
    assert_eq!(r.status, CheckStatus::Fail);
    assert_eq!(r.message, "Could not read OS version: RegOpenKeyExW failed: 5");
    assert_eq!(r.remediation.as_deref(), Some("Ensure you are running Windows 10 or 11."));
}

#[test]
fn os_display_string_variants() {
    assert_eq!(
        os_check::get_os_display_string(Ok(info("22000", "21H2", "Windows 10 Pro", Some(51)))),
        "Windows 11 Pro 21H2 (Build 22000.51)"
    );
    assert_eq!(
        os_check::get_os_display_string(Ok(info("19045", "", "Windows 10 Pro", None))),
        "Windows 10 Pro (Build 19045)"
    );
    assert_eq!(
        os_check::get_os_display_string(Err("nope".to_string())),
        "Windows (version unknown)"
    );
}

#[test]
fn os_unsupported_variant() {
    let r = os_check::check_unsupported();
    assert_eq!(r.status, CheckStatus::Fail);
    assert_eq!(r.message, "Not running on Windows");
    assert_eq!(r.remediation.as_deref(), Some("This tool must be run on Windows 10 or 11."));
}

#[test]
fn parse_u32_grammar() {
    assert_eq!(text::parse_u32("19045"), 19045);
    assert_eq!(text::parse_u32("0"), 0);
    assert_eq!(text::parse_u32("+123"), 123);
    assert_eq!(text::parse_u32(""), 0);
    assert_eq!(text::parse_u32("+"), 0);
    assert_eq!(text::parse_u32("12a"), 0);
    assert_eq!(text::parse_u32("-5"), 0);
    assert_eq!(text::parse_u32(" 7"), 0);
    assert_eq!(text::parse_u32("4294967295"), u32::MAX);
    assert_eq!(text::parse_u32("4294967296"), 0);
    assert_eq!(text::parse_u32("99999999999999999999"), 0);
    assert_eq!(text::parse_u32("007"), 7);
    // Mirrors the standard library's reading wherever that reading succeeds.
    assert_eq!(text::parse_u32("19045"), "19045".parse::<u32>().unwrap());
}

#[test]
fn u32_to_string_renders_decimal() {
    assert_eq!(text::u32_to_string(0), "0");
    assert_eq!(text::u32_to_string(7), "7");
    assert_eq!(text::u32_to_string(10), "10");
    assert_eq!(text::u32_to_string(19045), "19045");
    assert_eq!(text::u32_to_string(u32::MAX), "4294967295");
}

#[test]
fn replace_all_rewrites_each_occurrence() {
    assert_eq!(text::replace_all("Windows 10 Pro", "Windows 10", "Windows 11"), "Windows 11 Pro");
    assert_eq!(text::replace_all("no match here", "Windows 10", "Windows 11"), "no match here");
    assert_eq!(text::replace_all("ababab", "ab", "x"), "xxx");
    assert_eq!(text::replace_all("aaa", "aa", "b"), "ba");
    assert_eq!(text::replace_all("", "aa", "b"), "");
    // Mirrors the standard library's replace.
    assert_eq!(
        text::replace_all("Windows 10 on Windows 10", "Windows 10", "Windows 11"),
        "Windows 10 on Windows 10".replace("Windows 10", "Windows 11")
    );
}

#[test]
fn substring_search() {
    assert!(text::contains_substring("Microsoft.Office.OneNote", "OneNote"));
    assert!(!text::contains_substring("Microsoft.Office.ONENOTE", "OneNote"));
    assert!(text::contains_substring("abc", ""));
    assert!(!text::contains_substring("ab", "abc"));
    assert!(text::contains_substring_ci("JOPLIN Desktop", "joplin"));
    assert!(text::contains_substring_ci("onenote", "ONENOTE"));
    assert!(!text::contains_substring_ci("jopin", "joplin"));
}

#[test]
fn str_eq_compares_contents() {
    assert!(text::str_eq("16.0", "16.0"));
    assert!(!text::str_eq("16.0", "15.0"));
    assert!(!text::str_eq("16.0", "16.00"));
    assert!(text::str_eq("", ""));
}

#[test]
fn trimmed_segment_cuts_and_trims() {
    assert_eq!(text::trimmed_segment("  a b  ", 0, 7), "a b");
    assert_eq!(text::trimmed_segment("x,  y ,z", 2, 6), "y");
    assert_eq!(text::trimmed_segment("   ", 0, 3), "");
    assert_eq!(text::trimmed_segment("abc", 1, 1), "");
}
