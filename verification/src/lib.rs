//! Pre-migration environment readiness diagnostic.
//!
//! The library probes facts about a host machine — which target applications
//! are installed, whether they are reachable for automation, the operating
//! system build, and a few sync-related configuration flags — and merges the
//! individual findings into one overall readiness verdict with user-facing
//! remediation guidance.
//!
//! All decision logic lives here as verified functions over plain values:
//! callers run the platform's probes (registry reads, path checks, automation
//! handshakes) and hand the raw outcomes in; the detectors merge them into
//! one [`types::CheckResult`] per target, and the orchestrator rolls those up
//! into a [`types::ScanResult`].

pub mod com_check;
pub mod joplin_check;
pub mod onenote_check;
pub mod os_check;
pub mod registry;
pub mod scan;
pub mod sync_check;
pub mod text;
pub mod types;
pub mod word_check;
