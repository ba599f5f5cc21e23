//! Whether a newer release exists.

use vstd::prelude::*;

verus! {

/// The version of this release.
pub const CURRENT_VERSION: &'static str = "0.1.0";

/// The outcome of a check for a newer release.
#[derive(Debug, Clone)]
pub struct UpdateInfo {
    pub available: bool,
    pub latest_version: String,
    pub current_version: String,
}

/// Checks for a newer release.
pub struct UpdateChecker;

impl UpdateChecker {
    pub fn new() -> (checker: Self) {
        UpdateChecker
    }

    /// Reports on the latest release. Checking is switched off: no update is
    /// ever available and the latest version is reported as unknown.
    pub fn check_update(&self) -> (info: UpdateInfo)
        ensures
            !info.available,
            info.latest_version@ == "unknown"@,
            info.current_version@ == CURRENT_VERSION@,
    {
        UpdateInfo {
            available: false,
            latest_version: "unknown".to_owned(),
            current_version: CURRENT_VERSION.to_owned(),
        }
    }
}

} // verus!
