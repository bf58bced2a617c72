//! The package-manager backend's entry points that need no system access.
use vstd::prelude::*;
use crate::util::duration_text;

verus! {

/// The pacman backend.
#[derive(Clone, Copy, Debug)]
pub struct FetchPacmanStats;

impl FetchPacmanStats {
    /// The mirror health placeholder this backend reports.
    pub fn get_mirror_health(&self) -> (r: Option<String>)
        ensures
            r matches Some(s) && s@ == "test"@,
    {
        Some("test".to_owned())
    }
}

/// The backend's mirror health report.
pub fn test_mirror_health() -> (r: Option<String>)
    ensures
        r matches Some(s) && s@ == "test"@,
{
    let backend = FetchPacmanStats;
    backend.get_mirror_health()
}

/// Seconds since the last update, as text.
pub fn normalize_duration(seconds: i64) -> (r: String)
    ensures
        r@ == duration_text(seconds as int),
{
    crate::util::normalize_duration(seconds)
}

} // verus!
