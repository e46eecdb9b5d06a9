use vstd::prelude::*;

verus! {

/// Screen recording permission status.
#[derive(Debug, Clone, Copy, PartialEq, Eq, Structural)]
pub enum PermissionStatus {
    /// Permission has been granted.
    Granted,
    /// Permission has been denied or not yet requested.
    Denied,
}

impl PermissionStatus {
    /// The status that an answer of the system's screen-capture access check
    /// amounts to.
    pub fn from_access(granted: bool) -> (s: Self)
        ensures
            s == (if granted {
                PermissionStatus::Granted
            } else {
                PermissionStatus::Denied
            }),
    {
        if granted {
            PermissionStatus::Granted
        } else {
            PermissionStatus::Denied
        }
    }
}

} // verus!
