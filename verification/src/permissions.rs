//! Permission checks on platforms without a permission model for dictation: accessibility
//! and the microphone are always available.

use vstd::prelude::*;

verus! {

/// Whether the app may record from the microphone.
#[derive(Clone, Copy, Debug, PartialEq, Eq, Structural)]
pub enum MicrophonePermission {
    Authorized,
    Denied,
}

/// Accessibility access is always granted here.
pub fn check_accessibility_permission() -> (r: bool)
    ensures
        r,
{
    true
}

/// There is nothing to prompt for here.
pub fn prompt_accessibility_permission() {
}

/// Microphone access is always granted here.
pub fn check_microphone_permission() -> (r: MicrophonePermission)
    ensures
        r == MicrophonePermission::Authorized,
{
    MicrophonePermission::Authorized
}

} // verus!
