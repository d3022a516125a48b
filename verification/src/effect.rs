//! Follow-up requests that a transition hands back to the host runtime.
//! The core performs no I/O itself: creating and destroying surfaces,
//! focusing the input field, spawning processes and switching workspaces
//! are all done by the host, in the order the effects are returned.

use vstd::prelude::*;

use crate::bar::WorkspaceIdentifier;

verus! {

/// One request to the host runtime.
#[derive(Debug)]
pub enum Effect {
    /// Create the overlay surface with this id, configured for exclusive
    /// keyboard interactivity, all-edge anchoring and topmost layering.
    CreateOverlay(u64),
    /// Destroy the overlay surface with this id.
    DestroyOverlay(u64),
    /// Give the overlay's text-input field logical focus.
    FocusInput,
    /// Spawn this shell command, fire-and-forget.
    Spawn(String),
    /// Switch the active workspace.
    SetWorkspace(WorkspaceIdentifier),
}

} // verus!
