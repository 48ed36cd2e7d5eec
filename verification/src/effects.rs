//! Backdrop and shadow decisions: when the UI turns its background
//! transparent to show the DWM material, and the frame margins that restore
//! the shadow of a borderless window.

use vstd::prelude::*;

verus! {

/// What `apply_mica_effect` does for a window.
#[derive(Clone, Copy, Debug, PartialEq, Eq, Structural)]
pub enum MicaOutcome {
    /// The hook injected the DWM material: make the UI background
    /// transparent.
    Activate,
    /// The system has no Mica (before Windows 11): keep the solid background.
    UnsupportedSystem,
    /// The hook was not installed, so no material was injected: keep the
    /// solid background.
    HookInactive,
}

/// The Mica decision for a window, from whether the creation hook will
/// inject the DWM attributes and whether the system is Windows 11. The UI
/// turns transparent only when both hold.
pub fn mica_outcome(hook_will_handle: bool, win11: bool) -> (o: MicaOutcome)
    ensures
        o == (if !hook_will_handle {
            MicaOutcome::HookInactive
        } else if !win11 {
            MicaOutcome::UnsupportedSystem
        } else {
            MicaOutcome::Activate
        }),
        (o == MicaOutcome::Activate) == (hook_will_handle && win11),
{
    if hook_will_handle {
        if !win11 {
            return MicaOutcome::UnsupportedSystem;
        }
        return MicaOutcome::Activate;
    }
    MicaOutcome::HookInactive
}

/// Frame margins for `DwmExtendFrameIntoClientArea`.
#[derive(Clone, Copy, Debug, PartialEq, Eq, Structural)]
pub struct Margins {
    pub left: i32,
    pub right: i32,
    pub top: i32,
    pub bottom: i32,
}

/// The margins that bring back the drop shadow of a borderless window on
/// systems before Windows 11 (one pixel at the bottom), or `None` on
/// Windows 11, whose borderless windows keep their shadow.
pub fn shadow_fix_margins(win11: bool) -> (m: Option<Margins>)
    ensures
        m == (if win11 {
            None
        } else {
            Some(Margins { left: 0, right: 0, top: 0, bottom: 1 })
        }),
{
    if win11 {
        None
    } else {
        Some(Margins { left: 0, right: 0, top: 0, bottom: 1 })
    }
}

} // verus!
