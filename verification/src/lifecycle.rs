//! Secondary windows (the terminal windows): what closing one does to its
//! component instance, and whether opening one reuses that instance.

use vstd::prelude::*;

verus! {

/// What closing a secondary window does.
#[derive(Clone, Copy, Debug, PartialEq, Eq, Structural)]
pub enum CloseBehavior {
    /// Hide the window and keep its component (and its state) for the next
    /// `open`.
    Hide,
    /// Hide the window and release its component.
    Destroy,
}

/// What `open` does.
#[derive(Clone, Copy, Debug, PartialEq, Eq, Structural)]
pub enum OpenPlan {
    /// Show the kept component again.
    ShowExisting,
    /// Create, set up and show a new component.
    CreateNew,
}

/// What `open` does, given the close behaviour and whether a component is
/// held: a kept component is shown again in `Hide` mode; otherwise a new one
/// is created.
pub fn open_plan(behavior: CloseBehavior, has_instance: bool) -> (p: OpenPlan)
    ensures
        p == (if behavior == CloseBehavior::Hide && has_instance {
            OpenPlan::ShowExisting
        } else {
            OpenPlan::CreateNew
        }),
{
    match behavior {
        CloseBehavior::Hide => if has_instance {
            OpenPlan::ShowExisting
        } else {
            OpenPlan::CreateNew
        },
        CloseBehavior::Destroy => OpenPlan::CreateNew,
    }
}

/// Whether a component is still held after the window is closed: only in
/// `Hide` mode, and only if one was held.
pub fn instance_after_close(behavior: CloseBehavior, has_instance: bool) -> (kept: bool)
    ensures
        kept == (behavior == CloseBehavior::Hide && has_instance),
{
    match behavior {
        CloseBehavior::Hide => has_instance,
        CloseBehavior::Destroy => false,
    }
}

/// The model of `open_plan`.
pub open spec fn spec_open_plan(behavior: CloseBehavior, has_instance: bool) -> OpenPlan {
    if behavior == CloseBehavior::Hide && has_instance {
        OpenPlan::ShowExisting
    } else {
        OpenPlan::CreateNew
    }
}

/// The model of `instance_after_close`.
pub open spec fn spec_instance_after_close(behavior: CloseBehavior, has_instance: bool) -> bool {
    behavior == CloseBehavior::Hide && has_instance
}

/// Opening a window always leaves a component held (a new one is stored
/// once created, or the kept one is shown); so after open, close and open
/// again, `Hide` reuses the component and `Destroy` creates a fresh one.
pub proof fn lemma_reopen_after_close(behavior: CloseBehavior)
    ensures
        spec_open_plan(behavior, spec_instance_after_close(behavior, true)) == (if behavior
            == CloseBehavior::Hide {
            OpenPlan::ShowExisting
        } else {
            OpenPlan::CreateNew
        }),
{
}

/// `Destroy` never reuses a component, whatever is held.
pub proof fn lemma_destroy_never_reuses(has_instance: bool)
    ensures
        spec_open_plan(CloseBehavior::Destroy, has_instance) == OpenPlan::CreateNew,
        !spec_instance_after_close(CloseBehavior::Destroy, has_instance),
{
}

} // verus!
