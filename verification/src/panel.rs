//! The panel lifecycle state machine.
//!
//! The controller owns the singleton panel's state: whether the window has
//! already been promoted into a floating, borderless, non-activating panel
//! (a lazy, at-most-once conversion), and whether it is currently visible.
//! Every operation returns a [`PanelAction`], the one window-manager effect
//! the caller must now perform; the controller itself touches no
//! operating-system state, so each transition is verified exactly.

use vstd::prelude::*;

verus! {

/// Whether the panel is currently shown on screen.
#[derive(PartialEq, Eq, Structural, Clone, Copy, Debug)]
pub enum Visibility {
    Hidden,
    Visible,
}

/// The window-manager effect that the caller must perform after an operation.
#[derive(PartialEq, Eq, Structural, Clone, Copy, Debug)]
pub enum PanelAction {
    /// Nothing to do: the operation was a no-op beyond the state check.
    DoNothing,
    /// The window has not been promoted into a panel yet: attempt the
    /// conversion, report its outcome through
    /// [`PanelController::complete_promotion`], and retry the operation on
    /// success.
    PromoteFirst,
    /// Order the window manager to hide the panel (the window object is
    /// retained, not destroyed).
    HideWindow,
    /// Order the window manager to re-center the panel on the monitor under
    /// the pointer, make it visible, and give it key (input-focus) status.
    ShowWindow,
}

/// The visibility that one toggle produces from the given one.
pub open spec fn toggled(v: Visibility) -> Visibility {
    if v is Visible {
        Visibility::Hidden
    } else {
        Visibility::Visible
    }
}

/// The visibility after `n` toggles of a promoted panel that starts hidden.
pub open spec fn vis_after_toggles(n: nat) -> Visibility
    decreases n,
{
    if n == 0 {
        Visibility::Hidden
    } else {
        toggled(vis_after_toggles((n - 1) as nat))
    }
}

/// Starting from `Hidden`, the visibility after any number of toggles is
/// `Visible` exactly when that number is odd.
pub proof fn lemma_toggle_parity(n: nat)
    ensures
        vis_after_toggles(n) == if n % 2 == 1 {
            Visibility::Visible
        } else {
            Visibility::Hidden
        },
    decreases n,
{
    if n > 0 {
        lemma_toggle_parity((n - 1) as nat);
    }
}

/// The singleton panel's lifecycle state: initially hidden and not yet
/// promoted. Only the operations below mutate it.
#[derive(PartialEq, Eq, Structural, Clone, Copy, Debug)]
pub struct PanelController {
    visibility: Visibility,
    promoted: bool,
}

impl PanelController {
    /// Current visibility.
    pub closed spec fn vis(self) -> Visibility {
        self.visibility
    }

    /// Whether the window has already been converted into a panel.
    pub closed spec fn is_promoted(self) -> bool {
        self.promoted
    }

    /// The state after a promotion attempt with the given outcome: the flag
    /// is set on success and never cleared, visibility is untouched.
    pub closed spec fn with_promotion(self, success: bool) -> PanelController {
        PanelController { promoted: self.promoted || success, ..self }
    }

    /// The controller's invariant: a window that was never promoted into a
    /// panel has never been shown, so it is still hidden.
    pub closed spec fn inv(self) -> bool {
        !self.promoted ==> self.visibility is Hidden
    }

    /// A fresh controller: hidden, window not yet promoted.
    pub fn new() -> (c: PanelController)
        ensures
            c.vis() is Hidden,
            !c.is_promoted(),
            c.inv(),
    {
        PanelController { visibility: Visibility::Hidden, promoted: false }
    }

    /// Whether the panel is currently visible; read before every toggle
    /// decision.
    pub fn is_visible(&self) -> (b: bool)
        ensures
            b == (self.vis() is Visible),
    {
        matches!(self.visibility, Visibility::Visible)
    }

    /// Whether the window must still be promoted before it can be shown or
    /// hidden. The conversion itself is a window-manager call made by the
    /// caller, who reports its outcome through [`Self::complete_promotion`].
    pub fn needs_promotion(&self) -> (b: bool)
        ensures
            b == !self.is_promoted(),
    {
        !self.promoted
    }

    /// Record the outcome of a promotion attempt. A failure changes nothing,
    /// so a later invocation retries the conversion from scratch; a success
    /// is permanent for the life of the process.
    pub fn complete_promotion(&mut self, success: bool)
        ensures
            old(self).inv() ==> final(self).inv(),
            *final(self) == old(self).with_promotion(success),
            final(self).vis() == old(self).vis(),
            final(self).is_promoted() == (old(self).is_promoted() || success),
    {
        if success {
            self.promoted = true;
        }
    }

    /// One toggle invocation. On an unpromoted window nothing changes and
    /// the caller is told to promote first; otherwise the visibility flips
    /// and the matching window-manager effect is returned.
    pub fn toggle(&mut self) -> (a: PanelAction)
        ensures
            old(self).inv() ==> final(self).inv(),
            final(self).is_promoted() == old(self).is_promoted(),
            !old(self).is_promoted() ==> *final(self) == *old(self) && a is PromoteFirst,
            old(self).is_promoted() ==> {
                &&& final(self).vis() == toggled(old(self).vis())
                &&& a == if old(self).vis() is Visible {
                    PanelAction::HideWindow
                } else {
                    PanelAction::ShowWindow
                }
            },
    {
        if !self.promoted {
            PanelAction::PromoteFirst
        } else if matches!(self.visibility, Visibility::Visible) {
            self.visibility = Visibility::Hidden;
            PanelAction::HideWindow
        } else {
            self.visibility = Visibility::Visible;
            PanelAction::ShowWindow
        }
    }

    /// Force the panel visible. Even when it is already visible the returned
    /// effect re-centers the window, so the origin is recomputed rather than
    /// stale; on an unpromoted window nothing changes and the caller is told
    /// to promote first.
    pub fn show(&mut self) -> (a: PanelAction)
        ensures
            old(self).inv() ==> final(self).inv(),
            final(self).is_promoted() == old(self).is_promoted(),
            !old(self).is_promoted() ==> *final(self) == *old(self) && a is PromoteFirst,
            old(self).is_promoted() ==> final(self).vis() is Visible && a is ShowWindow,
    {
        if !self.promoted {
            PanelAction::PromoteFirst
        } else {
            self.visibility = Visibility::Visible;
            PanelAction::ShowWindow
        }
    }

    /// Force the panel hidden. On an already-hidden panel this is a no-op
    /// beyond the state check; on an unpromoted window nothing changes and
    /// the caller is told to promote first.
    pub fn hide_panel(&mut self) -> (a: PanelAction)
        ensures
            old(self).inv() ==> final(self).inv(),
            final(self).is_promoted() == old(self).is_promoted(),
            !old(self).is_promoted() ==> *final(self) == *old(self) && a is PromoteFirst,
            old(self).is_promoted() ==> {
                &&& final(self).vis() is Hidden
                &&& a == if old(self).vis() is Visible {
                    PanelAction::HideWindow
                } else {
                    PanelAction::DoNothing
                }
            },
    {
        if !self.promoted {
            PanelAction::PromoteFirst
        } else if matches!(self.visibility, Visibility::Visible) {
            self.visibility = Visibility::Hidden;
            PanelAction::HideWindow
        } else {
            PanelAction::DoNothing
        }
    }

    /// Finish a toggle that was answered with [`PanelAction::PromoteFirst`]:
    /// record the promotion outcome, then, on success, perform the toggle
    /// that was held up. On failure the controller is exactly as before, so
    /// the next invocation retries promotion; no state is poisoned.
    pub fn resume_toggle_after_promotion(&mut self, success: bool) -> (a: PanelAction)
        ensures
            old(self).inv() ==> final(self).inv(),
            !success ==> *final(self) == *old(self) && a is DoNothing,
            success ==> {
                &&& final(self).is_promoted()
                &&& final(self).vis() == toggled(old(self).vis())
                &&& a == if old(self).vis() is Visible {
                    PanelAction::HideWindow
                } else {
                    PanelAction::ShowWindow
                }
            },
    {
        self.complete_promotion(success);
        if success {
            self.toggle()
        } else {
            PanelAction::DoNothing
        }
    }
}

/// Promotion is idempotent: recording a successful conversion twice in a row
/// leaves the controller exactly as recording it once does, so there is one
/// panel identity and no duplicate window.
pub proof fn lemma_promotion_idempotent(c: PanelController)
    ensures
        c.with_promotion(true).with_promotion(true) == c.with_promotion(true),
{
}

} // verus!
