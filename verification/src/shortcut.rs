//! The global-shortcut dispatcher: one fixed key binding, registered once
//! with the operating system, and the filter that turns its raw key events
//! into panel toggles.
//!
//! A raw event qualifies only when it carries this process's registered
//! binding and the "pressed" transition; "released" and repeat deliveries are
//! ignored, so one physical press produces exactly one toggle. Registration
//! can fail (the binding may be claimed by another process); the dispatcher
//! then stays inert for the life of the process while the rest of the
//! application keeps running.

use vstd::prelude::*;

use crate::panel::PanelAction;
use crate::panel::PanelController;
use crate::panel::toggled;

verus! {

/// The modifier keys held during a key event, or demanded by a binding.
#[derive(PartialEq, Eq, Structural, Clone, Copy, Debug)]
pub struct ModifierKeys {
    /// The platform's primary command modifier.
    pub super_key: bool,
    pub shift: bool,
    pub alt: bool,
    pub control: bool,
}

/// Which transition of the physical key an event reports.
#[derive(PartialEq, Eq, Structural, Clone, Copy, Debug)]
pub enum KeyPhase {
    Pressed,
    Released,
}

/// One global key combination: a modifier set plus a key code.
#[derive(PartialEq, Eq, Structural, Clone, Copy, Debug)]
pub struct ShortcutBinding {
    pub modifiers: ModifierKeys,
    pub code: u32,
}

/// A shortcut event as the operating system delivers it: the combination
/// that fired and the phase of the key transition.
#[derive(PartialEq, Eq, Structural, Clone, Copy, Debug)]
pub struct ShortcutEvent {
    pub modifiers: ModifierKeys,
    pub code: u32,
    pub phase: KeyPhase,
}

/// The key code of the `;` key in this library's key-code space.
pub const SEMICOLON_CODE: u32 = 0x33;

/// The one fixed binding this application registers: primary modifier plus
/// shift plus the `;` key.
pub fn default_binding() -> (b: ShortcutBinding)
    ensures
        b.modifiers == (ModifierKeys { super_key: true, shift: true, alt: false, control: false }),
        b.code == SEMICOLON_CODE,
{
    ShortcutBinding {
        modifiers: ModifierKeys { super_key: true, shift: true, alt: false, control: false },
        code: SEMICOLON_CODE,
    }
}

/// Whether a delivered event qualifies to drive the panel: it must report
/// the "pressed" transition of exactly the registered combination.
pub open spec fn event_fires(binding: ShortcutBinding, event: ShortcutEvent) -> bool {
    &&& event.phase is Pressed
    &&& event.modifiers == binding.modifiers
    &&& event.code == binding.code
}

/// The registered binding and whether the one-time registration with the
/// operating system succeeded.
pub struct ShortcutDispatcher {
    binding: ShortcutBinding,
    registered: bool,
}

impl ShortcutDispatcher {
    /// The binding this dispatcher filters for.
    pub closed spec fn binding(self) -> ShortcutBinding {
        self.binding
    }

    /// Whether the binding was successfully registered with the OS.
    pub closed spec fn is_registered(self) -> bool {
        self.registered
    }

    /// A dispatcher for the given binding, before registration.
    pub fn new(binding: ShortcutBinding) -> (d: ShortcutDispatcher)
        ensures
            d.binding() == binding,
            !d.is_registered(),
    {
        ShortcutDispatcher { binding, registered: false }
    }

    /// Record the outcome of the one-time registration attempt made at
    /// startup. On failure the dispatcher stays inert — the failure is
    /// reported once and never retried — while the command surface keeps
    /// working.
    pub fn complete_registration(&mut self, success: bool)
        ensures
            final(self).binding() == old(self).binding(),
            final(self).is_registered() == success,
    {
        self.registered = success;
    }

    /// Whether a delivered event must toggle the panel: the registration
    /// succeeded, the event carries this dispatcher's binding, and the key
    /// was pressed (not released or repeated).
    pub fn should_toggle(&self, event: &ShortcutEvent) -> (b: bool)
        ensures
            b == (self.is_registered() && event_fires(self.binding(), *event)),
    {
        self.registered && matches!(event.phase, KeyPhase::Pressed)
            && event.modifiers == self.binding.modifiers && event.code == self.binding.code
    }

    /// Handle one OS-delivered shortcut event: a qualifying press toggles
    /// the panel, anything else — a released key, a foreign combination, or
    /// an unregistered dispatcher — leaves the controller untouched. In
    /// particular, events whose phase is "released" never change visibility.
    pub fn handle_event(&self, controller: &mut PanelController, event: &ShortcutEvent) -> (a:
        PanelAction)
        ensures
            !(self.is_registered() && event_fires(self.binding(), *event)) ==> *final(controller)
                == *old(controller) && a is DoNothing,
            event.phase is Released ==> *final(controller) == *old(controller) && a is DoNothing,
            !self.is_registered() ==> *final(controller) == *old(controller) && a is DoNothing,
            self.is_registered() && event_fires(self.binding(), *event) ==> {
                &&& final(controller).is_promoted() == old(controller).is_promoted()
                &&& !old(controller).is_promoted() ==> *final(controller) == *old(controller)
                    && a is PromoteFirst
                &&& old(controller).is_promoted() ==> {
                    &&& final(controller).vis() == toggled(old(controller).vis())
                    &&& a == if old(controller).vis() is Visible {
                        PanelAction::HideWindow
                    } else {
                        PanelAction::ShowWindow
                    }
                }
            },
    {
        if self.should_toggle(event) {
            controller.toggle()
        } else {
            PanelAction::DoNothing
        }
    }
}

} // verus!
