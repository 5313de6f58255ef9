//! Core logic of a global-hotkey-activated floating utility panel.
//!
//! A single always-available window is toggled visible or hidden by one
//! system-wide keyboard shortcut. When shown, the panel repositions itself to
//! the monitor containing the current pointer and takes input focus; when
//! hidden, it yields focus without being destroyed, so the next invocation is
//! instantaneous.
//!
//! This crate holds the decision logic only: the panel lifecycle state
//! machine, the shortcut-event filter, and the placement arithmetic. The
//! operating-system calls that the decisions drive (window lookup, panel
//! promotion, hiding, showing, focusing) are performed by an unverified shell
//! around this library, which feeds their outcomes back in as plain values.

use vstd::prelude::*;

mod geometry;
mod panel;
mod shortcut;

pub use geometry::{center_in, monitor_for_pointer, placement_at_pointer, Dimensions, Point, Rect};
pub use panel::{PanelAction, PanelController, Visibility};
pub use shortcut::{
    default_binding, KeyPhase, ModifierKeys, ShortcutBinding, ShortcutDispatcher, ShortcutEvent,
    SEMICOLON_CODE,
};

verus! {

/// The fixed, process-wide label under which the singleton panel window is
/// registered; the layer that constructs the window must use the same label.
pub const KEYCAST_LABEL: &'static str = "main";

} // verus!
