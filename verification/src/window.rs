//! How the main window is placed among the other windows.

use vstd::prelude::*;
use crate::settings::Settings;

verus! {

/// Where the main window stands among the others.
#[derive(Debug, Clone, Copy, PartialEq, Eq, Structural)]
pub struct WindowFlags {
    /// The window stays above the others.
    pub always_on_top: bool,
    /// The window has no entry in the task bar.
    pub skip_taskbar: bool,
}

/// The flags that the settings ask for. A window that hides itself stays on
/// top and out of the task bar; one that does not stays on top only where the
/// settings say so. Without settings the window does both.
pub open spec fn flags_for(loaded: Option<Settings>) -> WindowFlags {
    match loaded {
        Some(s) => WindowFlags {
            always_on_top: s.auto_hide_window || s.always_on_top,
            skip_taskbar: s.auto_hide_window,
        },
        None => WindowFlags { always_on_top: true, skip_taskbar: true },
    }
}

/// The flags to create the main window with.
pub fn window_flags(loaded: Option<&Settings>) -> (flags: WindowFlags)
    ensures
        flags == flags_for(
            match loaded {
                Some(s) => Some(*s),
                None => None,
            },
        ),
{
    match loaded {
        Some(s) => WindowFlags {
            always_on_top: s.auto_hide_window || s.always_on_top,
            skip_taskbar: s.auto_hide_window,
        },
        None => WindowFlags { always_on_top: true, skip_taskbar: true },
    }
}

} // verus!
