//! A platform window as the bootstrapper sees it.

use vstd::prelude::*;

verus! {

/// The identifier under which the host registers the window that the
/// startup hook must focus.
pub open spec fn main_window_label() -> Seq<char> {
    "main"@
}

/// One window of the host's registry, reduced to what the bootstrapper
/// reads and writes: the label it is registered under, whether a focus
/// request has been issued to it, and how the host answers such a request.
pub struct Window {
    /// The identifier the host registered the window under.
    pub label: String,
    /// True once the bootstrapper has asked the host to focus this window.
    pub focus_requested: bool,
    /// The host's answer to a focus request; the bootstrapper discards it.
    pub grants_focus: bool,
}

impl Window {
    /// A window fresh from the host: registered under `label`, with no
    /// focus request issued yet.
    pub fn new(label: String, grants_focus: bool) -> (w: Window)
        ensures
            w.label == label,
            !w.focus_requested,
            w.grants_focus == grants_focus,
    {
        Window { label, focus_requested: false, grants_focus }
    }

    /// True of the one window the startup hook must focus.
    pub open spec fn is_main(self) -> bool {
        self.label@ == main_window_label()
    }

    /// How the startup hook leaves one window: a focus request is recorded
    /// on the main window, and every other field stays as it was.
    pub open spec fn after_hook(self) -> Window {
        Window {
            label: self.label,
            focus_requested: self.focus_requested || self.is_main(),
            grants_focus: self.grants_focus,
        }
    }
}

} // verus!
