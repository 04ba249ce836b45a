//! The host's window registry, reduced to plain values: windows looked up
//! by label, and focus requests recorded on them.

use vstd::prelude::*;

use crate::window::Window;

verus! {

/// Labels identify windows: no two windows of the registry share one.
pub open spec fn unique_labels(ws: Seq<Window>) -> bool {
    forall|i: int, j: int|
        0 <= i < ws.len() && 0 <= j < ws.len() && i != j ==> ws[i].label@ != ws[j].label@
}

/// The window registry owned by the application host. The bootstrapper
/// looks windows up by label and delegates focus requests to the host.
pub struct WindowRegistry {
    pub windows: Vec<Window>,
}

impl WindowRegistry {
    /// Well-formedness: the host registers each window under its own label.
    pub open spec fn wf(self) -> bool {
        unique_labels(self.windows@)
    }

    /// True when some window is registered under `label`.
    pub open spec fn contains_label(self, label: Seq<char>) -> bool {
        exists|i: int| 0 <= i < self.windows@.len() && self.windows@[i].label@ == label
    }

    /// An empty registry, as it stands before the host creates its windows.
    pub fn new() -> (r: WindowRegistry)
        ensures
            r.windows@ == Seq::<Window>::empty(),
            r.wf(),
    {
        WindowRegistry { windows: Vec::new() }
    }

    /// Registers one more window. A window whose label is already taken is
    /// refused and the registry is left as it was.
    pub fn add_window(&mut self, window: Window) -> (added: bool)
        requires
            old(self).wf(),
        ensures
            final(self).wf(),
            added == !old(self).contains_label(window.label@),
            added ==> final(self).windows@ == old(self).windows@.push(window),
            !added ==> *final(self) == *old(self),
    {
        let taken = self.lookup(&window.label);
        match taken {
            Some(i) => {
                proof {
                    assert(old(self).windows@[i as int].label@ == window.label@);
                }
                false
            },
            None => {
                self.windows.push(window);
                proof {
                    let pre = old(self).windows@;
                    let ws = self.windows@;
                    assert forall|i: int, j: int|
                        0 <= i < ws.len() && 0 <= j < ws.len() && i != j implies ws[i].label@
                        != ws[j].label@ by {
                        if i < pre.len() && j < pre.len() {
                            assert(pre[i].label@ != pre[j].label@);
                        } else if i == pre.len() {
                            assert(ws[j] == pre[j]);
                            assert(pre[j].label@ != window.label@);
                        } else {
                            assert(ws[i] == pre[i]);
                            assert(pre[i].label@ != window.label@);
                        }
                    }
                }
                true
            },
        }
    }

    /// Resolves a label to the index of the window registered under it.
    pub fn lookup(&self, label: &String) -> (r: Option<usize>)
        ensures
            match r {
                Some(i) => i < self.windows@.len() && self.windows@[i as int].label@ == label@,
                None => !self.contains_label(label@),
            },
    {
        let n = self.windows.len();
        let mut j: usize = 0;
        while j < n
            invariant
                n == self.windows@.len(),
                j <= n,
                forall|k: int| 0 <= k < j ==> self.windows@[k].label@ != label@,
            decreases n - j,
        {
            if self.windows[j].label.eq(label) {
                return Some(j);
            }
            j = j + 1;
        }
        None
    }

    /// Issues a focus request to the window at index `i`: the request is
    /// recorded on the window, and the host's answer is handed back.
    pub fn request_focus(&mut self, i: usize) -> (granted: bool)
        requires
            i < old(self).windows@.len(),
        ensures
            granted == old(self).windows@[i as int].grants_focus,
            final(self).windows@ == old(self).windows@.update(
                i as int,
                Window {
                    label: old(self).windows@[i as int].label,
                    focus_requested: true,
                    grants_focus: old(self).windows@[i as int].grants_focus,
                },
            ),
    {
        self.windows[i].focus_requested = true;
        self.windows[i].grants_focus
    }
}

} // verus!
