//! The window's hidden/open state machine. Actually hiding or activating
//! the system window is the shell's work; the decisions — when a window
//! counts as open and whether opening must activate it — are verified here.

use vstd::prelude::*;

verus! {

/// Whether the application window is currently hidden.
pub struct Window {
    pub hidden: bool,
}

impl Window {
    /// A freshly created window is visible.
    pub fn init() -> (r: Window)
        ensures
            !r.hidden,
    {
        Window { hidden: false }
    }

    /// A window is open exactly when it is not hidden.
    pub fn is_open(&self) -> (r: bool)
        ensures
            r == !self.hidden,
    {
        !self.hidden
    }

    /// Open the window. The system window needs activating exactly when it
    /// was hidden; afterwards it never counts as hidden.
    pub fn open(&mut self) -> (activate: bool)
        ensures
            !final(self).hidden,
            activate == old(self).hidden,
    {
        let activate = self.hidden;
        self.hidden = false;
        activate
    }

    /// Close the window: it hides, whatever it was.
    pub fn close(&mut self)
        ensures
            final(self).hidden,
    {
        self.hidden = true;
    }
}

} // verus!
