//! Per-window rendering bookkeeping owned by the registry's client: whether
//! the window needs to be redrawn, and which tessellation method it draws
//! with. The GPU-side data built from these choices lives outside the
//! library, keyed by the same window.

use vstd::prelude::*;

use crate::in_utils::TessMethod;

verus! {

/// The client-side state of one window: a redraw request flag and the
/// currently selected tessellation method.
pub struct WinData {
    redraw: bool,
    demo: TessMethod,
}

impl WinData {
    /// Whether the window has asked to be redrawn.
    pub closed spec fn spec_need_redraw(self) -> bool {
        self.redraw
    }

    /// The tessellation method the window currently draws with.
    pub closed spec fn spec_mode(self) -> TessMethod {
        self.demo
    }

    /// A fresh window starts with no pending redraw, drawing directly.
    pub fn new() -> (d: WinData)
        ensures
            !d.spec_need_redraw(),
            d.spec_mode() == TessMethod::Direct,
    {
        WinData { redraw: false, demo: TessMethod::Direct }
    }

    /// Request a redraw.
    pub fn toggle(&mut self)
        ensures
            final(self).spec_need_redraw(),
            final(self).spec_mode() == old(self).spec_mode(),
    {
        self.redraw = true;
    }

    /// Whether a redraw is pending.
    pub fn need_redraw(&self) -> (b: bool)
        ensures
            b == self.spec_need_redraw(),
    {
        self.redraw
    }

    /// Acknowledge that the window has been redrawn.
    pub fn redrawed(&mut self)
        ensures
            !final(self).spec_need_redraw(),
            final(self).spec_mode() == old(self).spec_mode(),
    {
        self.redraw = false;
    }

    /// The currently selected tessellation method.
    pub fn get_mode(&self) -> (m: TessMethod)
        ensures
            m == self.spec_mode(),
    {
        self.demo
    }

    /// Advance to the next tessellation method in the cycle.
    pub fn next_mode(&mut self)
        ensures
            final(self).spec_mode() == TessMethod::spec_toggle(old(self).spec_mode()),
            final(self).spec_need_redraw() == old(self).spec_need_redraw(),
    {
        self.demo = self.demo.toggle();
    }
}

} // verus!
