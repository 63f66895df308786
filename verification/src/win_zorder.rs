//! Window stacking level chosen from the palette: always on top, always on
//! bottom, or normal.

use vstd::prelude::*;

use crate::text::str_eq;

verus! {

#[derive(Debug, Clone, Copy, PartialEq, Eq, Structural)]
pub enum WindowZOrder {
    Normal,
    AlwaysOnTop,
    AlwaysOnBottom,
}

impl WindowZOrder {
    pub open spec fn spec_from_palette_id(id: Seq<char>) -> Option<WindowZOrder> {
        if id == "SetWindowLevel.Normal"@ {
            Some(WindowZOrder::Normal)
        } else if id == "SetWindowLevel.AlwaysOnTop"@ {
            Some(WindowZOrder::AlwaysOnTop)
        } else if id == "SetWindowLevel.AlwaysOnBottom"@ {
            Some(WindowZOrder::AlwaysOnBottom)
        } else {
            None
        }
    }

    /// The level named by a `SetWindowLevel.*` palette id.
    pub fn from_palette_id(id: &str) -> (r: Option<WindowZOrder>)
        ensures
            r == Self::spec_from_palette_id(id@),
    {
        if str_eq(id, "SetWindowLevel.Normal") {
            Some(WindowZOrder::Normal)
        } else if str_eq(id, "SetWindowLevel.AlwaysOnTop") {
            Some(WindowZOrder::AlwaysOnTop)
        } else if str_eq(id, "SetWindowLevel.AlwaysOnBottom") {
            Some(WindowZOrder::AlwaysOnBottom)
        } else {
            None
        }
    }

    pub open spec fn spec_toggle_top(self) -> WindowZOrder {
        match self {
            WindowZOrder::AlwaysOnTop => WindowZOrder::Normal,
            WindowZOrder::AlwaysOnBottom | WindowZOrder::Normal => WindowZOrder::AlwaysOnTop,
        }
    }

    pub open spec fn spec_toggle_bottom(self) -> WindowZOrder {
        match self {
            WindowZOrder::AlwaysOnBottom => WindowZOrder::Normal,
            WindowZOrder::AlwaysOnTop | WindowZOrder::Normal => WindowZOrder::AlwaysOnBottom,
        }
    }

    /// Always-on-top toggles back to normal; any other level goes on top.
    pub fn toggle_top(self) -> (r: WindowZOrder)
        ensures
            r == self.spec_toggle_top(),
    {
        match self {
            WindowZOrder::AlwaysOnTop => WindowZOrder::Normal,
            WindowZOrder::AlwaysOnBottom | WindowZOrder::Normal => WindowZOrder::AlwaysOnTop,
        }
    }

    /// Always-on-bottom toggles back to normal; any other level goes to the
    /// bottom.
    pub fn toggle_bottom(self) -> (r: WindowZOrder)
        ensures
            r == self.spec_toggle_bottom(),
    {
        match self {
            WindowZOrder::AlwaysOnBottom => WindowZOrder::Normal,
            WindowZOrder::AlwaysOnTop | WindowZOrder::Normal => WindowZOrder::AlwaysOnBottom,
        }
    }
}

/// Toggling on top twice from a level that is not on the bottom comes back
/// to it; the same holds for the bottom; either toggle always leaves the
/// level it names or enters it.
pub proof fn lemma_toggles(z: WindowZOrder)
    ensures
        z != WindowZOrder::AlwaysOnBottom ==> z.spec_toggle_top().spec_toggle_top() == z,
        z != WindowZOrder::AlwaysOnTop ==> z.spec_toggle_bottom().spec_toggle_bottom() == z,
        (z.spec_toggle_top() == WindowZOrder::AlwaysOnTop) != (z == WindowZOrder::AlwaysOnTop),
        (z.spec_toggle_bottom() == WindowZOrder::AlwaysOnBottom) != (z == WindowZOrder::AlwaysOnBottom),
{
}

} // verus!
