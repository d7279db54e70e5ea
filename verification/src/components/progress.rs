//! The progress indicator of a running installation.

use crate::action::Action;
use vstd::prelude::*;

verus! {

/// The progress of the running work, in percent, and whether the indicator
/// is shown.
#[derive(Clone, Copy, Debug, PartialEq, Eq, Structural)]
pub struct ProgressBar {
    pub percent: u8,
    pub visible: bool,
}

impl Default for ProgressBar {
    fn default() -> (p: ProgressBar)
        ensures
            p == (ProgressBar { percent: 0, visible: false }),
    {
        ProgressBar::new()
    }
}

/// Whether the indicator is shown at `percent`: while the work has begun and
/// is not complete.
pub open spec fn shown_at(percent: u8) -> bool {
    0 < percent < 100
}

impl ProgressBar {
    /// An indicator without progress, hidden.
    pub fn new() -> (p: ProgressBar)
        ensures
            p == (ProgressBar { percent: 0, visible: false }),
    {
        ProgressBar { percent: 0, visible: false }
    }

    /// Records the progress and returns the request to draw it.
    pub fn update_progress(&mut self, percent: u8) -> (emitted: Action)
        ensures
            final(self).percent == percent,
            final(self).visible == shown_at(percent),
            emitted == Action::Render,
    {
        self.percent = percent;
        self.visible = percent > 0 && percent < 100;
        Action::Render
    }
}

} // verus!
