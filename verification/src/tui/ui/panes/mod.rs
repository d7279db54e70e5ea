//! The panes of the single screen.

use crate::tui::ui::widget_params::WidgetParams;
use crate::tui::ui::UI;
use vstd::prelude::*;

pub mod footer;
pub mod header;
pub mod menu;

verus! {

/// A part of the screen that says how its text is to be drawn.
pub trait Pane {
    /// The text of the pane and its look.
    fn widget(&self, ui: &UI) -> WidgetParams;
}

} // verus!
