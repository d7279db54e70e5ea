//! The header pane.

use super::Pane;
use crate::tui::ui::widget_params::{plain, Alignment, Color, WidgetParams, WidgetParamsView};
use crate::tui::ui::UI;
use vstd::prelude::*;

verus! {

broadcast use vstd::string::group_string_axioms;

/// The pane that shows the name of the application.
#[derive(Clone, Copy, Debug, PartialEq, Eq, Structural)]
pub struct HeaderPane {}

/// How the header is drawn: the name of the application, centred, in
/// yellow.
pub open spec fn header_spec() -> WidgetParamsView {
    WidgetParamsView { color: Color::Yellow, alignment: Alignment::Center, ..plain("NEVIRALLER"@) }
}

impl Pane for HeaderPane {
    fn widget(&self, ui: &UI) -> (p: WidgetParams)
        ensures
            p@ == header_spec(),
    {
        WidgetParams::new("NEVIRALLER".to_string()).with_color(Color::Yellow).with_alignment(
            Alignment::Center,
        )
    }
}

} // verus!
