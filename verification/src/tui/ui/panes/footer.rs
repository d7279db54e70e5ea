//! The footer pane.

use super::Pane;
use crate::tui::keymaps::{format_spec, labelled_pairs, Pairs};
use crate::tui::ui::widget_params::{
    plain, Alignment, Borders, Color, Modifier, WidgetParams, WidgetParamsView,
};
use crate::tui::ui::UI;
use vstd::prelude::*;

verus! {

/// The pane that lists the key bindings.
#[derive(Clone, Copy, Debug, PartialEq, Eq, Structural)]
pub struct FooterPane {}

/// How the footer is drawn: the list of the bindings, centred, without
/// border, in dark gray italics.
pub open spec fn footer_spec(bindings: Pairs) -> WidgetParamsView {
    WidgetParamsView {
        borders: Borders { bits: 0 },
        color: Color::DarkGray,
        modifier: Modifier { bits: 0b0100 },
        alignment: Alignment::Center,
        ..plain(format_spec(labelled_pairs(bindings)))
    }
}

impl Pane for FooterPane {
    fn widget(&self, ui: &UI) -> (p: WidgetParams)
        ensures
            p@ == footer_spec(ui@.key_bindings),
    {
        let formatted_bindings = ui.key_bindings.format_bindings();
        WidgetParams::new(formatted_bindings).with_borders(Borders::none()).with_color(
            Color::DarkGray,
        )._with_modifier(Modifier::italic()).with_alignment(Alignment::Center)
    }
}

} // verus!
