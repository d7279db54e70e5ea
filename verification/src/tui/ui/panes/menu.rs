//! The pane that holds the menu and the main content side by side.

use super::Pane;
use crate::layout::{tiles, Constraint, Direction, Layout, Rect};
use crate::tui::ui::widget_params::{plain, Color, WidgetParams, WidgetParamsView};
use crate::tui::ui::UI;
use vstd::prelude::*;

verus! {

broadcast use vstd::string::group_string_axioms;

/// The pane of the menu and the main content.
#[derive(Clone, Copy, Debug, PartialEq, Eq, Structural)]
pub struct MenuPane {}

/// How the main content is drawn: under the title "Content", in white.
pub open spec fn content_spec() -> WidgetParamsView {
    WidgetParamsView {
        title: Some("Content"@),
        ..plain("Here is the main content of the application"@)
    }
}

impl Pane for MenuPane {
    fn widget(&self, ui: &UI) -> (p: WidgetParams)
        ensures
            p@ == content_spec(),
    {
        WidgetParams::new("Here is the main content of the application".to_string()).with_title(
            "Content".to_string(),
        ).with_color(Color::White)
    }
}

/// What is asked of the solver for the columns of the pane: thirty parts
/// in a hundred for the menu, seventy for the content.
pub open spec fn columns_asked() -> Seq<Constraint> {
    seq![Constraint::Percentage(30), Constraint::Percentage(70)]
}

/// The request for the columns of the pane.
pub fn columns_request() -> (l: Layout)
    ensures
        l.direction == Direction::Horizontal,
        l.margin == 0,
        l.constraints@ == columns_asked(),
{
    let constraints = vec![Constraint::Percentage(30), Constraint::Percentage(70)];
    assert(constraints@ =~= columns_asked());
    Layout::horizontal(constraints)
}

impl MenuPane {
    /// The columns of the pane, as the solver answers [`columns_request`]:
    /// the menu's and the content's. They are handed out only if they fill
    /// `area`.
    pub fn columns(&self, area: Rect) -> (r: Option<(Rect, Rect)>)
        ensures
            r matches Some((menu, content)) ==> tiles(
                Direction::Horizontal,
                seq![menu, content],
                area,
            ),
    {
        match columns_request().split(area) {
            Some(columns) => {
                assert(area.inner_spec(0) == area);
                assert(columns@ =~= seq![columns@[0], columns@[1]]);
                Some((columns[0], columns[1]))
            },
            None => None,
        }
    }
}

} // verus!
