//! The confirmation dialog: a question with a yes and a no button.

use crate::keys::KeyCode;
use crate::layout::{lined_up, Constraint, Direction, Layout, Rect};
use vstd::prelude::*;

verus! {

broadcast use vstd::string::group_string_axioms;

/// A button of the dialog.
#[derive(Clone, Copy, Debug, PartialEq, Eq, Structural, Hash)]
pub enum Button {
    Yes,
    No,
}

/// The dialog.
#[derive(Debug)]
pub struct Input {
    pub title: String,
    pub input: String,
    pub selected_button: Option<Button>,
    pub visible: bool,
}

/// The mathematical value of an [`Input`].
pub struct InputView {
    pub title: Seq<char>,
    pub input: Seq<char>,
    pub selected_button: Option<Button>,
    pub visible: bool,
}

impl View for Input {
    type V = InputView;

    open spec fn view(&self) -> InputView {
        InputView {
            title: self.title@,
            input: self.input@,
            selected_button: self.selected_button,
            visible: self.visible,
        }
    }
}

/// What a key does to the dialog: its state after the key, and the button
/// that the key confirmed.
pub open spec fn handle_key_spec(d: InputView, key: KeyCode) -> (InputView, Option<Button>) {
    match key {
        KeyCode::Left => (InputView { selected_button: Some(Button::Yes), ..d }, None),
        KeyCode::Right => (InputView { selected_button: Some(Button::No), ..d }, None),
        KeyCode::Enter => match d.selected_button {
            Some(b) => (InputView { visible: false, ..d }, Some(b)),
            None => (d, None),
        },
        KeyCode::Esc => (InputView { visible: false, ..d }, None),
        KeyCode::Char(c) => if c == 'p' {
            (InputView { visible: true, ..d }, None)
        } else {
            (d, None)
        },
        _ => (d, None),
    }
}

impl Input {
    /// A hidden dialog with the yes button selected.
    pub fn new(title: &str) -> (d: Input)
        ensures
            d@ == (InputView {
                title: title@,
                input: Seq::empty(),
                selected_button: Some(Button::Yes),
                visible: false,
            }),
    {
        Input {
            title: title.to_string(),
            input: String::new(),
            visible: false,
            selected_button: Some(Button::Yes),
        }
    }

    /// Applies a key to the dialog and returns the button that it confirmed.
    ///
    /// Left and right select a button, enter confirms the selected button
    /// and closes the dialog, escape closes it, `p` opens it.
    pub fn handle_key(&mut self, key: KeyCode) -> (confirmed: Option<Button>)
        ensures
            (final(self)@, confirmed) == handle_key_spec(old(self)@, key),
    {
        match key {
            KeyCode::Left => {
                self.selected_button = Some(Button::Yes);
                None
            },
            KeyCode::Right => {
                self.selected_button = Some(Button::No);
                None
            },
            KeyCode::Enter => match self.selected_button {
                Some(b) => {
                    self.dismiss();
                    Some(b)
                },
                None => None,
            },
            KeyCode::Esc => {
                self.dismiss();
                None
            },
            KeyCode::Char(c) => {
                if c == 'p' {
                    self.show();
                }
                None
            },
            _ => None,
        }
    }

    /// Opens the dialog.
    pub fn show(&mut self)
        ensures
            final(self)@ == (InputView { visible: true, ..old(self)@ }),
    {
        self.visible = true;
    }

    /// Closes the dialog.
    pub fn dismiss(&mut self)
        ensures
            final(self)@ == (InputView { visible: false, ..old(self)@ }),
    {
        self.visible = false;
    }
}

/// The parts of the dialog inside its border: the row of the text, the row
/// of the buttons, and in it the two buttons.
#[derive(Clone, Copy, Debug, PartialEq, Eq, Structural, Hash)]
pub struct DialogRegions {
    pub text: Rect,
    pub buttons: Rect,
    pub yes: Rect,
    pub no: Rect,
}

/// What is asked of the solver for the rows of the dialog: three rows for
/// the text, one for the buttons, inside a margin of one cell.
pub open spec fn rows_asked() -> Seq<Constraint> {
    seq![Constraint::Length(3), Constraint::Length(1)]
}

/// What is asked of the solver for the buttons: half of the row each.
pub open spec fn buttons_asked() -> Seq<Constraint> {
    seq![Constraint::Percentage(50), Constraint::Percentage(50)]
}

/// The request for the rows of the dialog.
pub fn rows_request() -> (l: Layout)
    ensures
        l.direction == Direction::Vertical,
        l.margin == 1,
        l.constraints@ == rows_asked(),
{
    let constraints = vec![Constraint::Length(3), Constraint::Length(1)];
    assert(constraints@ =~= rows_asked());
    Layout::vertical(constraints).margin(1)
}

/// The request for the buttons of the dialog.
pub fn buttons_request() -> (l: Layout)
    ensures
        l.direction == Direction::Horizontal,
        l.margin == 0,
        l.constraints@ == buttons_asked(),
{
    let constraints = vec![Constraint::Percentage(50), Constraint::Percentage(50)];
    assert(constraints@ =~= buttons_asked());
    Layout::horizontal(constraints)
}

impl DialogRegions {
    /// Whether the rows lie in order within the dialog's area less its
    /// margin, and the buttons in order within their row.
    pub open spec fn fits_in(self, area: Rect) -> bool {
        &&& lined_up(Direction::Vertical, seq![self.text, self.buttons], area.inner_spec(1))
        &&& lined_up(Direction::Horizontal, seq![self.yes, self.no], self.buttons)
    }
}

impl Input {
    /// The parts of the dialog in `area`, as the solver answers
    /// [`rows_request`] and [`buttons_request`]. They are handed out only if
    /// they lie in order within the area; room may be left below the
    /// buttons.
    pub fn regions(area: Rect) -> (r: Option<DialogRegions>)
        ensures
            r matches Some(parts) ==> parts.fits_in(area),
    {
        let rows = match rows_request().split_within(area) {
            Some(rows) => rows,
            None => {
                return None;
            },
        };
        let buttons = rows[1];
        let pair = match buttons_request().split_within(buttons) {
            Some(pair) => pair,
            None => {
                return None;
            },
        };
        let parts = DialogRegions { text: rows[0], buttons, yes: pair[0], no: pair[1] };
        proof {
            assert(buttons.inner_spec(0) == buttons);
            assert(rows@ =~= seq![parts.text, parts.buttons]);
            assert(pair@ =~= seq![parts.yes, parts.no]);
        }
        Some(parts)
    }
}

} // verus!
