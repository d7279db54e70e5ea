//! What the single-screen front end shows: a message area, and the panes
//! for header, menu and footer.

use crate::tui::keymaps::{KeyBindings, Pairs};
use vstd::prelude::*;
use vstd::string::StringExecFns;
use widget_params::{plain, Alignment, Borders, Color, WidgetParams, WidgetParamsView};

pub mod panes;
pub mod widget_params;

verus! {

broadcast use vstd::string::group_string_axioms;

/// What the front end shows beside the menu.
#[derive(Debug)]
pub struct UI {
    pub update_message: String,
    pub show_update_message: bool,
    pub key_bindings: KeyBindings,
}

/// The mathematical value of a [`UI`].
pub struct UiView {
    pub update_message: Seq<char>,
    pub show_update_message: bool,
    pub key_bindings: Pairs,
}

impl View for UI {
    type V = UiView;

    open spec fn view(&self) -> UiView {
        UiView {
            update_message: self.update_message@,
            show_update_message: self.show_update_message,
            key_bindings: self.key_bindings@,
        }
    }
}

impl Clone for UI {
    fn clone(&self) -> (ui: UI)
        ensures
            ui@ == self@,
    {
        UI {
            update_message: self.update_message.clone(),
            show_update_message: self.show_update_message,
            key_bindings: self.key_bindings.clone(),
        }
    }
}

/// The messages after `message` was added: alone where there was none, else
/// on a new line behind those that were there.
pub open spec fn with_message(messages: Seq<char>, message: Seq<char>) -> Seq<char> {
    if messages.len() == 0 {
        message
    } else {
        messages + seq!['\n'] + message
    }
}

/// How the additional information is drawn: aligned left, with a border on
/// every side, under the title "Additional Info", in white.
pub open spec fn additional_info_spec(text: Seq<char>) -> WidgetParamsView {
    WidgetParamsView { title: Some("Additional Info"@), ..plain(text) }
}

impl UI {
    /// A message area that holds `update_message` and does not show it.
    pub fn new(update_message: String, key_bindings: KeyBindings) -> (ui: UI)
        ensures
            ui@ == (UiView {
                update_message: update_message@,
                show_update_message: false,
                key_bindings: key_bindings@,
            }),
    {
        UI { update_message, show_update_message: false, key_bindings }
    }

    /// Adds `message` to the messages and shows them.
    pub fn set_update_message(&mut self, message: String)
        ensures
            final(self)@ == (UiView {
                update_message: with_message(old(self)@.update_message, message@),
                show_update_message: true,
                ..old(self)@
            }),
    {
        if self.update_message.as_str().unicode_len() == 0 {
            assert(self.update_message@ =~= Seq::<char>::empty());
            self.update_message = message;
        } else {
            proof {
                reveal_strlit("\n");
                assert("\n"@ =~= seq!['\n']);
            }
            self.update_message.append("\n");
            self.update_message.append(message.as_str());
        }
        self.show_update_message = true;
    }

    /// Stops showing the messages.
    pub fn _clear_update_message(&mut self)
        ensures
            final(self)@ == (UiView { show_update_message: false, ..old(self)@ }),
    {
        self.show_update_message = false;
    }

    /// How `info_text` is drawn as additional information.
    pub fn additional_info(&self, info_text: &str) -> (p: WidgetParams)
        ensures
            p@ == additional_info_spec(info_text@),
    {
        WidgetParams::new(info_text.to_string()).with_borders(Borders::all()).with_title(
            "Additional Info".to_string(),
        ).with_color(Color::White).with_alignment(Alignment::Left)
    }
}

} // verus!
