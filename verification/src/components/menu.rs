//! The navigation menu: a list of entries with a selection that stops at
//! both ends.

use crate::action::{Action, ActionView};
use crate::keys::{Key, KeyCode};
use crate::text::{same_text, texts};
use vstd::prelude::*;
use vstd::string::StringExecFns;

verus! {

broadcast use vstd::string::group_string_axioms;

/// The menu.
#[derive(Debug)]
pub struct Menu {
    menu_items: Vec<String>,
    selected_index: usize,
}

/// The mathematical value of a [`Menu`].
pub struct MenuView {
    pub items: Seq<Seq<char>>,
    pub selected: usize,
}

impl View for Menu {
    type V = MenuView;

    closed spec fn view(&self) -> MenuView {
        MenuView { items: texts(self.menu_items@), selected: self.selected_index }
    }
}

/// The texts of the standard entries.
pub open spec fn default_items_spec() -> Seq<Seq<char>> {
    seq!["Install Neovim"@, "Install NEVIRAIDE"@, "Check Dependencies"@, "Quit"@]
}

/// The action that choosing the entry called `name` asks for.
pub open spec fn item_action(name: Seq<char>) -> ActionView {
    if name == "Install Neovim"@ {
        ActionView::InstallNeovimNightly
    } else if name == "Install NEVIRAIDE"@ {
        ActionView::InstallNeviraide
    } else if name == "Check Dependencies"@ {
        ActionView::CheckDeps
    } else if name == "Quit"@ {
        ActionView::Quit
    } else {
        ActionView::Error("Unknown menu item: "@ + name)
    }
}

/// The menu after a step back: the selection moves up unless it is at the
/// first entry.
pub open spec fn stepped_back(m: MenuView) -> MenuView {
    if m.selected > 0 {
        MenuView { selected: (m.selected - 1) as usize, ..m }
    } else {
        m
    }
}

/// The menu after a step forward: the selection moves down unless it is at
/// the last entry.
pub open spec fn stepped_forward(m: MenuView) -> MenuView {
    if m.selected + 1 < m.items.len() {
        MenuView { selected: (m.selected + 1) as usize, ..m }
    } else {
        m
    }
}

/// The action that choosing the selected entry asks for; none where the
/// selection points at no entry.
pub open spec fn chosen(m: MenuView) -> Option<ActionView> {
    if m.selected < m.items.len() {
        Some(item_action(m.items[m.selected as int]))
    } else {
        None
    }
}

/// What an action does to the menu: the menu after it, and the action that
/// the menu emits.
pub open spec fn update_spec(m: MenuView, action: ActionView) -> (MenuView, Option<ActionView>) {
    match action {
        ActionView::Prev => (stepped_back(m), None),
        ActionView::Next => (stepped_forward(m), None),
        ActionView::Select => (m, chosen(m)),
        _ => (m, None),
    }
}

/// What a key does to the menu: the menu after it, and the action that the
/// menu emits.
pub open spec fn handle_key_spec(m: MenuView, code: KeyCode) -> (MenuView, Option<ActionView>) {
    match code {
        KeyCode::Up => (stepped_back(m), None),
        KeyCode::Down => (stepped_forward(m), None),
        KeyCode::Enter => (m, Some(ActionView::Select)),
        _ => (m, None),
    }
}

/// The standard entries of the menu.
pub fn default_menu_items() -> (items: Vec<String>)
    ensures
        texts(items@) == default_items_spec(),
{
    let items = vec![
        "Install Neovim".to_string(),
        "Install NEVIRAIDE".to_string(),
        "Check Dependencies".to_string(),
        "Quit".to_string(),
    ];
    assert(texts(items@) =~= default_items_spec());
    items
}

/// The action that choosing the entry called `name` asks for.
pub fn action_for(name: &str) -> (a: Action)
    ensures
        a@ == item_action(name@),
{
    if same_text(name, "Install Neovim") {
        Action::InstallNeovimNightly
    } else if same_text(name, "Install NEVIRAIDE") {
        Action::InstallNeviraide
    } else if same_text(name, "Check Dependencies") {
        Action::CheckDeps
    } else if same_text(name, "Quit") {
        Action::Quit
    } else {
        let message = "Unknown menu item: ".to_string().concat(name);
        Action::Error(message)
    }
}

impl Menu {
    /// A menu of `menu_items` with the first entry selected.
    pub fn new(menu_items: Vec<String>) -> (m: Menu)
        ensures
            m@ == (MenuView { items: texts(menu_items@), selected: 0 }),
    {
        Menu { menu_items, selected_index: 0 }
    }

    /// The index of the selected entry.
    pub fn selected_index(&self) -> (r: usize)
        ensures
            r == self@.selected,
    {
        self.selected_index
    }

    /// The number of entries.
    pub fn len(&self) -> (n: usize)
        ensures
            n == self@.items.len(),
    {
        self.menu_items.len()
    }

    /// The text of entry `index`, or `None` past the last entry.
    pub fn item(&self, index: usize) -> (r: Option<&str>)
        ensures
            match r {
                Some(name) => index < self@.items.len() && name@ == self@.items[index as int],
                None => index >= self@.items.len(),
            },
    {
        if index < self.menu_items.len() {
            Some(self.menu_items[index].as_str())
        } else {
            None
        }
    }

    fn step_back(&mut self)
        ensures
            final(self)@ == stepped_back(old(self)@),
    {
        if self.selected_index > 0 {
            self.selected_index -= 1;
        }
    }

    fn step_forward(&mut self)
        ensures
            final(self)@ == stepped_forward(old(self)@),
    {
        if self.selected_index < self.menu_items.len().saturating_sub(1) {
            self.selected_index += 1;
        }
    }

    /// Applies a key to the menu: up and down move the selection, enter asks
    /// for the selected entry to be chosen.
    pub fn handle_key_events(&mut self, key: Key) -> (emitted: Option<Action>)
        ensures
            final(self)@ == handle_key_spec(old(self)@, key.spec_code()).0,
            crate::state::view_of(emitted) == handle_key_spec(old(self)@, key.spec_code()).1,
    {
        match key.code() {
            KeyCode::Up => {
                self.step_back();
                None
            },
            KeyCode::Down => {
                self.step_forward();
                None
            },
            KeyCode::Enter => Some(Action::Select),
            _ => None,
        }
    }

    /// Applies an action to the menu.
    ///
    /// `Prev` and `Next` move the selection, `Select` emits the action of
    /// the selected entry; every other action leaves the menu as it is.
    pub fn update(&mut self, action: Action) -> (emitted: Option<Action>)
        ensures
            final(self)@ == update_spec(old(self)@, action@).0,
            crate::state::view_of(emitted) == update_spec(old(self)@, action@).1,
    {
        match action {
            Action::Prev => {
                self.step_back();
                None
            },
            Action::Next => {
                self.step_forward();
                None
            },
            Action::Select => {
                if self.selected_index < self.menu_items.len() {
                    Some(action_for(self.menu_items[self.selected_index].as_str()))
                } else {
                    None
                }
            },
            _ => None,
        }
    }
}

} // verus!
