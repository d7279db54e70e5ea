//! The menu of the single-screen front end: a list of named entries with a
//! selection that wraps around.

use vstd::prelude::*;

verus! {

broadcast use vstd::string::group_string_axioms;

/// What choosing a menu entry asks for.
#[derive(Clone, Copy, Debug, PartialEq, Eq, Structural, Hash)]
pub enum MenuAction {
    InstallNeovimNightly,
    CheckForUpdates,
    CheckDependencies,
    Quit,
}

/// One entry of the menu.
#[derive(Debug)]
pub struct MenuItem {
    pub name: String,
    pub action: MenuAction,
}

/// The names and actions of the standard entries, in order.
pub open spec fn menu_items_spec() -> Seq<(Seq<char>, MenuAction)> {
    seq![
        ("Install Neovim Nightly"@, MenuAction::InstallNeovimNightly),
        ("Check for updates"@, MenuAction::CheckForUpdates),
        ("Dependencies"@, MenuAction::CheckDependencies),
        ("Quit"@, MenuAction::Quit),
    ]
}

/// The name and action of each entry, in order.
pub open spec fn entries(items: Seq<MenuItem>) -> Seq<(Seq<char>, MenuAction)> {
    items.map_values(|item: MenuItem| (item.name@, item.action))
}

/// The standard entries of the menu.
pub fn get_menu_items() -> (items: Vec<MenuItem>)
    ensures
        entries(items@) == menu_items_spec(),
{
    let items = vec![
        MenuItem {
            name: "Install Neovim Nightly".to_string(),
            action: MenuAction::InstallNeovimNightly,
        },
        MenuItem { name: "Check for updates".to_string(), action: MenuAction::CheckForUpdates },
        MenuItem { name: "Dependencies".to_string(), action: MenuAction::CheckDependencies },
        MenuItem { name: "Quit".to_string(), action: MenuAction::Quit },
    ];
    assert(entries(items@) =~= menu_items_spec());
    items
}

/// A list of entries, one of which may be selected.
pub struct Menu {
    items: Vec<MenuItem>,
    selected: Option<usize>,
}

/// The entry that is selected after a step forward from `selected` in a menu
/// of `len` entries: the next one, or the first after the last.
pub open spec fn next_index(selected: Option<usize>, len: nat) -> nat {
    match selected {
        Some(s) => if s + 1 >= len {
            0
        } else {
            (s + 1) as nat
        },
        None => 0,
    }
}

/// The entry that is selected after a step back from `selected` in a menu
/// of `len` entries: the one before, or the last before the first.
pub open spec fn previous_index(selected: Option<usize>, len: nat) -> nat {
    match selected {
        Some(s) => if s == 0 {
            if len == 0 {
                0
            } else {
                (len - 1) as nat
            }
        } else {
            (s - 1) as nat
        },
        None => 0,
    }
}

impl Menu {
    /// The entries of the menu.
    pub closed spec fn items(&self) -> Seq<MenuItem> {
        self.items@
    }

    /// The index of the selected entry.
    pub closed spec fn spec_selected(&self) -> Option<usize> {
        self.selected
    }

    /// A menu of `items` with the first entry selected.
    pub fn new(items: Vec<MenuItem>) -> (m: Menu)
        ensures
            m.items() == items@,
            m.spec_selected() == Some(0usize),
    {
        Menu { items, selected: Some(0) }
    }

    /// Moves the selection one entry forward; after the last entry comes the
    /// first.
    pub fn next(&mut self)
        ensures
            final(self).items() == old(self).items(),
            final(self).spec_selected() matches Some(s) && s == next_index(
                old(self).spec_selected(),
                old(self).items().len(),
            ),
    {
        let next_index: usize = match self.selected {
            Some(selected) => {
                if selected >= self.items.len().saturating_sub(1) {
                    0
                } else {
                    selected + 1
                }
            },
            None => 0,
        };
        self.selected = Some(next_index);
    }

    /// Moves the selection one entry back; before the first entry comes the
    /// last.
    pub fn previous(&mut self)
        ensures
            final(self).items() == old(self).items(),
            final(self).spec_selected() matches Some(s) && s == previous_index(
                old(self).spec_selected(),
                old(self).items().len(),
            ),
    {
        let prev_index: usize = match self.selected {
            Some(selected) => {
                if selected == 0 {
                    self.items.len().saturating_sub(1)
                } else {
                    selected - 1
                }
            },
            None => 0,
        };
        self.selected = Some(prev_index);
    }

    /// The index that [`Menu::select`] reads: the selected one, or the first
    /// where none is selected.
    pub open spec fn chosen(&self) -> int {
        match self.spec_selected() {
            Some(s) => s as int,
            None => 0,
        }
    }

    /// The action of the selected entry.
    pub fn select(&self) -> (a: MenuAction)
        requires
            self.chosen() < self.items().len(),
        ensures
            a == self.items()[self.chosen()].action,
    {
        let index: usize = match self.selected {
            Some(s) => s,
            None => 0,
        };
        self.items[index].action
    }

    /// The action of the selected entry, or `None` where the selection
    /// points at no entry.
    pub fn try_select(&self) -> (a: Option<MenuAction>)
        ensures
            a == (if self.chosen() < self.items().len() {
                Some(self.items()[self.chosen()].action)
            } else {
                None
            }),
    {
        let index: usize = match self.selected {
            Some(s) => s,
            None => 0,
        };
        if index < self.items.len() {
            Some(self.select())
        } else {
            None
        }
    }

    /// The index of the selected entry.
    #[verifier::when_used_as_spec(spec_selected)]
    pub fn selected(&self) -> (r: Option<usize>)
        ensures
            r == self.spec_selected(),
    {
        self.selected
    }

    /// The number of entries.
    pub fn len(&self) -> (n: usize)
        ensures
            n == self.items().len(),
    {
        self.items.len()
    }

    /// The name of entry `index`, or `None` past the last entry.
    pub fn name(&self, index: usize) -> (r: Option<&str>)
        ensures
            match r {
                Some(name) => index < self.items().len() && name@ == self.items()[index as int].name@,
                None => index >= self.items().len(),
            },
    {
        if index < self.items.len() {
            Some(self.items[index].name.as_str())
        } else {
            None
        }
    }
}

} // verus!
