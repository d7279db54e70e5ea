//! The single-screen application: a menu, a message area and the four
//! actions that keys can ask for.

use crate::keys::KeyCode;
use crate::layout::{check_tiles, fits, tiles, Constraint, Direction, Layout, Rect};
use crate::tui::ui::panes::menu::columns_request;
use crate::tui::keymaps::KeyBindings;
use crate::tui::menu::{get_menu_items, menu_items_spec, entries, Menu, MenuAction};
use crate::tui::ui::{with_message, UiView, UI};
use vstd::prelude::*;

verus! {

broadcast use vstd::string::group_string_axioms;

/// What a key can ask of the single-screen application.
#[derive(Clone, Copy, Debug, PartialEq, Eq, Structural, Hash)]
pub enum Action {
    Select,
    Next,
    Previous,
    Quit,
}

impl Action {
    /// The name of the action.
    pub open spec fn name_spec(self) -> Seq<char> {
        match self {
            Action::Select => "Select"@,
            Action::Next => "Next"@,
            Action::Previous => "Previous"@,
            Action::Quit => "Quit"@,
        }
    }

    /// The name of the action.
    pub fn name(self) -> (r: &'static str)
        ensures
            r@ == self.name_spec(),
    {
        match self {
            Action::Select => "Select",
            Action::Next => "Next",
            Action::Previous => "Previous",
            Action::Quit => "Quit",
        }
    }
}

/// The action that a key asks for: `j`, `n` and down move on, `k`, `p` and
/// up move back, enter chooses, `q` and escape quit.
pub open spec fn key_action_spec(code: KeyCode) -> Option<Action> {
    match code {
        KeyCode::Char(c) => if c == 'j' || c == 'n' {
            Some(Action::Next)
        } else if c == 'k' || c == 'p' {
            Some(Action::Previous)
        } else if c == 'q' {
            Some(Action::Quit)
        } else {
            None
        },
        KeyCode::Down => Some(Action::Next),
        KeyCode::Up => Some(Action::Previous),
        KeyCode::Enter => Some(Action::Select),
        KeyCode::Esc => Some(Action::Quit),
        _ => None,
    }
}

/// The action that a key asks for.
pub fn key_action(code: KeyCode) -> (r: Option<Action>)
    ensures
        r == key_action_spec(code),
{
    match code {
        KeyCode::Char(c) => {
            if c == 'j' || c == 'n' {
                Some(Action::Next)
            } else if c == 'k' || c == 'p' {
                Some(Action::Previous)
            } else if c == 'q' {
                Some(Action::Quit)
            } else {
                None
            }
        },
        KeyCode::Down => Some(Action::Next),
        KeyCode::Up => Some(Action::Previous),
        KeyCode::Enter => Some(Action::Select),
        KeyCode::Esc => Some(Action::Quit),
        _ => None,
    }
}


/// The single-screen application.
pub struct App {
    menu: Menu,
    ui: UI,
    should_quit: bool,
}

/// The rows of the single screen, and the columns of its main row.
#[derive(Clone, Copy, Debug, PartialEq, Eq, Structural)]
pub struct Regions {
    pub header: Rect,
    pub main: Rect,
    pub menu: Rect,
    pub content: Rect,
    pub info: Rect,
    pub footer: Rect,
}

/// The message that a choice of the menu leaves in the message area; none
/// for the choice to quit.
pub open spec fn message_for(action: MenuAction) -> Option<Seq<char>> {
    match action {
        MenuAction::InstallNeovimNightly => Some("установка обновлений Neovim..."@),
        MenuAction::CheckForUpdates => Some("Проверка доступных обновлений..."@),
        MenuAction::CheckDependencies => Some("Check dependencies..."@),
        MenuAction::Quit => None,
    }
}

impl Regions {
    /// Whether the rows fill `whole` and the columns fill the main row.
    pub open spec fn fills(self, whole: Rect) -> bool {
        &&& tiles(Direction::Vertical, seq![self.header, self.main, self.info, self.footer], whole)
        &&& tiles(Direction::Horizontal, seq![self.menu, self.content], self.main)
    }
}

/// The mathematical value of an [`App`].
pub struct AppView {
    pub items: Seq<crate::tui::menu::MenuItem>,
    pub selected: Option<usize>,
    pub ui: UiView,
    pub should_quit: bool,
}

/// The application after a choice of the menu was carried out: a message
/// was left and is shown, or the application is to end.
pub open spec fn handled(v: AppView, action: MenuAction) -> AppView {
    match message_for(action) {
        Some(message) => AppView {
            ui: UiView {
                update_message: with_message(v.ui.update_message, message),
                show_update_message: true,
                ..v.ui
            },
            ..v
        },
        None => AppView { should_quit: true, ..v },
    }
}

/// The index of the entry that choosing reads.
pub open spec fn chosen(v: AppView) -> int {
    match v.selected {
        Some(s) => s as int,
        None => 0,
    }
}

/// The application after an action: the selection moved, the selected
/// entry's choice carried out, or the application is to end.
pub open spec fn applied(v: AppView, action: Action) -> AppView {
    match action {
        Action::Select => if chosen(v) < v.items.len() {
            handled(v, v.items[chosen(v)].action)
        } else {
            v
        },
        Action::Next => AppView {
            selected: Some(crate::tui::menu::next_index(v.selected, v.items.len()) as usize),
            ..v
        },
        Action::Previous => AppView {
            selected: Some(crate::tui::menu::previous_index(v.selected, v.items.len()) as usize),
            ..v
        },
        Action::Quit => AppView { should_quit: true, ..v },
    }
}

impl View for App {
    type V = AppView;

    closed spec fn view(&self) -> AppView {
        AppView {
            items: self.menu.items(),
            selected: self.menu.spec_selected(),
            ui: self.ui@,
            should_quit: self.should_quit,
        }
    }
}

impl App {
    /// The application at its start: the standard menu with its first entry
    /// selected, and the first message, not yet shown.
    pub fn new() -> (app: App)
        ensures
            entries(app@.items) == menu_items_spec(),
            app@.selected == Some(0usize),
            app@.ui.update_message == "Initial update message"@,
            !app@.ui.show_update_message,
            app@.ui.key_bindings == crate::tui::keymaps::built(
                crate::tui::keymaps::standard_pairs(),
            ),
            !app@.should_quit,
    {
        App {
            menu: Menu::new(get_menu_items()),
            ui: UI::new("Initial update message".to_string(), KeyBindings::new()),
            should_quit: false,
        }
    }

    /// Does what a choice of the menu asks for: leaves a message, or ends
    /// the application.
    pub fn handle_action(&mut self, action: MenuAction)
        ensures
            final(self)@ == handled(old(self)@, action),
    {
        match action {
            MenuAction::InstallNeovimNightly => {
                self.ui.set_update_message("установка обновлений Neovim...".to_string());
            },
            MenuAction::CheckForUpdates => {
                self.ui.set_update_message("Проверка доступных обновлений...".to_string());
            },
            MenuAction::CheckDependencies => {
                self.ui.set_update_message("Check dependencies...".to_string());
            },
            MenuAction::Quit => {
                self.should_quit = true;
            },
        }
    }

    /// Applies one action: moves the selection, does what the selected
    /// entry asks for, or ends the application.
    pub fn apply(&mut self, action: Action)
        ensures
            final(self)@ == applied(old(self)@, action),
    {
        match action {
            Action::Select => {
                match self.menu.try_select() {
                    Some(selected_action) => {
                        self.handle_action(selected_action);
                    },
                    None => {},
                }
            },
            Action::Next => {
                self.menu.next();
            },
            Action::Previous => {
                self.menu.previous();
            },
            Action::Quit => {
                self.should_quit = true;
            },
        }
    }

    /// Whether the application is to end.
    pub fn should_quit(&self) -> (r: bool)
        ensures
            r == self@.should_quit,
    {
        self.should_quit
    }

    /// The menu.
    pub fn menu(&self) -> (r: &Menu)
        ensures
            r.items() == self@.items,
            r.spec_selected() == self@.selected,
    {
        &self.menu
    }

    /// The message area.
    pub fn ui(&self) -> (r: &UI)
        ensures
            r@ == self@.ui,
    {
        &self.ui
    }

    /// The regions of the single screen in a frame of the given size, as
    /// the solver answers [`rows_request`] and the request for the columns
    /// of the menu pane: a header and a footer of three rows, between them
    /// the main row and the row of the additional information, and in the
    /// main row the menu's and the content's columns. They are handed out
    /// only if each split filled its area.
    pub fn regions(size: Rect) -> (r: Option<Regions>)
        ensures
            r matches Some(regions) ==> regions.fills(size),
    {
        let rows = match rows_request().split(size) {
            Some(rows) => rows,
            None => {
                return None;
            },
        };
        let main = rows[1];
        let columns = match columns_request().split(main) {
            Some(columns) => columns,
            None => {
                return None;
            },
        };
        let regions = Regions {
            header: rows[0],
            main,
            menu: columns[0],
            content: columns[1],
            info: rows[2],
            footer: rows[3],
        };
        proof {
            assert(size.inner_spec(0) == size);
            assert(main.inner_spec(0) == main);
            assert(rows@ =~= seq![regions.header, regions.main, regions.info, regions.footer]);
            assert(columns@ =~= seq![regions.menu, regions.content]);
        }
        Some(regions)
    }

    /// The regions of the single screen in a terminal of the given size:
    /// what the solver proposes where that fills the frame, the directly
    /// computed regions otherwise. For every size the regions fill the
    /// frame.
    pub fn screen(width: u16, height: u16) -> (r: Regions)
        ensures
            r.fills(Rect { x: 0, y: 0, width, height }),
    {
        let size = Rect { x: 0, y: 0, width, height };
        settle_regions(App::regions(size), size)
    }
}

/// What is asked of the solver for the rows of the single screen: three
/// rows for the header, half of the frame each for the main row and for the
/// additional information, three rows for the footer.
pub open spec fn rows_asked() -> Seq<Constraint> {
    seq![
        Constraint::Length(3),
        Constraint::Percentage(50),
        Constraint::Percentage(50),
        Constraint::Length(3),
    ]
}

/// The request for the rows of the single screen.
pub fn rows_request() -> (l: Layout)
    ensures
        l.direction == Direction::Vertical,
        l.margin == 0,
        l.constraints@ == rows_asked(),
{
    let constraints = vec![
        Constraint::Length(3),
        Constraint::Percentage(50),
        Constraint::Percentage(50),
        Constraint::Length(3),
    ];
    assert(constraints@ =~= rows_asked());
    Layout::vertical(constraints)
}

/// The regions that are used where the solver offers none that fill the
/// frame: header and footer take up to three rows each, the header first;
/// the main row takes the greater half of what is left and the additional
/// information the rest; the menu takes thirty parts in a hundred of the
/// width.
pub open spec fn direct_spec(whole: Rect) -> Regions {
    let header_h: int = if whole.height >= 3 {
        3
    } else {
        whole.height as int
    };
    let footer_h: int = if whole.height - header_h >= 3 {
        3
    } else {
        whole.height - header_h
    };
    let rest: int = whole.height - header_h - footer_h;
    let info_h: int = rest / 2;
    let main_h: int = rest - info_h;
    let menu_w: int = (whole.width * 30 + 50) / 100;
    let main_y: int = whole.y + header_h;
    Regions {
        header: Rect { x: whole.x, y: whole.y, width: whole.width, height: header_h as u16 },
        main: Rect { x: whole.x, y: main_y as u16, width: whole.width, height: main_h as u16 },
        menu: Rect { x: whole.x, y: main_y as u16, width: menu_w as u16, height: main_h as u16 },
        content: Rect {
            x: (whole.x + menu_w) as u16,
            y: main_y as u16,
            width: (whole.width - menu_w) as u16,
            height: main_h as u16,
        },
        info: Rect {
            x: whole.x,
            y: (main_y + main_h) as u16,
            width: whole.width,
            height: info_h as u16,
        },
        footer: Rect {
            x: whole.x,
            y: (main_y + main_h + info_h) as u16,
            width: whole.width,
            height: footer_h as u16,
        },
    }
}

/// The directly computed regions fill the frame.
pub proof fn lemma_direct_fills(whole: Rect)
    requires
        whole.right() <= u16::MAX,
        whole.bottom() <= u16::MAX,
    ensures
        direct_spec(whole).fills(whole),
{
    let r = direct_spec(whole);
    let rows = seq![r.header, r.main, r.info, r.footer];
    let columns = seq![r.menu, r.content];
    assert forall|i: int| 0 <= i < rows.len() implies #[trigger] fits(
        Direction::Vertical,
        rows,
        whole,
        i,
    ) by {
        if i == 0 {
        } else if i == 1 {
        } else if i == 2 {
        } else {
        }
    }
    assert forall|i: int| 0 <= i < columns.len() implies #[trigger] fits(
        Direction::Horizontal,
        columns,
        r.main,
        i,
    ) by {
        if i == 0 {
        } else {
        }
    }
}

/// Computes the regions that are used where the solver offers none that
/// fill the frame.
pub fn direct(whole: Rect) -> (r: Regions)
    requires
        whole.right() <= u16::MAX,
        whole.bottom() <= u16::MAX,
    ensures
        r == direct_spec(whole),
        r.fills(whole),
{
    let header_h: u16 = if whole.height >= 3 {
        3
    } else {
        whole.height
    };
    let footer_h: u16 = if whole.height - header_h >= 3 {
        3
    } else {
        whole.height - header_h
    };
    let rest: u16 = whole.height - header_h - footer_h;
    let info_h: u16 = rest / 2;
    let main_h: u16 = rest - info_h;
    let scaled: u32 = (whole.width as u32 * 30 + 50) / 100;
    assert(scaled <= whole.width);
    let menu_w: u16 = scaled as u16;
    let main_y: u16 = whole.y + header_h;
    proof {
        lemma_direct_fills(whole);
    }
    Regions {
        header: Rect { x: whole.x, y: whole.y, width: whole.width, height: header_h },
        main: Rect { x: whole.x, y: main_y, width: whole.width, height: main_h },
        menu: Rect { x: whole.x, y: main_y, width: menu_w, height: main_h },
        content: Rect {
            x: whole.x + menu_w,
            y: main_y,
            width: whole.width - menu_w,
            height: main_h,
        },
        info: Rect { x: whole.x, y: main_y + main_h, width: whole.width, height: info_h },
        footer: Rect {
            x: whole.x,
            y: main_y + main_h + info_h,
            width: whole.width,
            height: footer_h,
        },
    }
}

/// The regions for `whole`, given what the solver proposed: the proposal
/// where it fills `whole`, the directly computed regions otherwise.
pub open spec fn settle_regions_spec(proposal: Option<Regions>, whole: Rect) -> Regions {
    match proposal {
        Some(regions) if regions.fills(whole) => regions,
        _ => direct_spec(whole),
    }
}

/// Chooses between the solver's proposal and the directly computed
/// regions.
pub fn settle_regions(proposal: Option<Regions>, whole: Rect) -> (r: Regions)
    requires
        whole.right() <= u16::MAX,
        whole.bottom() <= u16::MAX,
    ensures
        r == settle_regions_spec(proposal, whole),
        r.fills(whole),
{
    match proposal {
        Some(regions) => {
            if regions.check(whole) {
                regions
            } else {
                direct(whole)
            }
        },
        None => direct(whole),
    }
}

impl Regions {
    /// Decides whether the rows fill `whole` and the columns fill the main
    /// row.
    pub fn check(&self, whole: Rect) -> (ok: bool)
        ensures
            ok == self.fills(whole),
    {
        let rows = vec![self.header, self.main, self.info, self.footer];
        let columns = vec![self.menu, self.content];
        assert(rows@ =~= seq![self.header, self.main, self.info, self.footer]);
        assert(columns@ =~= seq![self.menu, self.content]);
        check_tiles(Direction::Vertical, &rows, whole) && check_tiles(
            Direction::Horizontal,
            &columns,
            self.main,
        )
    }
}

} // verus!
