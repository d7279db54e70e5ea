use neviraller::action::Action;
use neviraller::components::footer::Footer;
use neviraller::components::header::Header;
use neviraller::components::info::Info;
use neviraller::components::input::{buttons_request, rows_request, Button, Input};
use neviraller::components::menu::{action_for, default_menu_items, Menu};
use neviraller::components::progress::ProgressBar;
use neviraller::components::{Component, ComponentId, InitError};
use neviraller::event::Event;
use neviraller::keys::{Key, KeyCode};
use neviraller::layout::Rect;
use neviraller::screen::Slot;

fn two_items() -> Menu {
    Menu::new(vec!["Install".to_string(), "Quit".to_string()])
}

#[test]
fn menu_selection_stops_at_both_ends() {
    let mut menu = two_items();
    assert_eq!(menu.selected_index(), 0);
    assert_eq!(menu.update(Action::Prev), None);
    assert_eq!(menu.selected_index(), 0);
    assert_eq!(menu.update(Action::Next), None);
    assert_eq!(menu.selected_index(), 1);
    assert_eq!(menu.update(Action::Next), None);
    assert_eq!(menu.selected_index(), 1);
    assert_eq!(menu.update(Action::Prev), None);
    assert_eq!(menu.selected_index(), 0);
    assert_eq!(menu.len(), 2);
    assert_eq!(menu.item(1), Some("Quit"));
    assert_eq!(menu.item(2), None);
}

#[test]
fn menu_select_emits_the_action_of_the_entry() {
    let mut menu = Menu::new(default_menu_items());
    assert_eq!(menu.update(Action::Select), Some(Action::InstallNeovimNightly));
    menu.update(Action::Next);
    assert_eq!(menu.update(Action::Select), Some(Action::InstallNeviraide));
    menu.update(Action::Next);
    assert_eq!(menu.update(Action::Select), Some(Action::CheckDeps));
    menu.update(Action::Next);
    assert_eq!(menu.update(Action::Select), Some(Action::Quit));
    assert_eq!(menu.selected_index(), 3);
}

#[test]
fn menu_select_of_an_unknown_entry_is_an_error() {
    let mut menu = two_items();
    assert_eq!(
        menu.update(Action::Select),
        Some(Action::Error("Unknown menu item: Install".to_string()))
    );
    assert_eq!(action_for("Quit"), Action::Quit);
    assert_eq!(action_for(""), Action::Error("Unknown menu item: ".to_string()));
}

#[test]
fn empty_menu_emits_nothing() {
    let mut menu = Menu::new(Vec::new());
    assert_eq!(menu.update(Action::Next), None);
    assert_eq!(menu.selected_index(), 0);
    assert_eq!(menu.update(Action::Select), None);
}

#[test]
fn menu_ignores_other_actions() {
    let mut menu = two_items();
    menu.update(Action::Next);
    for action in [
        Action::Tick,
        Action::Render,
        Action::Resize(10, 10),
        Action::Suspend,
        Action::Resume,
        Action::Quit,
        Action::Error("x".to_string()),
    ] {
        assert_eq!(menu.update(action), None);
        assert_eq!(menu.selected_index(), 1);
    }
}

#[test]
fn menu_keys_move_and_choose() {
    let mut menu = two_items();
    assert_eq!(menu.handle_key_events(Key::plain(KeyCode::Down)), None);
    assert_eq!(menu.selected_index(), 1);
    assert_eq!(menu.handle_key_events(Key::plain(KeyCode::Down)), None);
    assert_eq!(menu.selected_index(), 1);
    assert_eq!(menu.handle_key_events(Key::plain(KeyCode::Enter)), Some(Action::Select));
    assert_eq!(menu.handle_key_events(Key::plain(KeyCode::Up)), None);
    assert_eq!(menu.selected_index(), 0);
    assert_eq!(menu.handle_key_events(Key::plain(KeyCode::Char('x'))), None);
}

#[test]
fn info_collects_messages_line_by_line() {
    let mut info = Info::new(" Info component ");
    assert_eq!(info.title(), " Info component ");
    assert_eq!(info.content(), "");
    info.update_content("first");
    info.update_content("second\nthird");
    assert_eq!(info.content(), "first\nsecond\nthird\n");
}

#[test]
fn info_scrolls_to_the_lines_beyond_the_height() {
    let mut info = Info::new("log");
    assert_eq!(info.scroll_offset(0), 0);
    for _ in 0..5 {
        info.update_content("line");
    }
    assert_eq!(info.scroll_offset(10), 0);
    assert_eq!(info.scroll_offset(5), 0);
    assert_eq!(info.scroll_offset(3), 2);
    assert_eq!(info.scroll_offset(0), 5);
    info.update_content("a\nb\nc");
    assert_eq!(info.scroll_offset(3), 5);
}

#[test]
fn progress_is_shown_between_start_and_end() {
    let mut p = ProgressBar::new();
    assert_eq!(p, ProgressBar::default());
    assert!(!p.visible);
    assert_eq!(p.update_progress(0), Action::Render);
    assert!(!p.visible);
    assert_eq!(p.update_progress(10), Action::Render);
    assert!(p.visible);
    assert_eq!(p.percent, 10);
    p.update_progress(99);
    assert!(p.visible);
    p.update_progress(100);
    assert!(!p.visible);
    assert_eq!(p.percent, 100);
    p.update_progress(200);
    assert!(!p.visible);
    assert_eq!(p.percent, 200);
}

#[test]
fn dialog_keys() {
    let mut d = Input::new(" Your choise ");
    assert_eq!(d.title, " Your choise ");
    assert_eq!(d.selected_button, Some(Button::Yes));
    assert!(!d.visible);
    assert_eq!(d.handle_key(KeyCode::Char('p')), None);
    assert!(d.visible);
    assert_eq!(d.handle_key(KeyCode::Right), None);
    assert_eq!(d.selected_button, Some(Button::No));
    assert_eq!(d.handle_key(KeyCode::Enter), Some(Button::No));
    assert!(!d.visible);
    d.show();
    assert_eq!(d.handle_key(KeyCode::Left), None);
    assert_eq!(d.handle_key(KeyCode::Enter), Some(Button::Yes));
    d.show();
    assert_eq!(d.handle_key(KeyCode::Esc), None);
    assert!(!d.visible);
    d.show();
    d.selected_button = None;
    assert_eq!(d.handle_key(KeyCode::Enter), None);
    assert!(d.visible);
    d.dismiss();
    assert!(!d.visible);
    assert_eq!(d.handle_key(KeyCode::Char('x')), None);
    assert!(!d.visible);
}

#[test]
fn header_and_footer_keep_their_text() {
    assert_eq!(Header::new("NEVIRALLER").title(), "NEVIRALLER");
    assert_eq!(Footer::new("© 2024 RAprogramm").content(), "© 2024 RAprogramm");
}

#[test]
fn components_have_identity_and_slot() {
    let c = Component::Info(Info::new("i"));
    assert_eq!(c.id(), ComponentId::Info);
    assert_eq!(ComponentId::Header.slot(), Slot::Header);
    assert_eq!(ComponentId::Menu.slot(), Slot::Navigation);
    assert_eq!(ComponentId::Progress.slot(), Slot::Auxiliary);
    assert_eq!(ComponentId::Info.slot(), Slot::Primary);
    assert_eq!(ComponentId::Input.slot(), Slot::Dialog);
    assert_eq!(ComponentId::Footer.slot(), Slot::Footer);
}

#[test]
fn init_with_an_empty_region_is_an_error_without_effect() {
    let mut c = Component::Menu(two_items());
    assert_eq!(c.init(Rect::new(1, 1, 0, 5)), Err(InitError::ZeroArea));
    assert_eq!(c.init(Rect::new(1, 1, 5, 0)), Err(InitError::ZeroArea));
    assert_eq!(c.init(Rect::new(1, 1, 5, 5)), Ok(()));
    match c {
        Component::Menu(m) => assert_eq!(m.selected_index(), 0),
        _ => unreachable!(),
    }
}

#[test]
fn status_display_takes_errors_and_log_messages() {
    let mut c = Component::Info(Info::new("i"));
    assert_eq!(c.update(Action::Error("failed".to_string())), None);
    assert_eq!(c.update(Action::LogMessage("done".to_string())), None);
    assert_eq!(c.update(Action::Next), None);
    match c {
        Component::Info(i) => assert_eq!(i.content(), "failed\ndone\n"),
        _ => unreachable!(),
    }
}

#[test]
fn only_the_menu_takes_key_events() {
    let mut menu = Component::Menu(two_items());
    assert_eq!(menu.handle_event(&Event::Key(Key::plain(KeyCode::Enter))), Some(Action::Select));
    assert_eq!(menu.handle_event(&Event::Key(Key::plain(KeyCode::Down))), None);
    assert_eq!(menu.handle_event(&Event::Render), None);
    match &menu {
        Component::Menu(m) => assert_eq!(m.selected_index(), 1),
        _ => unreachable!(),
    }
    let mut dialog = Component::Input(Input::new("d"));
    assert_eq!(dialog.handle_event(&Event::Key(Key::plain(KeyCode::Char('p')))), None);
    match &dialog {
        Component::Input(d) => assert!(!d.visible),
        _ => unreachable!(),
    }
}

#[test]
fn component_operations_touch_only_their_kind() {
    let mut p = Component::Progress(ProgressBar::new());
    assert!(p.set_progress(40));
    assert!(p.shows_progress());
    p.add_message("ignored");
    p.open_dialog();
    match &p {
        Component::Progress(bar) => assert_eq!(*bar, ProgressBar { percent: 40, visible: true }),
        _ => unreachable!(),
    }
    let mut h = Component::Header(Header::new("h"));
    assert!(!h.set_progress(40));
    assert!(!h.shows_progress());
    let mut d = Component::Input(Input::new("d"));
    d.open_dialog();
    match &d {
        Component::Input(dialog) => assert!(dialog.visible),
        _ => unreachable!(),
    }
}

#[test]
fn no_two_components_have_the_same_slot() {
    let ids = [
        ComponentId::Header,
        ComponentId::Menu,
        ComponentId::Progress,
        ComponentId::Info,
        ComponentId::Input,
        ComponentId::Footer,
    ];
    for (i, a) in ids.iter().enumerate() {
        for b in ids.iter().skip(i + 1) {
            assert_ne!(a.slot(), b.slot());
        }
    }
}

#[test]
fn dialog_parts_lie_inside_its_border() {
    let parts = Input::regions(Rect::new(24, 16, 55, 6)).expect("the solver's strips lie in order");
    assert_eq!(parts.text, Rect::new(25, 17, 53, 3));
    assert_eq!(parts.buttons, Rect::new(25, 20, 53, 1));
    assert_eq!(parts.yes, Rect::new(25, 20, 27, 1));
    assert_eq!(parts.no, Rect::new(52, 20, 26, 1));
    let higher = Input::regions(Rect::new(0, 0, 20, 12)).expect("room may be left");
    assert_eq!(higher.text, Rect::new(1, 1, 18, 3));
    assert_eq!(higher.buttons, Rect::new(1, 4, 18, 1));
    assert_eq!(rows_request().margin, 1);
    assert_eq!(buttons_request().constraints.len(), 2);
    let mut d = Component::Input(Input::new("d"));
    assert!(!d.shows_dialog());
    d.open_dialog();
    assert!(d.shows_dialog());
}
