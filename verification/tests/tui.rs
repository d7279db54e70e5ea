use neviraller::event::Event;
use neviraller::keys::{Key, KeyCode, KeyEventKind, NONE};
use neviraller::layout::Rect;
use neviraller::tui::app::{direct, key_action, rows_request, settle_regions, Action, App};
use neviraller::tui::keymaps::{collect_labels, format_labelled, place, KeyBindings};
use neviraller::tui::menu::MenuAction;
use neviraller::tui::neviraller::{Dep, Neviraller};
use neviraller::tui::ui::panes::footer::FooterPane;
use neviraller::tui::ui::panes::header::HeaderPane;
use neviraller::tui::ui::panes::menu::{columns_request, MenuPane};
use neviraller::tui::ui::panes::Pane;
use neviraller::tui::ui::widget_params::{Alignment, Borders, Color, Modifier, WidgetParams};
use neviraller::tui::ui::UI;

#[test]
fn standard_keys_are_bound() {
    let b = KeyBindings::new();
    assert_eq!(b.len(), 9);
    assert_eq!(b.get_action(KeyCode::Char('j')), Some(&Action::Next));
    assert_eq!(b.get_action(KeyCode::Char('n')), Some(&Action::Next));
    assert_eq!(b.get_action(KeyCode::Down), Some(&Action::Next));
    assert_eq!(b.get_action(KeyCode::Char('k')), Some(&Action::Previous));
    assert_eq!(b.get_action(KeyCode::Char('p')), Some(&Action::Previous));
    assert_eq!(b.get_action(KeyCode::Up), Some(&Action::Previous));
    assert_eq!(b.get_action(KeyCode::Enter), Some(&Action::Select));
    assert_eq!(b.get_action(KeyCode::Char('q')), Some(&Action::Quit));
    assert_eq!(b.get_action(KeyCode::Esc), Some(&Action::Quit));
    assert_eq!(b.get_action(KeyCode::Char('x')), None);
    assert_eq!(b.get_action(KeyCode::Tab), None);
}

#[test]
fn key_map_and_key_match_agree() {
    let b = KeyBindings::new();
    let mut codes = vec![
        KeyCode::Down,
        KeyCode::Up,
        KeyCode::Enter,
        KeyCode::Esc,
        KeyCode::Tab,
        KeyCode::F(1),
        KeyCode::Left,
    ];
    for c in ' '..='~' {
        codes.push(KeyCode::Char(c));
    }
    for code in codes {
        assert_eq!(b.get_action(code).copied(), key_action(code), "{:?}", code);
    }
}

#[test]
fn footer_lists_the_bindings_by_action() {
    let b = KeyBindings::new();
    assert_eq!(
        b.format_bindings(),
        "Select: Enter     Next: j | n |      Previous: k | p |      Quit: q | Esc"
    );
}

#[test]
fn later_binding_of_a_key_replaces_the_earlier() {
    let b = KeyBindings::from_pairs(&vec![
        (KeyCode::Tab, Action::Next),
        (KeyCode::F(2), Action::Quit),
        (KeyCode::Char('a'), Action::Quit),
        (KeyCode::Tab, Action::Select),
    ]);
    assert_eq!(b.len(), 3);
    assert_eq!(b.get_action(KeyCode::Tab), Some(&Action::Select));
    assert_eq!(b.format_bindings(), "Select: Tab     Quit: a | F(2)");
    let copy = b.clone();
    assert_eq!(copy.format_bindings(), b.format_bindings());
    assert_eq!(KeyBindings::from_pairs(&Vec::new()).format_bindings(), "");
}

#[test]
fn action_names() {
    assert_eq!(Action::Select.name(), "Select");
    assert_eq!(Action::Next.name(), "Next");
    assert_eq!(Action::Previous.name(), "Previous");
    assert_eq!(Action::Quit.name(), "Quit");
}

#[test]
fn messages_pile_up_line_by_line() {
    let mut ui = UI::new(String::new(), KeyBindings::new());
    assert!(!ui.show_update_message);
    ui.set_update_message("first".to_string());
    assert_eq!(ui.update_message, "first");
    assert!(ui.show_update_message);
    ui.set_update_message("second".to_string());
    assert_eq!(ui.update_message, "first\nsecond");
    ui._clear_update_message();
    assert!(!ui.show_update_message);
    assert_eq!(ui.update_message, "first\nsecond");
    let copy = ui.clone();
    assert_eq!(copy.update_message, "first\nsecond");
}

#[test]
fn widget_params_are_built_step_by_step() {
    let p = WidgetParams::new("text".to_string());
    assert_eq!(p.text, "text");
    assert_eq!(p.alignment, Alignment::Left);
    assert_eq!(p.borders, Borders::all());
    assert_eq!(p.title, None);
    assert_eq!(p.color, Color::White);
    assert_eq!(p.modifier, Modifier::empty());
    let p = p
        .with_alignment(Alignment::Right)
        .with_borders(Borders::none())
        .with_title("t".to_string())
        .with_color(Color::Rgb(1, 2, 3))
        ._with_modifier(Modifier::bold());
    assert_eq!(p.text, "text");
    assert_eq!(p.alignment, Alignment::Right);
    assert_eq!(p.borders.bits, 0);
    assert_eq!(p.title, Some("t".to_string()));
    assert_eq!(p.color, Color::Rgb(1, 2, 3));
    assert_eq!(p.modifier.bits, 1);
}

#[test]
fn panes_say_how_they_are_drawn() {
    let ui = UI::new(String::new(), KeyBindings::new());
    let header = HeaderPane {}.widget(&ui);
    assert_eq!(header.text, "NEVIRALLER");
    assert_eq!(header.color, Color::Yellow);
    assert_eq!(header.alignment, Alignment::Center);
    assert_eq!(header.borders, Borders::all());
    let footer = FooterPane {}.widget(&ui);
    assert_eq!(footer.text, ui.key_bindings.format_bindings());
    assert_eq!(footer.borders, Borders::none());
    assert_eq!(footer.color, Color::DarkGray);
    assert_eq!(footer.modifier, Modifier::italic());
    assert_eq!(footer.alignment, Alignment::Center);
    let content = MenuPane {}.widget(&ui);
    assert_eq!(content.text, "Here is the main content of the application");
    assert_eq!(content.title, Some("Content".to_string()));
    assert_eq!(content.color, Color::White);
    let info = ui.additional_info("log");
    assert_eq!(info.text, "log");
    assert_eq!(info.title, Some("Additional Info".to_string()));
    assert_eq!(info.borders, Borders::all());
    assert_eq!(info.alignment, Alignment::Left);
}

#[test]
fn menu_pane_has_two_columns() {
    let (menu, content) = MenuPane {}
        .columns(Rect::new(0, 3, 100, 10))
        .expect("the solver's columns fill the area");
    assert_eq!(menu, Rect::new(0, 3, 30, 10));
    assert_eq!(content, Rect::new(30, 3, 70, 10));
}

#[test]
fn single_screen_regions() {
    let r = App::regions(Rect::new(0, 0, 100, 46)).expect("the solver's strips fill the frame");
    assert_eq!(r.header, Rect::new(0, 0, 100, 3));
    assert_eq!(r.main, Rect::new(0, 3, 100, 20));
    assert_eq!(r.info, Rect::new(0, 23, 100, 20));
    assert_eq!(r.footer, Rect::new(0, 43, 100, 3));
    assert_eq!(r.menu, Rect::new(0, 3, 30, 20));
    assert_eq!(r.content, Rect::new(30, 3, 70, 20));
}

#[test]
fn single_screen_application_follows_the_actions() {
    let mut app = App::new();
    assert!(!app.should_quit());
    assert_eq!(app.menu().selected(), Some(0));
    assert_eq!(app.ui().update_message, "Initial update message");
    app.apply(Action::Select);
    assert_eq!(
        app.ui().update_message,
        "Initial update message\nустановка обновлений Neovim..."
    );
    assert!(app.ui().show_update_message);
    app.apply(Action::Next);
    app.apply(Action::Select);
    app.apply(Action::Next);
    app.apply(Action::Select);
    assert_eq!(
        app.ui().update_message,
        "Initial update message\nустановка обновлений Neovim...\nПроверка доступных обновлений...\nCheck dependencies..."
    );
    app.apply(Action::Previous);
    assert_eq!(app.menu().selected(), Some(1));
    app.apply(Action::Next);
    app.apply(Action::Next);
    assert_eq!(app.menu().selected(), Some(3));
    assert!(!app.should_quit());
    app.apply(Action::Select);
    assert!(app.should_quit());
}

#[test]
fn quit_action_and_quit_entry_end_the_application() {
    let mut app = App::new();
    app.apply(Action::Quit);
    assert!(app.should_quit());
    let mut app = App::new();
    app.handle_action(MenuAction::Quit);
    assert!(app.should_quit());
    assert_eq!(app.ui().update_message, "Initial update message");
}

#[test]
fn first_screen_ends_on_q() {
    let mut n = Neviraller::default();
    assert!(!n.is_done());
    n.handle_events(&Event::Key(Key::plain(KeyCode::Char('x'))));
    n.handle_events(&Event::Render);
    n.handle_events(&Event::Key(Key::new_with_kind(
        KeyCode::Char('q'),
        NONE,
        KeyEventKind::Release,
    )));
    assert!(!n.is_done());
    n.handle_events(&Event::Key(Key::plain(KeyCode::Char('q'))));
    assert!(n.is_done());
    let mut m = Neviraller::default();
    m.handle_key_event(Key::plain(KeyCode::Char('q')));
    assert!(m.is_done());
    let d = Dep::new("git".to_string(), "git".to_string(), true);
    assert_eq!(d.name(), "git");
    assert_eq!(d.command(), "git");
    assert!(d.state());
}

#[test]
fn place_of_a_name_among_sorted_names() {
    let names: Vec<String> = ["Char('j')", "Down", "Enter", "Up"].iter().map(|s| s.to_string()).collect();
    assert_eq!(place(&names, "Char('a')"), (0, false));
    assert_eq!(place(&names, "Char('j')"), (0, true));
    assert_eq!(place(&names, "Char('k')"), (1, false));
    assert_eq!(place(&names, "Enter"), (2, true));
    assert_eq!(place(&names, "Esc"), (3, false));
    assert_eq!(place(&names, "Up"), (3, true));
    assert_eq!(place(&names, "Z"), (4, false));
    assert_eq!(place(&Vec::new(), "x"), (0, false));
}

#[test]
fn footer_line_of_labelled_bindings() {
    let entries = vec![
        ("q".to_string(), Action::Quit),
        ("a".to_string(), Action::Next),
        ("".to_string(), Action::Next),
        ("Esc".to_string(), Action::Quit),
    ];
    assert_eq!(collect_labels(&entries, Action::Next), vec!["a", ""]);
    assert!(collect_labels(&entries, Action::Select).is_empty());
    assert_eq!(format_labelled(&entries), "Next: a |      Quit: q | Esc");
    assert_eq!(format_labelled(&Vec::new()), "");
    assert_eq!(
        format_labelled(&vec![("Enter".to_string(), Action::Select)]),
        "Select: Enter"
    );
}

#[test]
fn single_screen_has_regions_for_every_size() {
    for (w, h) in [(0u16, 0u16), (1, 1), (10, 5), (100, 46), (80, 24), (81, 25), (200, 7)] {
        let r = App::screen(w, h);
        assert!(r.check(Rect::new(0, 0, w, h)), "at {}x{}", w, h);
    }
    assert_eq!(Some(App::screen(100, 46)), App::regions(Rect::new(0, 0, 100, 46)));
    let whole = Rect::new(0, 0, 100, 47);
    let d = direct(whole);
    assert_eq!(d.header, Rect::new(0, 0, 100, 3));
    assert_eq!(d.main, Rect::new(0, 3, 100, 21));
    assert_eq!(d.info, Rect::new(0, 24, 100, 20));
    assert_eq!(d.footer, Rect::new(0, 44, 100, 3));
    assert_eq!(d.menu, Rect::new(0, 3, 30, 21));
    assert_eq!(d.content, Rect::new(30, 3, 70, 21));
    assert_eq!(settle_regions(None, whole), d);
    let mut broken = d;
    broken.menu.width += 1;
    assert_eq!(settle_regions(Some(broken), whole), d);
    assert_eq!(settle_regions(Some(d), whole), d);
    assert_eq!(rows_request().constraints.len(), 4);
    assert_eq!(columns_request().constraints.len(), 2);
}
