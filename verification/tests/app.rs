use neviraller::action::Action;
use neviraller::app::{App, Control, Effect, Lifecycle};
use neviraller::components::info::Info;
use neviraller::components::menu::Menu;
use neviraller::components::progress::ProgressBar;
use neviraller::components::{Component, ComponentId};
use neviraller::config::KeyBindings;
use neviraller::event::Event;
use neviraller::keys::{Key, KeyCode};
use neviraller::mode::Mode;
use neviraller::screen::arrange;

fn key(c: char) -> Key {
    Key::plain(KeyCode::Char(c))
}

fn bindings() -> KeyBindings {
    let mut b = KeyBindings::new();
    assert!(b.bind(Mode::Home, vec![Key::plain(KeyCode::Down)], Action::Next).is_ok());
    assert!(b.bind(Mode::Home, vec![Key::plain(KeyCode::Enter)], Action::Select).is_ok());
    b
}

fn two_item_menu() -> Component {
    Component::Menu(Menu::new(vec!["Install".to_string(), "Quit".to_string()]))
}

fn queued(app: &App) -> Vec<Action> {
    let mut all = Vec::new();
    let mut i = 0;
    while let Some(a) = app.bus().get(i) {
        all.push(a.clone());
        i += 1;
    }
    assert_eq!(all.len(), app.waiting());
    all
}

fn selected(app: &App) -> usize {
    for c in app.components() {
        if let Component::Menu(m) = c {
            return m.selected_index();
        }
    }
    panic!("no menu");
}

fn log(app: &App) -> String {
    for c in app.components() {
        if let Component::Info(i) = c {
            return i.content().to_string();
        }
    }
    panic!("no status display");
}

fn progress(app: &App) -> ProgressBar {
    for c in app.components() {
        if let Component::Progress(p) = c {
            return *p;
        }
    }
    panic!("no progress indicator");
}

#[test]
fn down_then_enter_selects_the_second_entry() {
    let mut app = App::with_components(bindings(), vec![two_item_menu()], 80, 24);
    assert_eq!(selected(&app), 0);
    app.handle_event(Event::Key(Key::plain(KeyCode::Down)));
    app.handle_event(Event::Key(Key::plain(KeyCode::Enter)));
    assert_eq!(queued(&app), vec![Action::Next, Action::Select]);
    assert_eq!(app.step(), Some(Effect::Nothing));
    assert_eq!(selected(&app), 1);
    assert_eq!(queued(&app), vec![Action::Select]);
    assert_eq!(app.step(), Some(Effect::Nothing));
    assert_eq!(selected(&app), 1);
    assert_eq!(queued(&app), vec![Action::Quit]);
    assert_eq!(app.after_drain(), Control::Continue);
    assert_eq!(app.step(), Some(Effect::Nothing));
    assert_eq!(app.step(), None);
    assert!(app.state().should_quit);
    assert_eq!(app.lifecycle(), Lifecycle::Terminating);
    assert_eq!(app.after_drain(), Control::Stop);
}

#[test]
fn events_become_actions_in_arrival_order() {
    let mut app = App::new(bindings());
    app.handle_event(Event::Render);
    app.handle_event(Event::Resize(100, 40));
    app.handle_event(Event::FocusGained);
    app.handle_event(Event::FocusLost);
    app.handle_event(Event::Paste("text".to_string()));
    app.handle_event(Event::Tick);
    app.handle_event(Event::Key(key('x')));
    app.handle_event(Event::Quit);
    assert_eq!(
        queued(&app),
        vec![Action::Render, Action::Resize(100, 40), Action::Tick, Action::Quit]
    );
    assert_eq!(app.state().pending_key_sequence, vec![key('x')]);
}

#[test]
fn emitted_action_waits_behind_what_was_queued() {
    let mut app = App::with_components(
        bindings(),
        vec![two_item_menu(), Component::Info(Info::new("log"))],
        80,
        24,
    );
    app.send(Action::Select);
    app.send(Action::Next);
    app.send(Action::Help);
    assert_eq!(app.step(), Some(Effect::Nothing));
    assert_eq!(
        queued(&app),
        vec![
            Action::Next,
            Action::Help,
            Action::Error("Unknown menu item: Install".to_string())
        ]
    );
    assert_eq!(log(&app), "");
    assert_eq!(app.step(), Some(Effect::Nothing));
    assert_eq!(app.step(), Some(Effect::Nothing));
    assert_eq!(log(&app), "");
    assert_eq!(app.step(), Some(Effect::Nothing));
    assert_eq!(log(&app), "Unknown menu item: Install\n");
    assert_eq!(selected(&app), 1);
    assert_eq!(app.step(), None);
}

#[test]
fn same_resize_twice_gives_the_same_regions() {
    let mut app = App::new(bindings());
    app.send(Action::Resize(120, 40));
    app.send(Action::Resize(120, 40));
    let first = app.step();
    let second = app.step();
    assert_eq!(first, second);
    assert_eq!(first, Some(Effect::Draw(arrange(120, 40, false, false))));
    assert_eq!(app.layout(), arrange(120, 40, false, false));
    assert_eq!(app.region_of(ComponentId::Menu), app.layout().navigation);
    assert_eq!(app.region_of(ComponentId::Info), app.layout().primary);
    assert_eq!(app.region_of(ComponentId::Input), app.layout().dialog);
    assert_eq!(app.region_at(3), app.layout().primary);
    assert_eq!(app.region_at(4), app.layout().dialog);
    assert_eq!(app.region_at(9), neviraller::layout::Rect::new(0, 0, 0, 0));
}

#[test]
fn render_draws_with_the_size_of_the_last_resize() {
    let mut app = App::new(bindings());
    app.send(Action::Render);
    assert_eq!(app.step(), Some(Effect::Draw(arrange(0, 0, false, false))));
    app.send(Action::Resize(80, 24));
    app.send(Action::Render);
    assert_eq!(app.step(), Some(Effect::Draw(arrange(80, 24, false, false))));
    assert_eq!(app.step(), Some(Effect::Draw(arrange(80, 24, false, false))));
    app.report_progress(50);
    assert_eq!(queued(&app), vec![Action::Render]);
    assert_eq!(app.step(), Some(Effect::Draw(arrange(80, 24, true, false))));
    assert_eq!(app.layout().auxiliary.height, 3);
}

#[test]
fn suspend_and_resume_leave_the_run_as_it_was() {
    let mut app = App::new(bindings());
    app.send(Action::Resize(80, 24));
    app.send(Action::Next);
    app.send(Action::CheckDeps);
    app.handle_event(Event::Key(key('x')));
    while app.step().is_some() {}
    let before_log = log(&app);
    assert_eq!(selected(&app), 1);
    app.send(Action::Suspend);
    assert_eq!(app.step(), Some(Effect::Nothing));
    assert_eq!(app.step(), None);
    assert_eq!(app.lifecycle(), Lifecycle::Suspended);
    assert_eq!(app.after_drain(), Control::Suspend);
    assert_eq!(queued(&app), vec![Action::Resume]);
    assert_eq!(app.step(), Some(Effect::Reacquire(arrange(80, 24, false, false))));
    assert_eq!(app.step(), None);
    assert_eq!(app.lifecycle(), Lifecycle::Running);
    assert_eq!(app.after_drain(), Control::Continue);
    assert_eq!(app.state().mode, Mode::Home);
    assert_eq!(app.state().pending_key_sequence, vec![key('x')]);
    assert_eq!(selected(&app), 1);
    assert_eq!(log(&app), before_log);
    assert_eq!(before_log, "All dependencies are up to date\n");
}

#[test]
fn quit_wins_over_suspend() {
    let mut app = App::new(bindings());
    app.send(Action::Suspend);
    app.send(Action::Quit);
    while app.step().is_some() {}
    assert_eq!(app.lifecycle(), Lifecycle::Terminating);
    assert_eq!(app.after_drain(), Control::Stop);
    assert_eq!(app.waiting(), 0);
    app.send(Action::Resume);
    app.send(Action::Tick);
    while app.step().is_some() {}
    assert_eq!(app.lifecycle(), Lifecycle::Terminating);
}

#[test]
fn tick_clears_the_pending_keys() {
    let mut b = KeyBindings::new();
    assert!(b.bind(Mode::Home, vec![key('g'), key('g')], Action::Refresh).is_ok());
    let mut app = App::new(b);
    app.handle_event(Event::Key(key('g')));
    app.handle_event(Event::Tick);
    assert_eq!(app.step(), Some(Effect::Nothing));
    assert!(app.state().pending_key_sequence.is_empty());
    app.handle_event(Event::Key(key('g')));
    assert_eq!(app.waiting(), 0);
    app.handle_event(Event::Key(key('g')));
    assert_eq!(queued(&app), vec![Action::Refresh]);
}

#[test]
fn installation_runs_one_step_per_tick() {
    let mut app = App::new(bindings());
    app.send(Action::Resize(80, 24));
    assert!(matches!(app.step(), Some(Effect::Draw(_))));
    app.send(Action::InstallNeovimNightly);
    assert_eq!(app.step(), Some(Effect::CheckVersion));
    assert_eq!(app.job(), Some(0));
    assert_eq!(log(&app), "Installing Neovim Nightly...\n");
    let mut shown = Vec::new();
    for step in 0..=10u8 {
        app.send(Action::Tick);
        assert_eq!(app.step(), Some(Effect::Nothing));
        assert_eq!(queued(&app), vec![Action::Render]);
        let p = progress(&app);
        assert_eq!(p.percent, step * 10);
        assert_eq!(p.visible, step > 0 && step < 10);
        shown.push(p.percent);
        assert!(matches!(app.step(), Some(Effect::Draw(_))));
        assert_eq!(app.layout().auxiliary.height, if p.visible { 3 } else { 0 });
    }
    assert_eq!(shown, vec![0, 10, 20, 30, 40, 50, 60, 70, 80, 90, 100]);
    assert_eq!(app.job(), None);
    assert_eq!(
        log(&app),
        "Installing Neovim Nightly...\nNeovim Nightly installed successfully.\n"
    );
    app.send(Action::Tick);
    assert_eq!(app.step(), Some(Effect::Nothing));
    assert_eq!(app.waiting(), 0);
}

#[test]
fn second_request_does_not_restart_a_running_installation() {
    let mut app = App::new(bindings());
    app.send(Action::InstallNeovimNightly);
    app.send(Action::Tick);
    app.send(Action::InstallNeovimNightly);
    assert_eq!(app.step(), Some(Effect::CheckVersion));
    assert_eq!(app.step(), Some(Effect::Nothing));
    assert_eq!(app.step(), Some(Effect::Nothing));
    assert_eq!(app.job(), Some(1));
    assert_eq!(log(&app), "Installing Neovim Nightly...\n");
}

#[test]
fn quit_stops_the_steps_of_an_installation() {
    let mut app = App::new(bindings());
    app.send(Action::InstallNeovimNightly);
    app.send(Action::Tick);
    app.send(Action::Quit);
    app.send(Action::Tick);
    while app.step().is_some() {}
    assert_eq!(app.job(), Some(1));
    assert_eq!(progress(&app).percent, 0);
}

#[test]
fn domain_commands_report_in_the_status_display() {
    let mut app = App::new(bindings());
    app.send(Action::InstallNeviraide);
    app.send(Action::CheckDeps);
    app.send(Action::Test);
    app.send(Action::LogMessage("from outside".to_string()));
    while app.step().is_some() {}
    assert_eq!(
        log(&app),
        "NEVIRAIDE\nAll dependencies are up to date\nTest for test\nfrom outside\n"
    );
    let dialog_open = app.components().iter().any(|c| match c {
        Component::Input(d) => d.visible,
        _ => false,
    });
    assert!(dialog_open);
}

#[test]
fn new_application_has_the_standard_components() {
    let app = App::new(KeyBindings::new());
    let ids: Vec<ComponentId> = app.components().iter().map(|c| c.id()).collect();
    assert_eq!(
        ids,
        vec![
            ComponentId::Header,
            ComponentId::Menu,
            ComponentId::Progress,
            ComponentId::Info,
            ComponentId::Input,
            ComponentId::Footer
        ]
    );
    assert_eq!(app.find(ComponentId::Info), Some(3));
    assert!(!app.aux_visible());
    assert_eq!(app.lifecycle(), Lifecycle::Running);
    assert_eq!(app.waiting(), 0);
    assert_eq!(app.bindings().len(), 0);
    match &app.components()[0] {
        Component::Header(h) => assert_eq!(h.title(), "NEVIRALLER"),
        _ => unreachable!(),
    }
    match &app.components()[5] {
        Component::Footer(f) => assert_eq!(f.content(), "© 2024 RAprogramm"),
        _ => unreachable!(),
    }
}

#[test]
fn application_without_components_still_runs() {
    let mut app = App::with_components(bindings(), Vec::new(), 10, 10);
    assert_eq!(app.find(ComponentId::Info), None);
    app.send(Action::CheckDeps);
    app.send(Action::Render);
    assert_eq!(app.step(), Some(Effect::Nothing));
    assert!(matches!(app.step(), Some(Effect::Draw(_))));
}

#[test]
fn no_region_is_handed_to_two_components() {
    let mut app = App::new(bindings());
    app.send(Action::Resize(80, 24));
    app.send(Action::Test);
    app.report_progress(50);
    while app.step().is_some() {}
    assert!(app.dialog_visible());
    assert!(app.aux_visible());
    assert_eq!(app.layout(), arrange(80, 24, true, true));
    assert_eq!(app.layout().dialog.height, 6);
    let n = app.components().len();
    let mut cells = 0u32;
    for i in 0..n {
        let a = app.region_at(i);
        cells += a.width as u32 * a.height as u32;
        assert!(a.width > 0 && a.height > 0);
        for j in (i + 1)..n {
            let b = app.region_at(j);
            let apart = a.x + a.width <= b.x
                || b.x + b.width <= a.x
                || a.y + a.height <= b.y
                || b.y + b.height <= a.y;
            assert!(apart, "{:?} and {:?}", a, b);
        }
    }
    assert_eq!(cells, 78 * 22);
}

#[test]
fn second_component_of_an_identity_gets_no_cell() {
    let app = App::with_components(
        bindings(),
        vec![
            Component::Info(Info::new("first")),
            two_item_menu(),
            Component::Info(Info::new("second")),
        ],
        80,
        24,
    );
    assert_eq!(app.region_at(0), app.layout().primary);
    assert_eq!(app.region_at(1), app.layout().navigation);
    assert_eq!(app.region_at(2), neviraller::layout::Rect::new(0, 0, 0, 0));
}

#[test]
fn key_that_is_bound_alone_is_queued_whatever_is_pending() {
    let mut b = KeyBindings::new();
    assert!(b.bind(Mode::Home, vec![Key::plain(KeyCode::Enter)], Action::Select).is_ok());
    assert!(b.bind(Mode::Home, vec![key('g'), key('g')], Action::Refresh).is_ok());
    let mut app = App::new(b);
    app.handle_key_event(key('g'));
    assert_eq!(app.waiting(), 0);
    assert_eq!(app.state().pending_key_sequence, vec![key('g')]);
    app.handle_key_event(Key::plain(KeyCode::Enter));
    assert_eq!(queued(&app), vec![Action::Select]);
    assert!(app.state().pending_key_sequence.is_empty());
    app.handle_key_event(key('g'));
    app.handle_key_event(key('g'));
    assert_eq!(queued(&app), vec![Action::Select, Action::Refresh]);
}
