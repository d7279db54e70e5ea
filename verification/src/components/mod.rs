//! The regions of the screen and what each of them holds.
//!
//! The components form a closed set. Each is addressed by its
//! [`ComponentId`]; none refers to another. They take part in the run only
//! through the actions that are delivered to them and the actions that they
//! emit.

use crate::action::{Action, ActionView};
use crate::event::Event;
use crate::layout::Rect;
use crate::screen::Slot;
use crate::state::view_of;
use vstd::prelude::*;

pub mod footer;
pub mod header;
pub mod info;
pub mod input;
pub mod menu;
pub mod progress;

verus! {

/// One component of the screen.
#[derive(Debug)]
pub enum Component {
    Header(header::Header),
    Menu(menu::Menu),
    Progress(progress::ProgressBar),
    Info(info::Info),
    Input(input::Input),
    Footer(footer::Footer),
}

/// The mathematical value of a [`Component`].
pub enum ComponentView {
    Header(Seq<char>),
    Menu(menu::MenuView),
    Progress(progress::ProgressBar),
    Info(info::InfoView),
    Input(input::InputView),
    Footer(Seq<char>),
}

/// The identity of a component.
#[derive(Clone, Copy, Debug, PartialEq, Eq, Structural, Hash)]
pub enum ComponentId {
    Header,
    Menu,
    Progress,
    Info,
    Input,
    Footer,
}

/// Why a component could not be set up.
#[derive(Clone, Copy, Debug, PartialEq, Eq, Structural, Hash)]
pub enum InitError {
    /// The region assigned to the component has no cell.
    ZeroArea,
}

impl View for Component {
    type V = ComponentView;

    open spec fn view(&self) -> ComponentView {
        match *self {
            Component::Header(c) => ComponentView::Header(c@),
            Component::Menu(c) => ComponentView::Menu(c@),
            Component::Progress(c) => ComponentView::Progress(c),
            Component::Info(c) => ComponentView::Info(c@),
            Component::Input(c) => ComponentView::Input(c@),
            Component::Footer(c) => ComponentView::Footer(c@),
        }
    }
}

impl ComponentView {
    /// The identity of the component.
    pub open spec fn id(self) -> ComponentId {
        match self {
            ComponentView::Header(_) => ComponentId::Header,
            ComponentView::Menu(_) => ComponentId::Menu,
            ComponentView::Progress(_) => ComponentId::Progress,
            ComponentView::Info(_) => ComponentId::Info,
            ComponentView::Input(_) => ComponentId::Input,
            ComponentView::Footer(_) => ComponentId::Footer,
        }
    }
}

impl ComponentId {
    /// The slot of the screen that the component occupies.
    pub open spec fn slot_spec(self) -> Slot {
        match self {
            ComponentId::Header => Slot::Header,
            ComponentId::Menu => Slot::Navigation,
            ComponentId::Progress => Slot::Auxiliary,
            ComponentId::Info => Slot::Primary,
            ComponentId::Input => Slot::Dialog,
            ComponentId::Footer => Slot::Footer,
        }
    }

    /// No slot belongs to two components: components of different identity
    /// occupy different slots.
    pub proof fn lemma_slots_differ(a: ComponentId, b: ComponentId)
        requires
            a != b,
        ensures
            a.slot_spec() != b.slot_spec(),
    {
    }

    /// The slot of the screen that the component occupies.
    #[verifier::when_used_as_spec(slot_spec)]
    pub fn slot(self) -> (s: Slot)
        ensures
            s == self.slot_spec(),
    {
        match self {
            ComponentId::Header => Slot::Header,
            ComponentId::Menu => Slot::Navigation,
            ComponentId::Progress => Slot::Auxiliary,
            ComponentId::Info => Slot::Primary,
            ComponentId::Input => Slot::Dialog,
            ComponentId::Footer => Slot::Footer,
        }
    }
}

/// What an action does to a component: the component after it, and the
/// action that the component emits.
///
/// The menu moves its selection and emits the action of a chosen entry; the
/// status display adds the message of an error or a log message to its log.
/// Every other pair of component and action leaves the component as it is
/// and emits nothing.
pub open spec fn update_spec(c: ComponentView, action: ActionView) -> (
    ComponentView,
    Option<ActionView>,
) {
    match c {
        ComponentView::Menu(m) => {
            let (after, emitted) = menu::update_spec(m, action);
            (ComponentView::Menu(after), emitted)
        },
        ComponentView::Info(i) => match action {
            ActionView::Error(message) | ActionView::LogMessage(message) => (
                ComponentView::Info(
                    info::InfoView { content: info::appended(i.content, message), ..i },
                ),
                None,
            ),
            _ => (c, None),
        },
        _ => (c, None),
    }
}

/// What an event does to a component: the component after it, and the
/// action that the component emits. Only the menu takes events, and of them
/// only keys.
pub open spec fn handle_event_spec(c: ComponentView, event: Event) -> (
    ComponentView,
    Option<ActionView>,
) {
    match (c, event) {
        (ComponentView::Menu(m), Event::Key(key)) => {
            let (after, emitted) = menu::handle_key_spec(m, key.spec_code());
            (ComponentView::Menu(after), emitted)
        },
        _ => (c, None),
    }
}

/// The component with `message` added to its log, if it is a status
/// display.
pub open spec fn add_message(c: ComponentView, message: Seq<char>) -> ComponentView {
    match c {
        ComponentView::Info(i) => ComponentView::Info(
            info::InfoView { content: info::appended(i.content, message), ..i },
        ),
        _ => c,
    }
}

/// The component showing `percent`, if it is a progress indicator.
pub open spec fn set_progress(c: ComponentView, percent: u8) -> ComponentView {
    match c {
        ComponentView::Progress(_) => ComponentView::Progress(
            progress::ProgressBar { percent, visible: progress::shown_at(percent) },
        ),
        _ => c,
    }
}

/// The component opened, if it is a dialog.
pub open spec fn open_dialog(c: ComponentView) -> ComponentView {
    match c {
        ComponentView::Input(d) => ComponentView::Input(input::InputView { visible: true, ..d }),
        _ => c,
    }
}

/// Whether the component is a progress indicator that is shown.
pub open spec fn shows_progress(c: ComponentView) -> bool {
    match c {
        ComponentView::Progress(p) => p.visible,
        _ => false,
    }
}

/// Whether the component is a dialog that is shown.
pub open spec fn shows_dialog(c: ComponentView) -> bool {
    match c {
        ComponentView::Input(d) => d.visible,
        _ => false,
    }
}

impl Component {
    /// Whether the component is a dialog that is shown.
    pub fn shows_dialog(&self) -> (r: bool)
        ensures
            r == shows_dialog(self@),
    {
        match self {
            Component::Input(d) => d.visible,
            _ => false,
        }
    }

    /// Adds `message` to the log of a status display; leaves any other
    /// component as it is.
    pub fn add_message(&mut self, message: &str)
        ensures
            final(self)@ == add_message(old(self)@, message@),
    {
        match self {
            Component::Info(i) => {
                i.update_content(message);
            },
            _ => {},
        }
    }

    /// Sets a progress indicator to `percent` and tells whether it was one;
    /// leaves any other component as it is.
    pub fn set_progress(&mut self, percent: u8) -> (set: bool)
        ensures
            final(self)@ == set_progress(old(self)@, percent),
            set == (old(self)@ is Progress),
    {
        match self {
            Component::Progress(p) => {
                let _ = p.update_progress(percent);
                true
            },
            _ => false,
        }
    }

    /// Opens a dialog; leaves any other component as it is.
    pub fn open_dialog(&mut self)
        ensures
            final(self)@ == open_dialog(old(self)@),
    {
        match self {
            Component::Input(d) => {
                d.show();
            },
            _ => {},
        }
    }

    /// Whether the component is a progress indicator that is shown.
    pub fn shows_progress(&self) -> (r: bool)
        ensures
            r == shows_progress(self@),
    {
        match self {
            Component::Progress(p) => p.visible,
            _ => false,
        }
    }

    /// The identity of the component.
    pub fn id(&self) -> (r: ComponentId)
        ensures
            r == self@.id(),
    {
        match self {
            Component::Header(_) => ComponentId::Header,
            Component::Menu(_) => ComponentId::Menu,
            Component::Progress(_) => ComponentId::Progress,
            Component::Info(_) => ComponentId::Info,
            Component::Input(_) => ComponentId::Input,
            Component::Footer(_) => ComponentId::Footer,
        }
    }

    /// Sets the component up for the region that it is first assigned.
    ///
    /// A region without cells is an error that the caller may pass over; the
    /// component is left as it is either way.
    pub fn init(&mut self, area: Rect) -> (r: Result<(), InitError>)
        ensures
            final(self)@ == old(self)@,
            r == (if area.area() == 0 {
                Err::<(), InitError>(InitError::ZeroArea)
            } else {
                Ok(())
            }),
    {
        if area.is_empty() {
            Err(InitError::ZeroArea)
        } else {
            Ok(())
        }
    }

    /// Hands an event to the component.
    pub fn handle_event(&mut self, event: &Event) -> (emitted: Option<Action>)
        ensures
            (final(self)@, view_of(emitted)) == handle_event_spec(old(self)@, *event),
    {
        match self {
            Component::Menu(m) => match event {
                Event::Key(key) => m.handle_key_events(*key),
                _ => None,
            },
            _ => None,
        }
    }

    /// Delivers an action to the component.
    pub fn update(&mut self, action: Action) -> (emitted: Option<Action>)
        ensures
            (final(self)@, view_of(emitted)) == update_spec(old(self)@, action@),
    {
        match self {
            Component::Menu(m) => m.update(action),
            Component::Info(i) => {
                match action {
                    Action::Error(message) => {
                        i.update_content(message.as_str());
                    },
                    Action::LogMessage(message) => {
                        i.update_content(message.as_str());
                    },
                    _ => {},
                }
                None
            },
            _ => None,
        }
    }
}

} // verus!
