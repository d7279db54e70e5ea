//! The commands that flow through the runtime.

use vstd::prelude::*;

verus! {

/// An abstract command, decoupled from whatever triggered it.
///
/// Actions are produced by key resolution and by components, queued on the
/// bus and delivered to every component in arrival order.
#[derive(Debug, PartialEq, Eq)]
pub enum Action {
    Select,
    Next,
    Prev,
    InstallNeovimNightly,
    InstallNeviraide,
    CheckDeps,
    Test,
    Tick,
    Render,
    Resize(u16, u16),
    Suspend,
    Resume,
    Quit,
    Refresh,
    Error(String),
    LogMessage(String),
    Help,
}

/// The mathematical value of an [`Action`]: messages are sequences of
/// characters.
pub enum ActionView {
    Select,
    Next,
    Prev,
    InstallNeovimNightly,
    InstallNeviraide,
    CheckDeps,
    Test,
    Tick,
    Render,
    Resize(u16, u16),
    Suspend,
    Resume,
    Quit,
    Refresh,
    Error(Seq<char>),
    LogMessage(Seq<char>),
    Help,
}

impl View for Action {
    type V = ActionView;

    open spec fn view(&self) -> ActionView {
        match *self {
            Action::Select => ActionView::Select,
            Action::Next => ActionView::Next,
            Action::Prev => ActionView::Prev,
            Action::InstallNeovimNightly => ActionView::InstallNeovimNightly,
            Action::InstallNeviraide => ActionView::InstallNeviraide,
            Action::CheckDeps => ActionView::CheckDeps,
            Action::Test => ActionView::Test,
            Action::Tick => ActionView::Tick,
            Action::Render => ActionView::Render,
            Action::Resize(w, h) => ActionView::Resize(w, h),
            Action::Suspend => ActionView::Suspend,
            Action::Resume => ActionView::Resume,
            Action::Quit => ActionView::Quit,
            Action::Refresh => ActionView::Refresh,
            Action::Error(m) => ActionView::Error(m@),
            Action::LogMessage(m) => ActionView::LogMessage(m@),
            Action::Help => ActionView::Help,
        }
    }
}

impl Clone for Action {
    fn clone(&self) -> (r: Action)
        ensures
            r == *self,
    {
        match self {
            Action::Select => Action::Select,
            Action::Next => Action::Next,
            Action::Prev => Action::Prev,
            Action::InstallNeovimNightly => Action::InstallNeovimNightly,
            Action::InstallNeviraide => Action::InstallNeviraide,
            Action::CheckDeps => Action::CheckDeps,
            Action::Test => Action::Test,
            Action::Tick => Action::Tick,
            Action::Render => Action::Render,
            Action::Resize(w, h) => Action::Resize(*w, *h),
            Action::Suspend => Action::Suspend,
            Action::Resume => Action::Resume,
            Action::Quit => Action::Quit,
            Action::Refresh => Action::Refresh,
            Action::Error(m) => Action::Error(m.clone()),
            Action::LogMessage(m) => Action::LogMessage(m.clone()),
            Action::Help => Action::Help,
        }
    }
}

/// The views of a sequence of actions, in order.
pub open spec fn views(actions: Seq<Action>) -> Seq<ActionView> {
    actions.map_values(|a: Action| a@)
}

impl ActionView {
    /// The variant's name, as it is displayed.
    pub open spec fn name(self) -> Seq<char> {
        match self {
            ActionView::Select => "Select"@,
            ActionView::Next => "Next"@,
            ActionView::Prev => "Prev"@,
            ActionView::InstallNeovimNightly => "InstallNeovimNightly"@,
            ActionView::InstallNeviraide => "InstallNeviraide"@,
            ActionView::CheckDeps => "CheckDeps"@,
            ActionView::Test => "Test"@,
            ActionView::Tick => "Tick"@,
            ActionView::Render => "Render"@,
            ActionView::Resize(_, _) => "Resize"@,
            ActionView::Suspend => "Suspend"@,
            ActionView::Resume => "Resume"@,
            ActionView::Quit => "Quit"@,
            ActionView::Refresh => "Refresh"@,
            ActionView::Error(_) => "Error"@,
            ActionView::LogMessage(_) => "LogMessage"@,
            ActionView::Help => "Help"@,
        }
    }
}

impl Action {
    /// The variant's name, without its payload.
    pub fn name(&self) -> (r: &'static str)
        ensures
            r@ == self@.name(),
    {
        match self {
            Action::Select => "Select",
            Action::Next => "Next",
            Action::Prev => "Prev",
            Action::InstallNeovimNightly => "InstallNeovimNightly",
            Action::InstallNeviraide => "InstallNeviraide",
            Action::CheckDeps => "CheckDeps",
            Action::Test => "Test",
            Action::Tick => "Tick",
            Action::Render => "Render",
            Action::Resize(_, _) => "Resize",
            Action::Suspend => "Suspend",
            Action::Resume => "Resume",
            Action::Quit => "Quit",
            Action::Refresh => "Refresh",
            Action::Error(_) => "Error",
            Action::LogMessage(_) => "LogMessage",
            Action::Help => "Help",
        }
    }
}

} // verus!
