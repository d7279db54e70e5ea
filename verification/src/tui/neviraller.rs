//! The first screen of the installer: a frame that ends on `q`.

use crate::event::Event;
use crate::keys::{Key, KeyCode, KeyEventKind};
use vstd::prelude::*;

verus! {

/// A program that the installer depends on.
#[derive(Debug)]
pub struct Dep {
    name: String,
    command: String,
    state: bool,
}

/// The first screen.
#[derive(Debug)]
pub struct Neviraller {
    dependencies: Vec<Dep>,
    exit: bool,
}

impl Default for Neviraller {
    fn default() -> (n: Neviraller)
        ensures
            !n.should_exit(),
            n.dependencies() == Seq::<Dep>::empty(),
    {
        Neviraller { dependencies: Vec::new(), exit: false }
    }
}

/// Whether `event` ends the screen: the press of `q` does.
pub open spec fn ends(event: Event) -> bool {
    match event {
        Event::Key(key) => key.spec_kind() == KeyEventKind::Press && key.spec_code()
            == KeyCode::Char('q'),
        _ => false,
    }
}

impl Dep {
    /// A program called `name` that is run as `command`, and whether it was
    /// found.
    pub fn new(name: String, command: String, state: bool) -> (d: Dep)
        ensures
            d.spec_name() == name@,
            d.spec_command() == command@,
            d.spec_state() == state,
    {
        Dep { name, command, state }
    }

    /// The program's name.
    pub closed spec fn spec_name(&self) -> Seq<char> {
        self.name@
    }

    /// The command that runs the program.
    pub closed spec fn spec_command(&self) -> Seq<char> {
        self.command@
    }

    /// Whether the program was found.
    pub closed spec fn spec_state(&self) -> bool {
        self.state
    }

    /// The program's name.
    pub fn name(&self) -> (r: &str)
        ensures
            r@ == self.spec_name(),
    {
        self.name.as_str()
    }

    /// The command that runs the program.
    pub fn command(&self) -> (r: &str)
        ensures
            r@ == self.spec_command(),
    {
        self.command.as_str()
    }

    /// Whether the program was found.
    #[verifier::when_used_as_spec(spec_state)]
    pub fn state(&self) -> (r: bool)
        ensures
            r == self.spec_state(),
    {
        self.state
    }
}

impl Neviraller {
    /// Whether the screen is to end.
    pub closed spec fn should_exit(&self) -> bool {
        self.exit
    }

    /// The programs that the installer depends on.
    pub closed spec fn dependencies(&self) -> Seq<Dep> {
        self.dependencies@
    }

    /// Ends the screen.
    fn exit(&mut self)
        ensures
            final(self).should_exit(),
            final(self).dependencies() == old(self).dependencies(),
    {
        self.exit = true;
    }

    /// Applies a key: `q` ends the screen.
    pub fn handle_key_event(&mut self, key_event: Key)
        ensures
            final(self).should_exit() == (old(self).should_exit() || key_event.spec_code()
                == KeyCode::Char('q')),
            final(self).dependencies() == old(self).dependencies(),
    {
        match key_event.code() {
            KeyCode::Char(c) => {
                if c == 'q' {
                    self.exit();
                }
            },
            _ => {},
        }
    }

    /// Applies an event of the terminal: only the press of a key counts.
    pub fn handle_events(&mut self, event: &Event)
        ensures
            final(self).should_exit() == (old(self).should_exit() || ends(*event)),
            final(self).dependencies() == old(self).dependencies(),
    {
        match event {
            Event::Key(key_event) => {
                if key_event.kind() == KeyEventKind::Press {
                    self.handle_key_event(*key_event);
                }
            },
            _ => {},
        }
    }

    /// Whether the screen is to end.
    pub fn is_done(&self) -> (r: bool)
        ensures
            r == self.should_exit(),
    {
        self.exit
    }
}

} // verus!
