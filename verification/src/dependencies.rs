//! The programs that the installer needs, and how they are installed.

use crate::text::optional_text;
use vstd::prelude::*;
use vstd::string::StringExecFns;

verus! {

broadcast use vstd::string::group_string_axioms;

/// A program that the installer needs.
#[derive(Debug)]
pub struct Dependency {
    name: String,
    command: String,
    package_manager: String,
    install_command: String,
    description: String,
    git_repo: Option<String>,
    optional: bool,
}

/// The mathematical value of a [`Dependency`].
pub struct DependencyView {
    pub name: Seq<char>,
    pub command: Seq<char>,
    pub package_manager: Seq<char>,
    pub install_command: Seq<char>,
    pub description: Seq<char>,
    pub git_repo: Option<Seq<char>>,
    pub optional: bool,
}

impl View for Dependency {
    type V = DependencyView;

    closed spec fn view(&self) -> DependencyView {
        DependencyView {
            name: self.name@,
            command: self.command@,
            package_manager: self.package_manager@,
            install_command: self.install_command@,
            description: self.description@,
            git_repo: optional_text(self.git_repo),
            optional: self.optional,
        }
    }
}

impl Clone for Dependency {
    fn clone(&self) -> (d: Dependency)
        ensures
            d@ == self@,
    {
        Dependency {
            name: self.name.clone(),
            command: self.command.clone(),
            package_manager: self.package_manager.clone(),
            install_command: self.install_command.clone(),
            description: self.description.clone(),
            git_repo: match &self.git_repo {
                Some(r) => Some(r.clone()),
                None => None,
            },
            optional: self.optional,
        }
    }
}

/// Whether the search for a program found it: the search ran and printed
/// something.
pub open spec fn found(printed: Option<usize>) -> bool {
    match printed {
        Some(n) => n > 0,
        None => false,
    }
}

/// What an installation comes to: nothing to report where it succeeded,
/// else the message that names the program.
pub open spec fn install_outcome(name: Seq<char>, succeeded: bool) -> Result<(), Seq<char>> {
    if succeeded {
        Ok(())
    } else {
        Err("Failed to install "@ + name)
    }
}

impl Dependency {
    /// A program from its description.
    pub fn new(
        name: &str,
        command: &str,
        package_manager: &str,
        install_command: &str,
        description: &str,
        git_repo: Option<String>,
        optional: bool,
    ) -> (d: Dependency)
        ensures
            d@ == (DependencyView {
                name: name@,
                command: command@,
                package_manager: package_manager@,
                install_command: install_command@,
                description: description@,
                git_repo: optional_text(git_repo),
                optional,
            }),
    {
        Dependency {
            name: name.to_string(),
            command: command.to_string(),
            package_manager: package_manager.to_string(),
            install_command: install_command.to_string(),
            description: description.to_string(),
            git_repo,
            optional,
        }
    }

    /// Whether the program is installed, given what the search for its
    /// command came to: the number of bytes that the search printed, or
    /// `None` where the search could not be run.
    pub fn is_installed(&self, printed: Option<usize>) -> (r: bool)
        ensures
            r == found(printed),
    {
        match printed {
            Some(n) => n != 0,
            None => false,
        }
    }

    /// What the installation comes to, given whether the install command
    /// ran and succeeded.
    pub fn install(&self, succeeded: bool) -> (r: Result<(), String>)
        ensures
            match r {
                Ok(()) => install_outcome(self@.name, succeeded) is Ok,
                Err(message) => install_outcome(self@.name, succeeded) == Err::<(), Seq<char>>(
                    message@,
                ),
            },
    {
        if succeeded {
            Ok(())
        } else {
            Err("Failed to install ".to_string().concat(self.name.as_str()))
        }
    }

    /// The program's name.
    pub fn name(&self) -> (r: &str)
        ensures
            r@ == self@.name,
    {
        self.name.as_str()
    }

    /// The command by which the program is searched for.
    pub fn command(&self) -> (r: &str)
        ensures
            r@ == self@.command,
    {
        self.command.as_str()
    }

    /// The package manager that installs the program.
    pub fn package_manager(&self) -> (r: &str)
        ensures
            r@ == self@.package_manager,
    {
        self.package_manager.as_str()
    }

    /// The command that installs the program.
    pub fn install_command(&self) -> (r: &str)
        ensures
            r@ == self@.install_command,
    {
        self.install_command.as_str()
    }

    /// What the program is for.
    pub fn description(&self) -> (r: &str)
        ensures
            r@ == self@.description,
    {
        self.description.as_str()
    }

    /// Where the program's source is kept.
    pub fn git_repo(&self) -> (r: Option<&str>)
        ensures
            match r {
                Some(repo) => self@.git_repo == Some(repo@),
                None => self@.git_repo is None,
            },
    {
        match &self.git_repo {
            Some(repo) => Some(repo.as_str()),
            None => None,
        }
    }

    /// Whether the installer can do without the program.
    pub fn optional(&self) -> (r: bool)
        ensures
            r == self@.optional,
    {
        self.optional
    }
}

} // verus!
