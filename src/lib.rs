//! Start-menu integration on Windows: the directories that menu entries go
//! to, the launch commands of shortcuts and associations, and the record of
//! what an installation created so that it can be removed again.
use vstd::prelude::*;

pub mod lex;
pub mod text;
pub mod tracker;
pub mod windows;

verus! {

/// Whether menu entries are installed for the current user or for all users.
#[derive(Clone, Copy, Debug, PartialEq, Eq, Structural)]
pub enum MenuMode {
    User,
    System,
}

/// A special folder of the shell.
#[derive(Clone, Copy, Debug, PartialEq, Eq, Structural)]
pub enum Folder {
    Start,
    QuickLaunch,
    Desktop,
}

/// Why installing a menu item failed.
#[derive(Debug)]
pub enum MenuInstError {
    /// A required special folder could not be queried.
    DirectoryResolution(Folder),
    /// The activation environment of the prefix could not be computed.
    Activation(String),
    /// Reading or writing a file or directory failed.
    Io(String),
    /// The shell refused to create a shortcut.
    ShortcutCreation(String),
    /// Writing a file-extension or URL-protocol association failed.
    Registration(String),
    /// A terminal settings file could not be read or written.
    TerminalProfile(String),
}

} // verus!
