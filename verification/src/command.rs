//! The typed commands a line of input can denote.

use vstd::prelude::*;

use crate::conn::Connection;
use crate::conn::ConnectionView;

verus! {

/// A meta-command of the client itself.
#[derive(Debug)]
pub enum InternalCommand {
    Describe(String),
    Connect(Connection),
    Exit,
}

/// What one fully-buffered input chunk denotes.
#[derive(Debug)]
pub enum Command {
    /// Raw SQL or PL/SQL text, forwarded verbatim to the database.
    SQL(String),
    /// A shell command line, run as a subprocess.
    Shell(String),
    /// A meta-command such as `conn` or `desc`.
    Internal(InternalCommand),
}

/// The mathematical shape of an [`InternalCommand`].
pub enum InternalCommandView {
    Describe(Seq<char>),
    Connect(ConnectionView),
    Exit,
}

/// The mathematical shape of a [`Command`].
pub enum CommandView {
    SQL(Seq<char>),
    Shell(Seq<char>),
    Internal(InternalCommandView),
}

impl View for InternalCommand {
    type V = InternalCommandView;

    open spec fn view(&self) -> InternalCommandView {
        match self {
            InternalCommand::Describe(name) => InternalCommandView::Describe(name@),
            InternalCommand::Connect(c) => InternalCommandView::Connect(c@),
            InternalCommand::Exit => InternalCommandView::Exit,
        }
    }
}

impl View for Command {
    type V = CommandView;

    open spec fn view(&self) -> CommandView {
        match self {
            Command::SQL(text) => CommandView::SQL(text@),
            Command::Shell(text) => CommandView::Shell(text@),
            Command::Internal(i) => CommandView::Internal(i@),
        }
    }
}

/// Which commands need an active connection: SQL and `desc` do; shell
/// escapes, `conn` and exit do not.
pub open spec fn needs_connection(c: CommandView) -> bool {
    match c {
        CommandView::SQL(_) => true,
        CommandView::Shell(_) => false,
        CommandView::Internal(i) => match i {
            InternalCommandView::Describe(_) => true,
            InternalCommandView::Connect(_) => false,
            InternalCommandView::Exit => false,
        },
    }
}

impl Command {
    /// Whether dispatching this command requires an active connection.
    ///
    /// True exactly for `SQL` and `Describe`, false for `Shell`, `Connect`
    /// and `Exit`, a pure structural property with no exceptions.
    pub fn need_connection(&self) -> (r: bool)
        ensures
            r == needs_connection(self@),
    {
        match self {
            Command::SQL(_) => true,
            Command::Shell(_) => false,
            Command::Internal(internal) => match internal {
                InternalCommand::Describe(_) => true,
                InternalCommand::Connect(_) => false,
                InternalCommand::Exit => false,
            },
        }
    }
}

} // verus!
