//! The session context: the current connection, the prompt, the last
//! parsed command, and display toggles.

use vstd::prelude::*;

use crate::command::Command;

verus! {

/// What the session knows of its live connection; the driver handle
/// itself lives with the caller.
#[derive(Debug)]
pub struct ConnectionWrapper {
    pub host: String,
    pub port: u16,
    pub username: String,
}

/// The prompt state: a fixed neutral label when disconnected, the
/// connection label once connected.
#[derive(Debug)]
pub enum Prompt {
    Ready,
    Connected(String),
}

impl Default for Prompt {
    /// The disconnected prompt.
    fn default() -> (r: Self)
        ensures
            r is Ready,
    {
        Prompt::Ready
    }
}

impl Prompt {
    /// The prompt's label text: the neutral label when disconnected, the
    /// connection label otherwise.
    pub fn text(&self) -> (r: String)
        ensures
            *self is Ready ==> r@ == "SQL"@,
            *self matches Prompt::Connected(c) ==> r@ == c@,
    {
        match self {
            Prompt::Ready => "SQL".to_owned(),
            Prompt::Connected(c) => c.clone(),
        }
    }

    /// A value-equal copy.
    pub fn duplicate(&self) -> (r: Prompt)
        ensures
            r is Ready <==> *self is Ready,
            *self matches Prompt::Connected(c) ==> (r matches Prompt::Connected(d) && d@ == c@),
    {
        match self {
            Prompt::Ready => Prompt::Ready,
            Prompt::Connected(c) => Prompt::Connected(c.clone()),
        }
    }
}

/// Mutable, single-owner state for the life of the process.
pub struct Context {
    pub connection: Option<ConnectionWrapper>,
    pub prompt_conn: Prompt,
    pub last_command: Option<Command>,
    pub need_echo: bool,
    pub less_enabled: bool,
}

impl Default for Context {
    /// A fresh session: no connection, neutral prompt, no command yet,
    /// both display toggles off.
    fn default() -> (r: Self)
        ensures
            r.connection is None,
            r.prompt_conn is Ready,
            r.last_command is None,
            !r.need_echo,
            !r.less_enabled,
    {
        Context {
            connection: None,
            prompt_conn: Prompt::Ready,
            last_command: None,
            need_echo: false,
            less_enabled: false,
        }
    }
}

impl Context {
    /// The current prompt.
    pub fn get_prompt(&self) -> (r: Prompt)
        ensures
            r is Ready <==> self.prompt_conn is Ready,
            self.prompt_conn matches Prompt::Connected(c) ==> (r matches Prompt::Connected(d)
                && d@ == c@),
    {
        self.prompt_conn.duplicate()
    }

    /// Replace the prompt.
    pub fn set_prompt(&mut self, prompt: Prompt)
        ensures
            final(self).prompt_conn == prompt,
            final(self).connection == old(self).connection,
            final(self).last_command == old(self).last_command,
            final(self).need_echo == old(self).need_echo,
            final(self).less_enabled == old(self).less_enabled,
    {
        self.prompt_conn = prompt;
    }

    /// The current connection, if any.
    pub fn get_connection(&self) -> (r: Option<&ConnectionWrapper>)
        ensures
            r is Some <==> self.connection is Some,
            r matches Some(c) ==> self.connection matches Some(d) && *c == d,
    {
        self.connection.as_ref()
    }

    /// Replace the connection wholesale.
    pub fn set_connection(&mut self, conn: Option<ConnectionWrapper>)
        ensures
            final(self).connection == conn,
            final(self).prompt_conn == old(self).prompt_conn,
            final(self).last_command == old(self).last_command,
            final(self).need_echo == old(self).need_echo,
            final(self).less_enabled == old(self).less_enabled,
    {
        self.connection = conn;
    }

    /// The last parsed command.
    pub fn get_command(&self) -> (r: &Option<Command>)
        ensures
            r == &self.last_command,
    {
        &self.last_command
    }

    /// Record the last parsed command.
    pub fn set_command(&mut self, command: Option<Command>)
        ensures
            final(self).last_command == command,
            final(self).connection == old(self).connection,
            final(self).prompt_conn == old(self).prompt_conn,
            final(self).need_echo == old(self).need_echo,
            final(self).less_enabled == old(self).less_enabled,
    {
        self.last_command = command;
    }

    /// Whether executed commands are echoed.
    pub fn need_echo(&self) -> (r: bool)
        ensures
            r == self.need_echo,
    {
        self.need_echo
    }

    /// Toggle command echoing.
    pub fn set_need_echo(&mut self, need_echo: bool)
        ensures
            final(self).need_echo == need_echo,
            final(self).connection == old(self).connection,
            final(self).prompt_conn == old(self).prompt_conn,
            final(self).last_command == old(self).last_command,
            final(self).less_enabled == old(self).less_enabled,
    {
        self.need_echo = need_echo;
    }

    /// Whether long output may be paged.
    pub fn less_enabled(&self) -> (r: bool)
        ensures
            r == self.less_enabled,
    {
        self.less_enabled
    }

    /// Toggle paging of long output.
    pub fn set_less_enabled(&mut self, less_enabled: bool)
        ensures
            final(self).less_enabled == less_enabled,
            final(self).connection == old(self).connection,
            final(self).prompt_conn == old(self).prompt_conn,
            final(self).last_command == old(self).last_command,
            final(self).need_echo == old(self).need_echo,
    {
        self.less_enabled = less_enabled;
    }

    /// A successful connect installs the connection and the connected
    /// prompt label.
    pub fn connect_succeeded(&mut self, conn: ConnectionWrapper, label: String)
        ensures
            final(self).connection == Some(conn),
            final(self).prompt_conn == Prompt::Connected(label),
            final(self).last_command == old(self).last_command,
            final(self).need_echo == old(self).need_echo,
            final(self).less_enabled == old(self).less_enabled,
    {
        self.connection = Some(conn);
        self.prompt_conn = Prompt::Connected(label);
    }

    /// A failed connect or a disconnect clears the connection and returns
    /// the prompt to the neutral state.
    pub fn connect_failed(&mut self)
        ensures
            final(self).connection is None,
            final(self).prompt_conn is Ready,
            final(self).last_command == old(self).last_command,
            final(self).need_echo == old(self).need_echo,
            final(self).less_enabled == old(self).less_enabled,
    {
        self.connection = None;
        self.prompt_conn = Prompt::Ready;
    }
}

} // verus!
