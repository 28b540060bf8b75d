//! Input sources: the capability the run loop reads commands through,
//! and the source that serves one fixed command.

use vstd::prelude::*;

use crate::command::Command;
use crate::parser::parse_command;
use crate::parser::parse_command_spec;
use crate::parser::ParseError;
use crate::parser::ParseErrorView;
use crate::strutil::trim_end_chars;
use crate::strutil::trim_end_in;

verus! {

/// Why an input source yielded no command.
#[derive(Debug)]
pub enum InputError {
    /// No more commands; ends the run loop gracefully.
    Eof,
    /// The read was cancelled; not an error.
    Cancelled,
    /// The buffered text does not parse.
    Parse(ParseError),
    /// An I/O failure, carried as text.
    Io(String),
    /// Any other failure, carried as text.
    Unknown(String),
}

/// A source of commands: the next parsed command with its raw text, and
/// single raw lines for interactive prompts.
pub trait Input {
    fn get_command(&mut self) -> Result<Option<(Command, String)>, InputError>;

    fn line(&mut self, prompt: &str) -> Result<String, InputError>;
}

/// An input source that serves one fixed command, then reports Eof.
pub struct SingleCommand {
    pub command: String,
    pub gotten: bool,
}

impl SingleCommand {
    /// A source for this one command.
    pub fn new(command: String) -> (r: Self)
        ensures
            r.command == command,
            !r.gotten,
    {
        SingleCommand { command, gotten: false }
    }

    /// Serve the command on the first call, Eof afterwards.
    pub fn next_command(&mut self) -> (r: Result<Option<(Command, String)>, InputError>)
        ensures
            final(self).command == old(self).command,
            final(self).gotten,
            old(self).gotten ==> r matches Err(InputError::Eof),
            !old(self).gotten ==> match parse_command_spec(old(self).command@) {
                Ok(cv) => r matches Ok(Some(p)) && p.0@ == cv && p.1@ == old(self).command@,
                Err(ev) => r matches Err(InputError::Parse(e)) && e@ == ev,
            },
    {
        if self.gotten {
            Err(InputError::Eof)
        } else {
            self.gotten = true;
            match parse_command(self.command.as_str()) {
                Ok(c) => Ok(Some((c, self.command.clone()))),
                Err(e) => Err(InputError::Parse(e)),
            }
        }
    }
}

impl Input for SingleCommand {
    fn get_command(&mut self) -> Result<Option<(Command, String)>, InputError> {
        self.next_command()
    }

    fn line(&mut self, _prompt: &str) -> Result<String, InputError> {
        Err(InputError::Unknown("unsupported".to_owned()))
    }
}

/// What one step of a buffered reader's continuation loop decides.
pub enum FeedOutcome {
    /// The buffer parses: the command, with the trimmed text it came from.
    Complete(Command, String),
    /// The buffer is incomplete; read another line and feed again.
    NeedMore,
    /// The buffer is malformed; the loop surfaces this error.
    Rejected(ParseError),
}

/// Decide what a buffered reader does with its accumulated text: trailing
/// line terminators are trimmed, then the buffer is parsed; incomplete
/// input asks for more lines, anything else is final.
pub fn feed_buffer(buffer: &str) -> (r: FeedOutcome)
    ensures
        ({
            let trimmed = trim_end_in(buffer@, '\r', '\n');
            match parse_command_spec(trimmed) {
                Ok(cv) => r matches FeedOutcome::Complete(c, text) && c@ == cv && text@
                    == trimmed,
                Err(ev) => if ev is Incomplete {
                    r is NeedMore
                } else {
                    r matches FeedOutcome::Rejected(e) && e@ == ev
                },
            }
        }),
{
    let trimmed = trim_end_chars(buffer, '\r', '\n');
    match parse_command(trimmed.as_str()) {
        Ok(c) => FeedOutcome::Complete(c, trimmed),
        Err(e) => match e {
            ParseError::Incomplete(_) => FeedOutcome::NeedMore,
            other => FeedOutcome::Rejected(other),
        },
    }
}

} // verus!
