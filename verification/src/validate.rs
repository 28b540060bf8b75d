//! The line-editor validator: whether a buffer may be submitted.

use vstd::prelude::*;

use crate::parser::parse_command;
use crate::parser::parse_command_spec;
use crate::parser::ParseError;
use crate::parser::ParseErrorView;

verus! {

/// Decides, per keystroke, whether the typed buffer forms a complete
/// command or the editor should keep reading continuation lines.
pub struct YspValidator;

impl YspValidator {
    /// Whether the buffer may be submitted: anything but an incomplete
    /// parse is submittable; `Incomplete` keeps the editor reading.
    pub fn complete(line: &str) -> (r: bool)
        ensures
            r == !(parse_command_spec(line@) matches Err(ParseErrorView::Incomplete(_))),
    {
        match parse_command(line) {
            Err(ParseError::Incomplete(_)) => false,
            _ => true,
        }
    }
}

} // verus!
