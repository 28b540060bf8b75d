//! Classifying a raw input chunk as a typed command, with multi-line
//! completeness detection for SQL and PL/SQL blocks.

use vstd::prelude::*;

use crate::command::Command;
use crate::command::CommandView;
use crate::command::InternalCommand;
use crate::command::InternalCommandView;
use crate::conn::conn_spec;
use crate::conn::parse_connection_string;
use crate::conn::ConnParsingError;
use crate::strutil::count_lines;
use crate::strutil::ends_with_char;
use crate::strutil::has_prefix;
use crate::strutil::last_line;
use crate::strutil::last_line_str;
use crate::strutil::line_count;
use crate::strutil::prefix_of;
use crate::strutil::str_eq;
use crate::strutil::trim_end_chars;
use crate::strutil::trim_end_in;
use crate::strutil::count_nl;
use crate::strutil::lemma_count_nl_add;
use crate::strutil::last_seg;
use crate::strutil::effective_end;

verus! {

/// Why a chunk does not yet denote a command.
#[derive(Debug)]
pub enum ParseError {
    /// Blank input; silently ignored.
    Empty,
    /// More input is needed; the payload is the text read so far.
    Incomplete(String),
    /// A malformed meta-command, such as a bad connection string.
    ParsingError { err: ConnParsingError, command: String },
}

/// The mathematical shape of a [`ParseError`].
pub enum ParseErrorView {
    Empty,
    Incomplete(Seq<char>),
    ParsingError { err: ConnParsingError, command: Seq<char> },
}

impl View for ParseError {
    type V = ParseErrorView;

    open spec fn view(&self) -> ParseErrorView {
        match self {
            ParseError::Empty => ParseErrorView::Empty,
            ParseError::Incomplete(text) => ParseErrorView::Incomplete(text@),
            ParseError::ParsingError { err, command } => ParseErrorView::ParsingError {
                err: *err,
                command: command@,
            },
        }
    }
}

/// The view of a parse result.
pub open spec fn parse_result_view(r: Result<Command, ParseError>) -> Result<
    CommandView,
    ParseErrorView,
> {
    match r {
        Ok(c) => Ok(c@),
        Err(e) => Err(e@),
    }
}

/// The view of an optional parse result.
pub open spec fn internal_result_view(r: Option<Result<Command, ParseError>>) -> Option<
    Result<CommandView, ParseErrorView>,
> {
    match r {
        Some(x) => Some(parse_result_view(x)),
        None => None,
    }
}

/// What parsing a `desc` or `conn` meta-command yields; `None` when the
/// chunk carries neither prefix.
pub open spec fn internal_spec(s: Seq<char>) -> Option<Result<CommandView, ParseErrorView>> {
    if prefix_of(s, "desc "@) {
        let rest = s.skip(5);
        Some(
            if rest.len() > 0 && rest.last() == ';' {
                Ok(
                    CommandView::Internal(
                        InternalCommandView::Describe(trim_end_in(rest, ';', ';')),
                    ),
                )
            } else {
                Err(ParseErrorView::Incomplete(s))
            },
        )
    } else if prefix_of(s, "conn "@) {
        Some(
            match conn_spec(s.skip(5)) {
                Ok(m) => Ok(CommandView::Internal(InternalCommandView::Connect(m))),
                Err(e) => Err(ParseErrorView::ParsingError { err: e, command: s }),
            },
        )
    } else {
        None
    }
}

/// Whether a chunk that is treated as SQL is complete: a single line must
/// be a whole-line comment or end with `;`; a multi-line block is complete
/// only when its last line is exactly `/`.
pub open spec fn sql_complete(s: Seq<char>) -> bool {
    let single = line_count(s) == 1;
    let lastl = last_line(s);
    (single && (prefix_of(lastl, "--"@) || (s.len() > 0 && s.last() == ';'))) || (!single && lastl
        == "/"@)
}

/// What parsing one fully-buffered input chunk yields.
pub open spec fn parse_command_spec(s: Seq<char>) -> Result<CommandView, ParseErrorView> {
    if s.len() == 0 {
        Err(ParseErrorView::Empty)
    } else if s[0] == '!' {
        Ok(CommandView::Shell(s.skip(1)))
    } else {
        match internal_spec(s) {
            Some(r) => r,
            None => if sql_complete(s) {
                Ok(CommandView::SQL(s))
            } else {
                Err(ParseErrorView::Incomplete(s))
            },
        }
    }
}

/// Parse a `desc ...;` or `conn ...` meta-command; `None` when the chunk
/// starts with neither prefix.
pub fn parse_internal_command(command: &str) -> (r: Option<Result<Command, ParseError>>)
    ensures
        internal_result_view(r) == internal_spec(command@),
{
    proof {
        reveal_strlit("desc ");
        reveal_strlit("conn ");
    }
    let n: usize = command.unicode_len();
    if has_prefix(command, "desc ") {
        let rest = command.substring_char(5, n);
        assert(rest@ =~= command@.skip(5));
        if ends_with_char(rest, ';') {
            let name = trim_end_chars(rest, ';', ';');
            Some(Ok(Command::Internal(InternalCommand::Describe(name))))
        } else {
            Some(Err(ParseError::Incomplete(command.to_owned())))
        }
    } else if has_prefix(command, "conn ") {
        let rest = command.substring_char(5, n);
        assert(rest@ =~= command@.skip(5));
        match parse_connection_string(rest) {
            Ok(c) => Some(Ok(Command::Internal(InternalCommand::Connect(c)))),
            Err(e) => Some(
                Err(ParseError::ParsingError { err: e, command: command.to_owned() }),
            ),
        }
    } else {
        None
    }
}

/// Classify one fully-buffered input chunk.
///
/// Empty input is `Empty`; a leading `!` is a shell escape; `desc` and
/// `conn` prefixes are meta-commands; everything else is SQL, complete
/// only as [`sql_complete`] says.
pub fn parse_command(command: &str) -> (r: Result<Command, ParseError>)
    ensures
        parse_result_view(r) == parse_command_spec(command@),
{
    let n: usize = command.unicode_len();
    if n == 0 {
        return Err(ParseError::Empty);
    }
    if command.get_char(0) == '!' {
        let shell = command.substring_char(1, n);
        assert(shell@ =~= command@.skip(1));
        return Ok(Command::Shell(shell.to_owned()));
    }
    match parse_internal_command(command) {
        Some(r) => r,
        None => {
            let lc: usize = count_lines(command);
            let lastl = last_line_str(command);
            proof {
                reveal_strlit("--");
                reveal_strlit("/");
            }
            let complete: bool = if lc == 1 {
                has_prefix(lastl.as_str(), "--") || ends_with_char(command, ';')
            } else {
                str_eq(lastl.as_str(), "/")
            };
            if complete {
                Ok(Command::SQL(command.to_owned()))
            } else {
                Err(ParseError::Incomplete(command.to_owned()))
            }
        },
    }
}

/// An `Incomplete` outcome always hands the parsed text back unchanged:
/// no information is lost across the continuation boundary.
pub proof fn lemma_incomplete_keeps_text(s: Seq<char>)
    ensures
        parse_command_spec(s) matches Err(ParseErrorView::Incomplete(t)) ==> t == s,
{
}

/// Re-parsing the text an `Incomplete` outcome handed back, with the
/// missing terminator appended — `;` for a `desc` meta-command, a line
/// holding only `/` for anything else — always yields a complete command.
pub proof fn lemma_incomplete_then_terminated(s: Seq<char>)
    requires
        parse_command_spec(s) matches Err(ParseErrorView::Incomplete(_)),
    ensures
        prefix_of(s, "desc "@) ==> parse_command_spec(s + ";"@) is Ok,
        !prefix_of(s, "desc "@) ==> parse_command_spec(s + "\n/"@) is Ok,
{
    reveal_strlit("desc ");
    reveal_strlit("conn ");
    reveal_strlit(";");
    reveal_strlit("\n/");
    reveal_strlit("/");
    reveal_strlit("--");
    assert(s.len() > 0);
    assert(s[0] != '!');
    if prefix_of(s, "desc "@) {
        let t = s + ";"@;
        assert(t[0] == s[0]);
        assert(prefix_of(t, "desc "@)) by {
            assert(t.take(5) =~= s.take(5));
        }
        let rest = t.skip(5);
        assert(rest.len() > 0 && rest.last() == ';');
        assert(parse_command_spec(t) is Ok);
    } else {
        let t = s + "\n/"@;
        assert(t.len() == s.len() + 2);
        assert(t[0] == s[0]);
        if prefix_of(t, "desc "@) {
            if s.len() >= 5 {
                assert(s.take(5) =~= t.take(5));
            } else {
                assert(t[s.len() as int] == '\n');
                assert(t.take(5)[s.len() as int] == '\n');
            }
            assert(false);
        }
        if prefix_of(t, "conn "@) {
            if s.len() >= 5 {
                assert(s.take(5) =~= t.take(5));
                assert(prefix_of(s, "conn "@));
                assert(!(parse_command_spec(s) matches Err(ParseErrorView::Incomplete(_))));
            } else {
                assert(t[s.len() as int] == '\n');
                assert(t.take(5)[s.len() as int] == '\n');
            }
            assert(false);
        }
        assert(t.take(t.len() - 1) =~= s + seq!['\n']);
        lemma_count_nl_add(s, seq!['\n']);
        assert(count_nl(Seq::<char>::empty()) == 0);
        assert(count_nl(seq!['\n']) == 1) by {
            assert(count_nl(Seq::<char>::empty()) == 0);
            assert(seq!['\n'].drop_last() =~= Seq::<char>::empty());
        }
        assert(line_count(t) >= 2);
        assert(t[t.len() - 1] == '/' && t[t.len() - 2] == '\n');
        assert(effective_end(t) == t.len());
        assert(t.take(t.len() as int) =~= t);
        assert(t.drop_last() =~= s + seq!['\n']);
        assert((s + seq!['\n']).last() == '\n');
        assert(last_seg(s + seq!['\n']) =~= Seq::<char>::empty());
        assert(last_seg(t) == last_seg(t.drop_last()) + seq![t.last()]);
        assert(last_seg(t) =~= seq!['/']);
        assert(last_line(t) == "/"@) by {
            assert(last_seg(t) =~= "/"@);
        }
        assert(parse_command_spec(t) is Ok);
    }
}

} // verus!
