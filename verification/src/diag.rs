//! Structured driver diagnostics and their user-presentable rendering.

use vstd::prelude::*;

use crate::conn::opt_str_view;
use crate::strutil::dec_int;
use crate::strutil::i32_dec;
use crate::strutil::line_at;
use crate::strutil::nth_line;
use crate::strutil::pad_zeros;
use crate::strutil::parse_i32;
use crate::strutil::parse_i32_spec;
use crate::strutil::repeat_char;
use crate::strutil::spaces;
use crate::strutil::split_once_char;
use crate::strutil::split_once_ch;
use crate::strutil::trim_end_chars;
use crate::strutil::trim_end_in;
use crate::strutil::trim_start_ch;
use crate::strutil::trim_start_char;
use crate::strutil::zero_pad;
use crate::strutil::first_line;
use crate::strutil::str_eq;

verus! {

/// A diagnostic record from the database driver. `pos == (0, 0)` means
/// "no source position"; a non-zero position together with the submitted
/// SQL text lets the renderer point at the failing token.
#[derive(Debug)]
pub struct DiagInfo {
    pub message: String,
    pub sql_state: String,
    pub code: i32,
    pub pos: (i32, i32),
    pub sql: Option<String>,
}

/// The one-line summary form: `YAS-{code:0>5}: {message} (SQL State: {state})`.
pub open spec fn summary_text(code: int, message: Seq<char>, sql_state: Seq<char>) -> Seq<char> {
    "YAS-"@ + zero_pad(dec_int(code), 5) + ": "@ + message + " (SQL State: "@ + sql_state + ")"@
}

/// The numbered heading before a quoted source line: `  {line} | `.
pub open spec fn heading_text(line: int) -> Seq<char> {
    "  "@ + dec_int(line) + " | "@
}

/// The caret line under a quoted source line, indented so the caret sits
/// beneath the offending (1-based) column: `{indent}^ {message}`.
pub open spec fn pointer_text(heading_len: nat, column: int, message: Seq<char>) -> Seq<char> {
    repeat_char(' ', (heading_len + (if column >= 1 {
        column - 1
    } else {
        0
    })) as nat) + "^ "@ + message
}

/// What rendering a diagnostic yields. With no position, the summary
/// form; with a position and non-empty SQL text and a positive line
/// number, the quoted source line and the caret line; otherwise the raw
/// message alone.
pub open spec fn diag_text(
    message: Seq<char>,
    sql_state: Seq<char>,
    code: int,
    line: int,
    column: int,
    sql: Option<Seq<char>>,
) -> Seq<char> {
    if line == 0 && column == 0 {
        summary_text(code, message, sql_state)
    } else {
        match sql {
            Some(sq) => if sq.len() == 0 || line < 1 {
                message
            } else {
                let heading = heading_text(line);
                heading + nth_line(sq, (line - 1) as nat) + seq!['\n'] + pointer_text(
                    heading.len(),
                    column,
                    message,
                )
            },
            None => message,
        }
    }
}

impl DiagInfo {
    /// Render the diagnostic as [`diag_text`] says.
    pub fn render(&self) -> (r: String)
        ensures
            r@ == diag_text(
                self.message@,
                self.sql_state@,
                self.code as int,
                self.pos.0 as int,
                self.pos.1 as int,
                opt_str_view(self.sql),
            ),
    {
        proof {
            reveal_strlit("YAS-");
            reveal_strlit(": ");
            reveal_strlit(" (SQL State: ");
            reveal_strlit(")");
            reveal_strlit("  ");
            reveal_strlit(" | ");
            reveal_strlit("\n");
            reveal_strlit("^ ");
        }
        let (line, column) = self.pos;
        if line == 0 && column == 0 {
            let padded = pad_zeros(i32_dec(self.code), 5);
            let r = "YAS-".to_owned().concat(padded.as_str()).concat(": ").concat(
                self.message.as_str(),
            ).concat(" (SQL State: ").concat(self.sql_state.as_str()).concat(")");
            assert(r@ =~= summary_text(self.code as int, self.message@, self.sql_state@));
            r
        } else {
            match &self.sql {
                Some(sq) => {
                    if sq.as_str().unicode_len() == 0 || line < 1 {
                        self.message.clone()
                    } else {
                        let heading = "  ".to_owned().concat(i32_dec(line).as_str()).concat(
                            " | ",
                        );
                        assert(heading@ =~= heading_text(line as int));
                        let source = line_at(sq.as_str(), (line - 1) as usize);
                        let hlen = heading.as_str().unicode_len();
                        let extra: usize = if column >= 1 {
                            (column - 1) as usize
                        } else {
                            0
                        };
                        let indent = spaces(hlen).concat(spaces(extra).as_str());
                        proof {
                            crate::strutil::lemma_repeat_add(' ', hlen as nat, extra as nat);
                        }
                        let pointer = indent.concat("^ ").concat(self.message.as_str());
                        assert(pointer@ =~= pointer_text(
                            heading@.len(),
                            column as int,
                            self.message@,
                        ));
                        let r = heading.concat(source.as_str()).concat("\n").concat(
                            pointer.as_str(),
                        );
                        assert(r@ =~= diag_text(
                            self.message@,
                            self.sql_state@,
                            self.code as int,
                            line as int,
                            column as int,
                            opt_str_view(self.sql),
                        ));
                        r
                    }
                },
                None => self.message.clone(),
            }
        }
    }
}

/// What unpacking a `PL/SQL compiling errors:` diagnostic yields: the
/// second line's `[line:column]` prefix parsed out and the rest as the
/// message; any shape mismatch keeps the message and fallback position.
pub open spec fn plsql_refined(message: Seq<char>, fb_line: int, fb_col: int) -> (
    Seq<char>,
    int,
    int,
) {
    if first_line(message) == "PL/SQL compiling errors:"@ {
        match split_once_ch(nth_line(message, 1), ' ') {
            Some(p) => {
                let pos_part = trim_end_in(trim_start_ch(p.0, '['), ']', ']');
                match split_once_ch(pos_part, ':') {
                    Some(q) => match (parse_i32_spec(q.0), parse_i32_spec(q.1)) {
                        (Some(l), Some(c)) => (p.1, l as int, c as int),
                        _ => (message, fb_line, fb_col),
                    },
                    None => (message, fb_line, fb_col),
                }
            },
            None => (message, fb_line, fb_col),
        }
    } else {
        (message, fb_line, fb_col)
    }
}

/// Unpack a multi-line `PL/SQL compiling errors:` message into its real
/// message and embedded position, as [`plsql_refined`] says.
pub fn refine_plsql_message(message: &str, fb_line: i32, fb_col: i32) -> (r: (String, i32, i32))
    ensures
        ({
            let m = plsql_refined(message@, fb_line as int, fb_col as int);
            r.0@ == m.0 && r.1 as int == m.1 && r.2 as int == m.2
        }),
{
    proof {
        reveal_strlit("PL/SQL compiling errors:");
    }
    let head = crate::strutil::first_line_str(message);
    if !str_eq(head.as_str(), "PL/SQL compiling errors:") {
        return (message.to_owned(), fb_line, fb_col);
    }
    let second = line_at(message, 1);
    match split_once_char(second.as_str(), ' ') {
        Some((pos_str, rest)) => {
            let pos_part = trim_end_chars(
                trim_start_char(pos_str.as_str(), '[').as_str(),
                ']',
                ']',
            );
            match split_once_char(pos_part.as_str(), ':') {
                Some((l_str, c_str)) => match (parse_i32(l_str.as_str()), parse_i32(
                    c_str.as_str(),
                )) {
                    (Some(l), Some(c)) => (rest, l, c),
                    _ => (message.to_owned(), fb_line, fb_col),
                },
                None => (message.to_owned(), fb_line, fb_col),
            }
        },
        None => (message.to_owned(), fb_line, fb_col),
    }
}

/// Build the diagnostic record for a raw driver report, unpacking the
/// `PL/SQL compiling errors:` shape when present.
pub fn build_diag(
    message: String,
    sql_state: String,
    code: i32,
    line: i32,
    column: i32,
    sql: Option<String>,
) -> (d: DiagInfo)
    ensures
        ({
            let m = plsql_refined(message@, line as int, column as int);
            d.message@ == m.0 && d.pos.0 as int == m.1 && d.pos.1 as int == m.2
        }),
        d.sql_state@ == sql_state@,
        d.code == code,
        opt_str_view(d.sql) == opt_str_view(sql),
{
    let (msg, l, c) = refine_plsql_message(message.as_str(), line, column);
    DiagInfo { message: msg, sql_state, code, pos: (l, c), sql }
}

/// A client-level error: a driver diagnostic, or anything else, carried
/// as text.
#[derive(Debug)]
pub enum Error {
    YasClient(DiagInfo),
    Other(String),
}

impl Error {
    /// Render the error: diagnostics as [`diag_text`] says, anything else
    /// as its text.
    pub fn render(&self) -> (r: String)
        ensures
            *self matches Error::YasClient(d) ==> r@ == diag_text(
                d.message@,
                d.sql_state@,
                d.code as int,
                d.pos.0 as int,
                d.pos.1 as int,
                opt_str_view(d.sql),
            ),
            *self matches Error::Other(t) ==> r@ == t@,
    {
        match self {
            Error::YasClient(d) => d.render(),
            Error::Other(t) => t.clone(),
        }
    }
}

} // verus!
