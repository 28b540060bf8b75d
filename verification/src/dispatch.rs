//! The per-command decision step: what a typed command means for the
//! session, with connection defaults applied and terminators stripped.

use vstd::prelude::*;

use crate::command::Command;
use crate::command::CommandView;
use crate::command::InternalCommandView;
use crate::diag::Error;
use crate::strutil::count_lines;
use crate::strutil::dec_digits;
use crate::strutil::ends_with_char;
use crate::strutil::first_line;
use crate::strutil::first_line_str;
use crate::strutil::has_prefix;
use crate::strutil::line_count;
use crate::strutil::prefix_of;
use crate::strutil::u16_dec;

verus! {

/// What the dispatcher decides to do for one command.
#[derive(Debug)]
pub enum Action {
    /// Nothing: a comment, or no work to do.
    Nothing,
    /// Report that no connection is active and stop.
    NotConnected,
    /// Open a connection with these parameters; unset credentials are to
    /// be solicited interactively.
    Connect { host: String, port: u16, username: Option<String>, password: Option<String> },
    /// Forward this text to the database; `describe` marks a `desc`
    /// command, whose result renders column metadata only.
    Execute { sql: String, describe: bool },
    /// Run this line through a shell.
    Shell(String),
    /// Terminate the run loop.
    Exit,
}

/// The default host applied at connect time.
pub open spec fn default_host() -> Seq<char> {
    "127.0.0.1"@
}

/// The query a `desc` command is sugar for: fetch zero rows, metadata only.
pub open spec fn describe_sql(name: Seq<char>) -> Seq<char> {
    "select * from "@ + name + " where 1=2"@
}

/// SQL text with one trailing statement or block terminator stripped: the
/// terminator is interpreter syntax, not part of the statement.
pub open spec fn stripped_sql(s: Seq<char>) -> Seq<char> {
    if s.len() > 0 && (s.last() == ';' || s.last() == '/') {
        s.drop_last()
    } else {
        s
    }
}

/// Whether SQL text is a comment the dispatcher passes over silently when
/// no connection is active: its first line starts with `--`.
pub open spec fn leading_comment(s: Seq<char>) -> bool {
    prefix_of(first_line(s), "--"@)
}

/// Whether SQL text is a whole-line comment: one line starting with `--`.
pub open spec fn whole_line_comment(s: Seq<char>) -> bool {
    line_count(s) == 1 && prefix_of(s, "--"@)
}

/// Decide what one command means, given whether a connection is active.
///
/// `conn` applies the connect-time defaults; `desc` becomes its metadata
/// query; SQL has one trailing terminator stripped; commands that need a
/// connection without one report so, except comments, which do nothing.
pub fn dispatch(command: &Command, connected: bool) -> (a: Action)
    ensures
        command@ matches CommandView::Shell(t) ==> (a matches Action::Shell(sh) && sh@ == t),
        command@ matches CommandView::Internal(i) ==> (i is Exit ==> a is Exit),
        command@ matches CommandView::Internal(i) ==> (i matches InternalCommandView::Connect(c)
            ==> (a matches Action::Connect { host, port, username, password } && host@ == (
        match c.host {
            Some(h) => h,
            None => default_host(),
        }) && port == (match c.port {
            Some(p) => p,
            None => 1688u16,
        }) && crate::conn::opt_str_view(username) == c.username && crate::conn::opt_str_view(
            password,
        ) == c.password)),
        command@ matches CommandView::Internal(i) ==> (i matches InternalCommandView::Describe(
            name,
        ) ==> (if connected {
            a matches Action::Execute { sql, describe } && sql@ == describe_sql(name) && describe
        } else {
            a is NotConnected
        })),
        command@ matches CommandView::SQL(text) ==> (if !connected {
            if leading_comment(text) {
                a is Nothing
            } else {
                a is NotConnected
            }
        } else {
            if whole_line_comment(text) {
                a is Nothing
            } else {
                a matches Action::Execute { sql, describe } && sql@ == stripped_sql(text)
                    && !describe
            }
        }),
{
    match command {
        Command::Shell(t) => Action::Shell(t.clone()),
        Command::Internal(crate::command::InternalCommand::Exit) => Action::Exit,
        Command::Internal(crate::command::InternalCommand::Connect(c)) => {
            let host: String = match &c.host {
                Some(h) => h.clone(),
                None => "127.0.0.1".to_owned(),
            };
            let port: u16 = match c.port {
                Some(p) => p,
                None => 1688,
            };
            let username: Option<String> = match &c.username {
                Some(u) => Some(u.clone()),
                None => None,
            };
            let password: Option<String> = match &c.password {
                Some(p) => Some(p.clone()),
                None => None,
            };
            Action::Connect { host, port, username, password }
        },
        Command::Internal(crate::command::InternalCommand::Describe(name)) => {
            if !connected {
                Action::NotConnected
            } else {
                proof {
                    reveal_strlit("select * from ");
                    reveal_strlit(" where 1=2");
                }
                let sql = "select * from ".to_owned().concat(name.as_str()).concat(
                    " where 1=2",
                );
                assert(sql@ =~= describe_sql(name@));
                Action::Execute { sql, describe: true }
            }
        },
        Command::SQL(text) => {
            proof {
                reveal_strlit("--");
            }
            if !connected {
                let head = first_line_str(text.as_str());
                if has_prefix(head.as_str(), "--") {
                    Action::Nothing
                } else {
                    Action::NotConnected
                }
            } else {
                let lc = count_lines(text.as_str());
                if lc == 1 && has_prefix(text.as_str(), "--") {
                    Action::Nothing
                } else {
                    let n = text.as_str().unicode_len();
                    let sql: String = if ends_with_char(text.as_str(), ';') || ends_with_char(
                        text.as_str(),
                        '/',
                    ) {
                        let t = text.as_str().substring_char(0, n - 1);
                        assert(t@ =~= text@.drop_last());
                        t.to_owned()
                    } else {
                        text.clone()
                    };
                    Action::Execute { sql, describe: false }
                }
            }
        },
    }
}

/// The label a successful connect installs in the prompt:
/// `{username}@{host}:{port}`.
pub open spec fn connect_label_text(username: Seq<char>, host: Seq<char>, port: u16) -> Seq<char> {
    username + "@"@ + host + ":"@ + dec_digits(port as nat)
}

/// Build the connected-prompt label for these connection parameters.
pub fn connect_label(username: &str, host: &str, port: u16) -> (r: String)
    ensures
        r@ == connect_label_text(username@, host@, port),
{
    proof {
        reveal_strlit("@");
        reveal_strlit(":");
    }
    let r = username.to_owned().concat("@").concat(host).concat(":").concat(
        u16_dec(port).as_str(),
    );
    assert(r@ =~= connect_label_text(username@, host@, port));
    r
}

/// A per-step failure of the run loop.
#[derive(Debug)]
pub enum AppError {
    /// The input source failed or ended.
    Input(crate::input::InputError),
    /// The database reported a diagnostic.
    Client(Error),
    /// An I/O failure, carried as text.
    Io(String),
}

/// What the run loop does with a step's failure.
#[derive(Debug, PartialEq, Eq, Structural)]
pub enum Directive {
    /// End the loop normally.
    Stop,
    /// Continue silently.
    Ignore,
    /// Report the failure and continue.
    Report,
    /// Unrecoverable: propagate out of the process.
    Fatal,
}

/// Route a step failure: end of input stops the loop normally, a
/// cancelled read is passed over silently, and a failure of the input
/// source itself — other than a parse error — is unrecoverable and
/// propagates as a process-level failure; parse errors and every
/// per-command failure are reported and the loop accepts the next
/// command.
pub fn error_directive(e: &AppError) -> (d: Directive)
    ensures
        *e matches AppError::Input(i) ==> (i is Eof ==> d == Directive::Stop),
        *e matches AppError::Input(i) ==> (i is Cancelled ==> d == Directive::Ignore),
        *e matches AppError::Input(i) ==> (i is Parse ==> d == Directive::Report),
        *e matches AppError::Input(i) ==> (i is Io || i is Unknown ==> d == Directive::Fatal),
        *e is Client || *e is Io ==> d == Directive::Report,
{
    match e {
        AppError::Input(i) => match i {
            crate::input::InputError::Eof => Directive::Stop,
            crate::input::InputError::Cancelled => Directive::Ignore,
            crate::input::InputError::Parse(_) => Directive::Report,
            crate::input::InputError::Io(_) => Directive::Fatal,
            crate::input::InputError::Unknown(_) => Directive::Fatal,
        },
        AppError::Client(_) => Directive::Report,
        AppError::Io(_) => Directive::Report,
    }
}

} // verus!
