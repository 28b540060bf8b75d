//! Connection-string parsing: `[username][/[password]][@[host][:[port]]]`.
//!
//! A four-state scanner walks the input; the separators `/`, `@` and `:`
//! close the current field, and a synthetic end-of-input sentinel (a
//! character no legal input holds) closes the last one.

use vstd::prelude::*;

use crate::strutil::parse_u16;
use crate::strutil::parse_u16_spec;

verus! {

/// The field the scanner is currently reading.
#[derive(Debug, Clone, Copy, PartialEq, Eq, Structural)]
pub enum State {
    Username,
    Password,
    Host,
    Port,
}

/// Why a connection string was rejected.
#[derive(Debug, Clone, Copy, PartialEq, Eq, Structural)]
pub enum ConnParsingError {
    /// The port segment is not a `u16` number.
    Port,
    /// A separator appeared that is illegal in the state named here.
    Expected(State),
    /// The scanner could not consume the whole input.
    Invalid,
}

/// A partial connection descriptor; every field may still be unset.
#[derive(Debug)]
pub struct Connection {
    pub host: Option<String>,
    pub port: Option<u16>,
    pub username: Option<String>,
    pub password: Option<String>,
}

/// The mathematical shape of a [`Connection`].
pub struct ConnectionView {
    pub host: Option<Seq<char>>,
    pub port: Option<u16>,
    pub username: Option<Seq<char>>,
    pub password: Option<Seq<char>>,
}

/// The view of an optional string field.
pub open spec fn opt_str_view(o: Option<String>) -> Option<Seq<char>> {
    match o {
        Some(s) => Some(s@),
        None => None,
    }
}

impl View for Connection {
    type V = ConnectionView;

    open spec fn view(&self) -> ConnectionView {
        ConnectionView {
            host: opt_str_view(self.host),
            port: self.port,
            username: opt_str_view(self.username),
            password: opt_str_view(self.password),
        }
    }
}

impl Connection {
    /// At least one field of the descriptor is populated.
    pub fn any_valid(&self) -> (r: bool)
        ensures
            r == (self@.host is Some || self@.port is Some || self@.username is Some
                || self@.password is Some),
    {
        self.host.is_some() || self.port.is_some() || self.username.is_some()
            || self.password.is_some()
    }
}

impl Default for Connection {
    /// The descriptor with every field unset.
    fn default() -> (r: Self)
        ensures
            r@.host is None,
            r@.port is None,
            r@.username is None,
            r@.password is None,
    {
        Connection { host: None, port: None, username: None, password: None }
    }
}

/// What the scanner produced: the four captured raw segments, or an error.
pub enum ScanResult {
    Fields {
        username: Option<Seq<char>>,
        password: Option<Seq<char>>,
        host: Option<Seq<char>>,
        port: Option<Seq<char>>,
    },
    Expected(State),
    Invalid,
}

/// One pass of the scanner over the remaining input `rest`, starting in
/// state `st` with the fields captured so far and `seg` the open segment.
pub open spec fn scan_from(
    rest: Seq<char>,
    st: State,
    u: Option<Seq<char>>,
    p: Option<Seq<char>>,
    h: Option<Seq<char>>,
    seg: Seq<char>,
) -> ScanResult
    decreases rest.len(),
{
    if rest.len() == 0 {
        ScanResult::Fields {
            username: if st is Username { Some(seg) } else { u },
            password: if st is Password { Some(seg) } else { p },
            host: if st is Host { Some(seg) } else { h },
            port: if st is Port { Some(seg) } else { None },
        }
    } else {
        let c = rest[0];
        let tail = rest.skip(1);
        if c == '\u{1}' {
            ScanResult::Invalid
        } else if c == '/' {
            if st is Username {
                scan_from(tail, State::Password, Some(seg), p, h, Seq::empty())
            } else {
                ScanResult::Expected(st)
            }
        } else if c == '@' {
            if st is Username {
                scan_from(tail, State::Host, Some(seg), p, h, Seq::empty())
            } else if st is Password {
                scan_from(tail, State::Host, u, Some(seg), h, Seq::empty())
            } else {
                ScanResult::Expected(st)
            }
        } else if c == ':' {
            scan_from(tail, State::Port, u, p, Some(seg), Seq::empty())
        } else {
            scan_from(tail, st, u, p, h, seg.push(c))
        }
    }
}

/// The scanner applied to a whole input.
pub open spec fn scan(s: Seq<char>) -> ScanResult {
    scan_from(s, State::Username, None, None, None, Seq::empty())
}

/// An empty captured segment counts as an unspecified field.
pub open spec fn nonempty_or_none(x: Option<Seq<char>>) -> Option<Seq<char>> {
    match x {
        Some(s) => if s.len() == 0 {
            None
        } else {
            Some(s)
        },
        None => None,
    }
}

/// What parsing a connection string yields, over character sequences.
pub open spec fn conn_spec(s: Seq<char>) -> Result<ConnectionView, ConnParsingError> {
    match scan(s) {
        ScanResult::Expected(st) => Err(ConnParsingError::Expected(st)),
        ScanResult::Invalid => Err(ConnParsingError::Invalid),
        ScanResult::Fields { username, password, host, port } => match nonempty_or_none(port) {
            Some(ps) => match parse_u16_spec(ps) {
                Some(v) => Ok(
                    ConnectionView {
                        host: nonempty_or_none(host),
                        port: Some(v),
                        username: nonempty_or_none(username),
                        password: nonempty_or_none(password),
                    },
                ),
                None => Err(ConnParsingError::Port),
            },
            None => Ok(
                ConnectionView {
                    host: nonempty_or_none(host),
                    port: None,
                    username: nonempty_or_none(username),
                    password: nonempty_or_none(password),
                },
            ),
        },
    }
}

/// The view of a parse result.
pub open spec fn conn_result_view(r: Result<Connection, ConnParsingError>) -> Result<
    ConnectionView,
    ConnParsingError,
> {
    match r {
        Ok(c) => Ok(c@),
        Err(e) => Err(e),
    }
}

fn normalize_field(x: Option<String>) -> (r: Option<String>)
    ensures
        opt_str_view(r) == nonempty_or_none(opt_str_view(x)),
{
    match x {
        Some(s) => if s.as_str().unicode_len() == 0 {
            None
        } else {
            Some(s)
        },
        None => None,
    }
}

/// Parse a `[username][/[password]][@[host][:[port]]]` connection string.
///
/// Empty captured segments map to unset fields, never to empty strings;
/// the port must be a `u16` number.
pub fn parse_connection_string(conn: &str) -> (r: Result<Connection, ConnParsingError>)
    ensures
        conn_result_view(r) == conn_spec(conn@),
{
    let n: usize = conn.unicode_len();
    let mut st = State::Username;
    let mut username: Option<String> = None;
    let mut password: Option<String> = None;
    let mut host: Option<String> = None;
    let mut last_index: usize = 0;
    let mut i: usize = 0;
    assert(conn@.subrange(0, n as int) =~= conn@);
    assert(conn@.subrange(0, 0) =~= Seq::<char>::empty());
    while i < n
        invariant
            0 <= last_index <= i <= n,
            n == conn@.len(),
            scan(conn@) == scan_from(
                conn@.subrange(i as int, n as int),
                st,
                opt_str_view(username),
                opt_str_view(password),
                opt_str_view(host),
                conn@.subrange(last_index as int, i as int),
            ),
        decreases n - i,
    {
        let ghost rest = conn@.subrange(i as int, n as int);
        let ghost seg = conn@.subrange(last_index as int, i as int);
        let c = conn.get_char(i);
        proof {
            assert(rest[0] == c);
            assert(rest.skip(1) =~= conn@.subrange(i + 1, n as int));
        }
        if c == '\u{1}' {
            return Err(ConnParsingError::Invalid);
        } else if c == '/' {
            if matches!(st, State::Username) {
                username = Some(conn.substring_char(last_index, i).to_owned());
                st = State::Password;
                last_index = i + 1;
            } else {
                return Err(ConnParsingError::Expected(st));
            }
        } else if c == '@' {
            if matches!(st, State::Username) {
                username = Some(conn.substring_char(last_index, i).to_owned());
                st = State::Host;
                last_index = i + 1;
            } else if matches!(st, State::Password) {
                password = Some(conn.substring_char(last_index, i).to_owned());
                st = State::Host;
                last_index = i + 1;
            } else {
                return Err(ConnParsingError::Expected(st));
            }
        } else if c == ':' {
            host = Some(conn.substring_char(last_index, i).to_owned());
            st = State::Port;
            last_index = i + 1;
        } else {
            assert(conn@.subrange(last_index as int, i + 1) =~= seg.push(c));
        }
        proof {
            assert(conn@.subrange(i + 1, i + 1) =~= Seq::<char>::empty());
        }
        i = i + 1;
    }
    let seg = conn.substring_char(last_index, n).to_owned();
    assert(conn@.subrange(n as int, n as int) =~= Seq::<char>::empty());
    let mut port_text: Option<String> = None;
    match st {
        State::Username => {
            username = Some(seg);
        },
        State::Password => {
            password = Some(seg);
        },
        State::Host => {
            host = Some(seg);
        },
        State::Port => {
            port_text = Some(seg);
        },
    }
    let port: Option<u16> = match normalize_field(port_text) {
        Some(ps) => match parse_u16(ps.as_str()) {
            Some(v) => Some(v),
            None => {
                return Err(ConnParsingError::Port);
            },
        },
        None => None,
    };
    Ok(
        Connection {
            host: normalize_field(host),
            port,
            username: normalize_field(username),
            password: normalize_field(password),
        },
    )
}

/// Whether the input embeds the scanner's end-of-input sentinel character.
pub open spec fn contains_sentinel(s: Seq<char>) -> bool {
    exists|i: int| 0 <= i < s.len() && s[i] == '\u{1}'
}

proof fn lemma_scan_invalid(
    rest: Seq<char>,
    st: State,
    u: Option<Seq<char>>,
    p: Option<Seq<char>>,
    h: Option<Seq<char>>,
    seg: Seq<char>,
)
    ensures
        scan_from(rest, st, u, p, h, seg) is Invalid ==> contains_sentinel(rest),
        !contains_sentinel(rest) ==> !(scan_from(rest, st, u, p, h, seg) is Invalid),
    decreases rest.len(),
{
    if rest.len() > 0 {
        let c = rest[0];
        let tail = rest.skip(1);
        if c == '\u{1}' {
            assert(contains_sentinel(rest));
        } else {
            lemma_scan_invalid(tail, State::Password, Some(seg), p, h, Seq::empty());
            lemma_scan_invalid(tail, State::Host, Some(seg), p, h, Seq::empty());
            lemma_scan_invalid(tail, State::Host, u, Some(seg), h, Seq::empty());
            lemma_scan_invalid(tail, State::Port, u, p, Some(seg), Seq::empty());
            lemma_scan_invalid(tail, st, u, p, h, seg.push(c));
            if contains_sentinel(tail) {
                let j = choose|j: int| 0 <= j < tail.len() && tail[j] == '\u{1}';
                assert(rest[j + 1] == '\u{1}');
            }
            if contains_sentinel(rest) {
                let j = choose|j: int| 0 <= j < rest.len() && rest[j] == '\u{1}';
                assert(tail[j - 1] == '\u{1}');
            }
        }
    }
}

/// The parser reports `Invalid` only when the scanner cannot consume every
/// character of the input, which happens exactly when the input embeds the
/// end-of-input sentinel; sentinel-free input is never `Invalid`.
pub proof fn lemma_invalid_iff_unconsumable(s: Seq<char>)
    ensures
        conn_spec(s) == Err::<ConnectionView, ConnParsingError>(ConnParsingError::Invalid)
            ==> contains_sentinel(s),
        !contains_sentinel(s) ==> conn_spec(s) != Err::<ConnectionView, ConnParsingError>(
            ConnParsingError::Invalid,
        ),
{
    lemma_scan_invalid(s, State::Username, None, None, None, Seq::empty());
}

/// A successfully parsed descriptor never holds an empty string in any
/// field: an empty captured segment becomes an unset field instead.
pub proof fn lemma_empty_segments_become_none(s: Seq<char>)
    ensures
        conn_spec(s) matches Ok(m) ==> {
            &&& m.username != Some(Seq::<char>::empty())
            &&& m.password != Some(Seq::<char>::empty())
            &&& m.host != Some(Seq::<char>::empty())
        },
{
}

} // verus!
