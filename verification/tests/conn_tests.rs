use yasqlplus::conn::parse_connection_string;
use yasqlplus::conn::ConnParsingError;
use yasqlplus::conn::Connection;
use yasqlplus::conn::State;

#[test]
fn conn_full_form() {
    let c = parse_connection_string("sys/pwd@host:9999").unwrap();
    assert_eq!(c.username.as_deref(), Some("sys"));
    assert_eq!(c.password.as_deref(), Some("pwd"));
    assert_eq!(c.host.as_deref(), Some("host"));
    assert_eq!(c.port, Some(9999));
}

#[test]
fn conn_trailing_semicolon_rejected() {
    assert!(matches!(
        parse_connection_string("sys/pwd@host:9999;"),
        Err(ConnParsingError::Port)
    ));
}

#[test]
fn conn_empty_string_is_all_none() {
    let c = parse_connection_string("").unwrap();
    assert!(c.username.is_none());
    assert!(c.password.is_none());
    assert!(c.host.is_none());
    assert!(c.port.is_none());
    assert!(!c.any_valid());
}

#[test]
fn conn_empty_segments_become_none() {
    // An empty username or password is "unspecified", never Some("").
    let c = parse_connection_string("/pwd@host").unwrap();
    assert!(c.username.is_none());
    assert_eq!(c.password.as_deref(), Some("pwd"));
    assert_eq!(c.host.as_deref(), Some("host"));
    assert!(c.port.is_none());

    let c = parse_connection_string("sys/@:").unwrap();
    assert_eq!(c.username.as_deref(), Some("sys"));
    assert!(c.password.is_none());
    assert!(c.host.is_none());
    assert!(c.port.is_none());
}

#[test]
fn conn_username_and_host_only() {
    let c = parse_connection_string("sys@host").unwrap();
    assert_eq!(c.username.as_deref(), Some("sys"));
    assert!(c.password.is_none());
    assert_eq!(c.host.as_deref(), Some("host"));
    assert!(c.port.is_none());
}

#[test]
fn conn_illegal_separator_for_state() {
    // A second `/` is illegal once the scanner has left the username.
    assert!(matches!(
        parse_connection_string("a/b/c"),
        Err(ConnParsingError::Expected(State::Password))
    ));
    // A `@` is illegal after the host has been entered.
    assert!(matches!(
        parse_connection_string("a@b@c"),
        Err(ConnParsingError::Expected(State::Host))
    ));
}

#[test]
fn conn_embedded_sentinel_is_invalid() {
    // The synthetic end-of-input character cannot appear inside legal input.
    assert!(matches!(
        parse_connection_string("a\u{1}b"),
        Err(ConnParsingError::Invalid)
    ));
}

#[test]
fn conn_port_must_be_u16() {
    assert!(matches!(
        parse_connection_string("h:70000"),
        Err(ConnParsingError::Port)
    ));
    assert!(matches!(
        parse_connection_string("h:12ab"),
        Err(ConnParsingError::Port)
    ));
    let c = parse_connection_string("h:+99").unwrap();
    assert_eq!(c.port, Some(99));
}

#[test]
fn conn_any_valid() {
    assert!(!Connection::default().any_valid());
    let c = parse_connection_string("sys").unwrap();
    assert!(c.any_valid());
}

#[test]
fn conn_colon_always_reopens_host() {
    // Each `:` closes the current segment into the host, so a later one
    // overwrites an earlier capture and the last segment is the port.
    let c = parse_connection_string("1:2:3").unwrap();
    assert!(c.username.is_none());
    assert_eq!(c.host.as_deref(), Some("2"));
    assert_eq!(c.port, Some(3));
}

#[test]
fn conn_at_after_port_state_is_illegal() {
    assert!(matches!(
        parse_connection_string("a:b@c"),
        Err(ConnParsingError::Expected(State::Port))
    ));
}
