use socks5::address::Destination;
use socks5::server::{
    select_method, success_reply, Event, Failure, Flavor, Next, Output, SocksServerConnection,
};
use socks5::socks::{Methods, Response};

fn bytes(b: &[u8]) -> Event {
    Event::Bytes(b.to_vec())
}

fn expect_read(out: &Output, len: usize, exact: bool) {
    match out.next {
        Next::Read { len: l, exact: e } => {
            assert_eq!(l, len);
            assert_eq!(e, exact);
        }
        _ => panic!("expected a read"),
    }
}

#[test]
fn method_selection_preferences() {
    assert_eq!(select_method(Flavor::Library { no_auth: true }, &[0, 2]), Some(Methods::UserPass));
    assert_eq!(select_method(Flavor::Library { no_auth: true }, &[0]), Some(Methods::NoAuth));
    assert_eq!(select_method(Flavor::Library { no_auth: false }, &[0]), None);
    assert_eq!(select_method(Flavor::Standalone, &[2, 0]), Some(Methods::NoAuth));
    assert_eq!(select_method(Flavor::Standalone, &[2]), Some(Methods::UserPass));
    assert_eq!(select_method(Flavor::Standalone, &[1, 3]), None);
    assert_eq!(select_method(Flavor::Standalone, &[]), None);
}

#[test]
fn success_reply_bytes() {
    assert_eq!(success_reply(), vec![5, 0, 0, 1, 127, 0, 0, 1, 0, 0]);
}

#[test]
fn library_session_with_credentials_connects() {
    let mut s = SocksServerConnection::new(false);
    expect_read(&s.start(), 2, true);
    let out = s.step(bytes(&[5, 2]));
    assert!(out.reply.is_none());
    expect_read(&out, 2, true);
    let out = s.step(bytes(&[0, 2]));
    assert_eq!(out.reply, Some(vec![5, 2]));
    expect_read(&out, 2, true);
    let out = s.step(bytes(&[1, 3]));
    expect_read(&out, 3, true);
    let out = s.step(bytes(b"ali"));
    expect_read(&out, 1, true);
    let out = s.step(bytes(&[6]));
    expect_read(&out, 6, true);
    let out = s.step(bytes(b"123456"));
    assert_eq!(out.reply, Some(vec![1, 0]));
    assert!(!out.shutdown);
    expect_read(&out, 3, false);
    let out = s.step(bytes(&[5, 1, 0]));
    expect_read(&out, 1, true);
    let out = s.step(bytes(&[1]));
    expect_read(&out, 6, true);
    let out = s.step(bytes(&[93, 184, 216, 34, 0, 80]));
    assert!(out.reply.is_none());
    match out.next {
        Next::Connect(Destination::V4(o, p)) => {
            assert_eq!(o, [93, 184, 216, 34]);
            assert_eq!(p, 80);
        }
        _ => panic!("expected a connect"),
    }
    let out = s.step(Event::Connected);
    assert_eq!(out.reply, Some(vec![5, 0, 0, 1, 127, 0, 0, 1, 0, 0]));
    assert!(matches!(out.next, Next::Relay));
}

#[test]
fn library_session_without_auth_when_allowed() {
    let mut s = SocksServerConnection::new(true);
    s.step(bytes(&[5, 1]));
    let out = s.step(bytes(&[0]));
    assert_eq!(out.reply, Some(vec![5, 0]));
    expect_read(&out, 3, false);
    s.step(bytes(&[5, 1, 0]));
    let out = s.step(bytes(&[3]));
    expect_read(&out, 1, true);
    let out = s.step(bytes(&[4]));
    expect_read(&out, 6, true);
    let out = s.step(bytes(&[b'h', b'o', b's', b't', 0x01, 0xbb]));
    match out.next {
        Next::Connect(Destination::Domain(n, p)) => {
            assert_eq!(n, b"host".to_vec());
            assert_eq!(p, 443);
        }
        _ => panic!("expected a connect"),
    }
}

#[test]
fn library_session_refuses_no_auth_when_not_allowed() {
    let mut s = SocksServerConnection::new(false);
    s.step(bytes(&[5, 1]));
    let out = s.step(bytes(&[0]));
    assert_eq!(out.reply, Some(vec![5, 1]));
    assert!(out.shutdown);
    assert!(matches!(out.next, Next::Fail(Failure::EndOfInput)));
}

#[test]
fn library_session_with_no_methods_reads_nothing() {
    let mut s = SocksServerConnection::new(true);
    let out = s.step(bytes(&[5, 0]));
    expect_read(&out, 0, true);
    let out = s.step(bytes(&[]));
    assert_eq!(out.reply, Some(vec![5, 1]));
    assert!(out.shutdown);
}

#[test]
fn version_mismatch_ends_the_session() {
    let mut s = SocksServerConnection::new(true);
    let out = s.step(bytes(&[4, 1]));
    assert!(out.reply.is_none());
    assert!(out.shutdown);
    assert!(matches!(out.next, Next::Fail(Failure::Refused(Response::Failure))));
    let mut s = SocksServerConnection::standalone();
    let out = s.step(bytes(&[4, 1]));
    assert!(out.reply.is_none());
    assert!(out.shutdown);
    assert!(matches!(out.next, Next::Finish));
}

#[test]
fn wrong_password_is_refused() {
    let mut s = SocksServerConnection::new(false);
    s.step(bytes(&[5, 1]));
    s.step(bytes(&[2]));
    s.step(bytes(&[1, 5]));
    s.step(bytes(b"admin"));
    s.step(bytes(&[3]));
    let out = s.step(bytes(b"abc"));
    assert_eq!(out.reply, Some(vec![5, 1]));
    assert!(out.shutdown);
    assert!(matches!(out.next, Next::Fail(Failure::EndOfInput)));
}

#[test]
fn standalone_wrong_password_finishes() {
    let mut s = SocksServerConnection::standalone();
    s.step(bytes(&[5, 1]));
    let out = s.step(bytes(&[2]));
    assert_eq!(out.reply, Some(vec![5, 2]));
    s.step(bytes(&[1, 3]));
    s.step(bytes(b"ali"));
    s.step(bytes(&[1]));
    let out = s.step(bytes(b"x"));
    assert_eq!(out.reply, Some(vec![5, 1]));
    assert!(out.shutdown);
    assert!(matches!(out.next, Next::Finish));
}

#[test]
fn library_bind_is_refused_after_the_address() {
    let mut s = SocksServerConnection::new(true);
    s.step(bytes(&[5, 1]));
    s.step(bytes(&[0]));
    let out = s.step(bytes(&[5, 2, 0]));
    expect_read(&out, 1, true);
    s.step(bytes(&[1]));
    let out = s.step(bytes(&[127, 0, 0, 1, 0, 22]));
    assert!(out.shutdown);
    assert!(out.reply.is_none());
    assert!(matches!(out.next, Next::Fail(Failure::Refused(Response::CommandNotSupported))));
}

#[test]
fn library_unknown_address_type_is_refused() {
    let mut s = SocksServerConnection::new(true);
    s.step(bytes(&[5, 1]));
    s.step(bytes(&[0]));
    s.step(bytes(&[5, 1, 0]));
    let out = s.step(bytes(&[2]));
    assert!(out.shutdown);
    assert!(matches!(out.next, Next::Fail(Failure::Refused(Response::AddrTypeNotSupported))));
}

#[test]
fn standalone_session_connects_to_ipv6() {
    let mut s = SocksServerConnection::standalone();
    s.step(bytes(&[5, 2]));
    let out = s.step(bytes(&[2, 0]));
    assert_eq!(out.reply, Some(vec![5, 0]));
    expect_read(&out, 4, false);
    let out = s.step(bytes(&[5, 1, 0, 4]));
    expect_read(&out, 18, true);
    let mut addr = vec![0u8; 16];
    addr[15] = 1;
    addr.extend_from_slice(&[0x1f, 0x90]);
    let out = s.step(Event::Bytes(addr));
    match out.next {
        Next::Connect(Destination::V6(seg, p)) => {
            assert_eq!(seg, [0, 0, 0, 0, 0, 0, 0, 1]);
            assert_eq!(p, 8080);
        }
        _ => panic!("expected a connect"),
    }
}

#[test]
fn standalone_refuses_other_commands_before_the_address() {
    let mut s = SocksServerConnection::standalone();
    s.step(bytes(&[5, 1]));
    s.step(bytes(&[0]));
    let out = s.step(bytes(&[5, 3, 0, 1]));
    assert!(out.shutdown);
    assert!(matches!(out.next, Next::Fail(Failure::Refused(Response::CommandNotSupported))));
}

#[test]
fn standalone_refuses_unknown_address_type() {
    let mut s = SocksServerConnection::standalone();
    s.step(bytes(&[5, 1]));
    s.step(bytes(&[0]));
    let out = s.step(bytes(&[5, 1, 0, 9]));
    assert!(out.shutdown);
    assert!(matches!(out.next, Next::Fail(Failure::Refused(Response::AddrTypeNotSupported))));
}

#[test]
fn short_request_header_counts_missing_bytes_as_zero() {
    let mut s = SocksServerConnection::standalone();
    s.step(bytes(&[5, 1]));
    s.step(bytes(&[0]));
    let out = s.step(bytes(&[5, 1, 0, 0]));
    assert!(matches!(out.next, Next::Fail(Failure::Refused(Response::AddrTypeNotSupported))));
}
