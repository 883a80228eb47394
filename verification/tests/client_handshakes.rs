use socks5::address::{Destination, TargetAddr};
use socks5::client::{greeting, userpass_request, ClientError, ClientNext, ClientOutput, Socks5Stream};

fn expect_read(out: &ClientOutput, len: usize, exact: bool) {
    match out.next {
        ClientNext::Read { len: l, exact: e } => {
            assert_eq!(l, len);
            assert_eq!(e, exact);
        }
        _ => panic!("expected a read"),
    }
}

fn expect_error(out: &ClientOutput, err: ClientError) {
    match out.next {
        ClientNext::Fail(e) => assert_eq!(e, err),
        _ => panic!("expected an error"),
    }
}

#[test]
fn greetings() {
    assert_eq!(greeting(true), vec![5, 2, 2, 0]);
    assert_eq!(greeting(false), vec![5, 1, 0]);
}

#[test]
fn userpass_message() {
    assert_eq!(userpass_request("ali", "123456"), vec![5, 3, b'a', b'l', b'i', 6, b'1', b'2', b'3', b'4', b'5', b'6']);
    assert_eq!(userpass_request("", ""), vec![5, 0, 0]);
}

#[test]
fn userpass_message_truncates_long_lengths() {
    let long = "x".repeat(300);
    let msg = userpass_request(&long, "p");
    assert_eq!(msg.len(), 304);
    assert_eq!(msg[1], 44);
    assert_eq!(msg[302], 1);
}

#[test]
fn handshake_without_credentials() {
    let (mut h, out) = Socks5Stream::handshake(TargetAddr::V4([8, 8, 8, 8], 53), None);
    assert_eq!(out.send, Some(vec![5, 1, 0]));
    expect_read(&out, 2, true);
    let out = h.step(vec![5, 0]);
    assert_eq!(out.send, Some(vec![5, 1, 0, 1, 8, 8, 8, 8, 0, 53]));
    expect_read(&out, 3, false);
    let out = h.step(vec![5, 0, 0]);
    assert!(out.send.is_none());
    expect_read(&out, 1, true);
    let out = h.step(vec![1]);
    expect_read(&out, 6, true);
    let out = h.step(vec![10, 0, 0, 1, 0x04, 0x38]);
    match out.next {
        ClientNext::Finish(Destination::V4(o, p)) => {
            assert_eq!(o, [10, 0, 0, 1]);
            assert_eq!(p, 1080);
        }
        _ => panic!("expected the end"),
    }
}

#[test]
fn handshake_with_credentials() {
    let creds = Some(("admin".to_string(), "123456".to_string()));
    let (mut h, out) = Socks5Stream::handshake(TargetAddr::Domain(("x.y".to_string(), 80)), creds);
    assert_eq!(out.send, Some(vec![5, 2, 2, 0]));
    let out = h.step(vec![5, 2]);
    assert_eq!(out.send, Some(userpass_request("admin", "123456")));
    expect_read(&out, 2, true);
    let out = h.step(vec![1, 0]);
    assert_eq!(out.send, Some(vec![5, 1, 0, 3, 3, b'x', b'.', b'y', 0, 80]));
    h.step(vec![5, 0, 0]);
    let out = h.step(vec![3]);
    expect_read(&out, 1, true);
    let out = h.step(vec![2]);
    expect_read(&out, 4, true);
    let out = h.step(vec![b'o', b'k', 0, 1]);
    match out.next {
        ClientNext::Finish(Destination::Domain(n, p)) => {
            assert_eq!(n, b"ok".to_vec());
            assert_eq!(p, 1);
        }
        _ => panic!("expected the end"),
    }
}

#[test]
fn wrong_version_from_server() {
    let (mut h, _) = Socks5Stream::handshake(TargetAddr::V4([1, 1, 1, 1], 80), None);
    let out = h.step(vec![4, 0]);
    expect_error(&out, ClientError::InvalidVersion);
    assert!(ClientError::InvalidVersion.is_invalid_data());
    assert_eq!(ClientError::InvalidVersion.message(), "Invalid SOCKS version");
}

#[test]
fn credentials_required() {
    let (mut h, _) = Socks5Stream::handshake(TargetAddr::V4([1, 1, 1, 1], 80), None);
    let out = h.step(vec![5, 2]);
    expect_error(&out, ClientError::CredentialsRequired);
    assert_eq!(ClientError::CredentialsRequired.message(), "Username & password requried");
    assert!(!ClientError::CredentialsRequired.is_invalid_data());
}

#[test]
fn invalid_method() {
    let (mut h, _) = Socks5Stream::handshake(TargetAddr::V4([1, 1, 1, 1], 80), None);
    let out = h.step(vec![5, 0xFF]);
    expect_error(&out, ClientError::InvalidMethod);
    assert_eq!(ClientError::InvalidMethod.message(), "Invalid authentication method");
}

#[test]
fn wrong_credentials() {
    let creds = Some(("a".to_string(), "b".to_string()));
    let (mut h, _) = Socks5Stream::handshake(TargetAddr::V4([1, 1, 1, 1], 80), creds);
    h.step(vec![5, 2]);
    let out = h.step(vec![1, 1]);
    expect_error(&out, ClientError::WrongCredentials);
    assert_eq!(ClientError::WrongCredentials.message(), "Wrong username/password");
}

#[test]
fn unknown_bound_address_type() {
    let (mut h, _) = Socks5Stream::handshake(TargetAddr::V4([1, 1, 1, 1], 80), None);
    h.step(vec![5, 0]);
    h.step(vec![5, 0, 0]);
    let out = h.step(vec![7]);
    assert!(out.shutdown);
    expect_error(&out, ClientError::AddrTypeNotSupported);
    assert_eq!(ClientError::AddrTypeNotSupported.message(), "Something went wrong");
}

#[test]
fn handshake_google_without_credentials() {
    let target = TargetAddr::Domain((String::from("google.com"), 80));
    let (mut h, out) = Socks5Stream::handshake(target, None);
    assert_eq!(out.send, Some(vec![5, 1, 0]));
    let out = h.step(vec![5, 0]);
    assert_eq!(
        out.send,
        Some(vec![5, 1, 0, 3, 10, 103, 111, 111, 103, 108, 101, 46, 99, 111, 109, 0, 80])
    );
    let out = h.step(vec![5, 0, 0]);
    expect_read(&out, 1, true);
    let out = h.step(vec![1]);
    expect_read(&out, 6, true);
    let out = h.step(vec![0, 0, 0, 0, 0, 0]);
    assert!(matches!(out.next, ClientNext::Finish(Destination::V4([0, 0, 0, 0], 0))));
}
