use socks5::socks::{AddrType, Command, Methods, Response, RESERVED, VERSION5};
use socks5::users::User;

#[test]
fn command_from_known_codes() {
    assert_eq!(Command::from(1), Some(Command::Connect));
    assert_eq!(Command::from(2), Some(Command::Bind));
    assert_eq!(Command::from(3), Some(Command::UdpAssosiate));
}

#[test]
fn command_from_unknown_codes() {
    assert_eq!(Command::from(0), None);
    assert_eq!(Command::from(4), None);
    assert_eq!(Command::from(255), None);
    assert_eq!(Command::from(257), None);
}

#[test]
fn command_code_roundtrip() {
    for c in [Command::Connect, Command::Bind, Command::UdpAssosiate] {
        assert_eq!(Command::from(c.code() as usize), Some(c));
    }
}

#[test]
fn addr_type_from_codes() {
    assert_eq!(AddrType::from(1), Some(AddrType::V4));
    assert_eq!(AddrType::from(3), Some(AddrType::Domain));
    assert_eq!(AddrType::from(4), Some(AddrType::V6));
    assert_eq!(AddrType::from(0), None);
    assert_eq!(AddrType::from(2), None);
    assert_eq!(AddrType::from(5), None);
}

#[test]
fn addr_type_code_roundtrip() {
    for a in [AddrType::V4, AddrType::Domain, AddrType::V6] {
        assert_eq!(AddrType::from(a.code() as usize), Some(a));
    }
}

#[test]
fn response_codes_and_message() {
    assert_eq!(Response::Success.code(), 0);
    assert_eq!(Response::Failure.code(), 1);
    assert_eq!(Response::RuleFailure.code(), 2);
    assert_eq!(Response::NetworkUnreachable.code(), 3);
    assert_eq!(Response::HostUnreachable.code(), 4);
    assert_eq!(Response::ConnectionRefused.code(), 5);
    assert_eq!(Response::TtlExpired.code(), 6);
    assert_eq!(Response::CommandNotSupported.code(), 7);
    assert_eq!(Response::AddrTypeNotSupported.code(), 8);
    assert_eq!(Response::CommandNotSupported.message(), "Something went wrong");
}

#[test]
fn method_codes_and_constants() {
    assert_eq!(Methods::NoAuth.code(), 0);
    assert_eq!(Methods::UserPass.code(), 2);
    assert_eq!(Methods::NoMethods.code(), 0xFF);
    assert_eq!(VERSION5, 5);
    assert_eq!(RESERVED, 0);
}

#[test]
fn registered_users_authenticate() {
    assert!(User::auth(&User::new("ali".to_string(), "123456".to_string())));
    assert!(User::auth(&User::new("admin".to_string(), "123456".to_string())));
}

#[test]
fn unknown_users_are_refused() {
    assert!(!User::auth(&User::new("ali".to_string(), "12345".to_string())));
    assert!(!User::auth(&User::new("bob".to_string(), "123456".to_string())));
    assert!(!User::auth(&User::new("admin".to_string(), "".to_string())));
    assert!(!User::auth(&User::new("".to_string(), "".to_string())));
    assert!(!User::auth(&User::new("Ali".to_string(), "123456".to_string())));
}

#[test]
fn user_keeps_username() {
    let u = User::new("admin".to_string(), "pw".to_string());
    assert_eq!(u.get_username(), "admin");
}
