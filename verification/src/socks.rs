//! Protocol constants, request commands, address types, reply codes and
//! authentication methods, with their one-byte wire codes.
use vstd::prelude::*;

verus! {

/// The protocol version byte.
pub const VERSION5: u8 = 0x05;

/// The reserved byte of requests and replies.
pub const RESERVED: u8 = 0x00;

/// A request command.
#[derive(PartialEq, Eq, Structural, Debug, Clone, Copy)]
pub enum Command {
    Connect,
    Bind,
    UdpAssosiate,
}

/// The wire code of a command.
pub open spec fn command_code(c: Command) -> u8 {
    match c {
        Command::Connect => 0x01,
        Command::Bind => 0x02,
        Command::UdpAssosiate => 0x03,
    }
}

/// The command that a code names, if any.
pub open spec fn command_of(byte: int) -> Option<Command> {
    if byte == 1 {
        Some(Command::Connect)
    } else if byte == 2 {
        Some(Command::Bind)
    } else if byte == 3 {
        Some(Command::UdpAssosiate)
    } else {
        None
    }
}

impl Command {
    /// Decodes a command code: 1, 2 and 3 name a command, every other value none.
    pub fn from(byte: usize) -> (res: Option<Command>)
        ensures
            res == command_of(byte as int),
    {
        match byte {
            1 => Some(Command::Connect),
            2 => Some(Command::Bind),
            3 => Some(Command::UdpAssosiate),
            _ => None,
        }
    }

    /// The wire code of this command.
    pub fn code(&self) -> (b: u8)
        ensures
            b == command_code(*self),
    {
        match self {
            Command::Connect => 0x01,
            Command::Bind => 0x02,
            Command::UdpAssosiate => 0x03,
        }
    }
}

/// The type of an address in a request or a reply.
#[derive(PartialEq, Eq, Structural, Debug, Clone, Copy)]
pub enum AddrType {
    V4,
    Domain,
    V6,
}

/// The wire code of an address type.
pub open spec fn addr_type_code(a: AddrType) -> u8 {
    match a {
        AddrType::V4 => 0x01,
        AddrType::Domain => 0x03,
        AddrType::V6 => 0x04,
    }
}

/// The address type that a code names, if any.
pub open spec fn addr_type_of(byte: int) -> Option<AddrType> {
    if byte == 1 {
        Some(AddrType::V4)
    } else if byte == 3 {
        Some(AddrType::Domain)
    } else if byte == 4 {
        Some(AddrType::V6)
    } else {
        None
    }
}

impl AddrType {
    /// Decodes an address type code: 1, 3 and 4 name a type, every other value none.
    pub fn from(byte: usize) -> (res: Option<AddrType>)
        ensures
            res == addr_type_of(byte as int),
    {
        match byte {
            1 => Some(AddrType::V4),
            3 => Some(AddrType::Domain),
            4 => Some(AddrType::V6),
            _ => None,
        }
    }

    /// The wire code of this address type.
    pub fn code(&self) -> (b: u8)
        ensures
            b == addr_type_code(*self),
    {
        match self {
            AddrType::V4 => 0x01,
            AddrType::Domain => 0x03,
            AddrType::V6 => 0x04,
        }
    }
}

/// A reply code of the server; also the error that ends a refused session.
#[derive(PartialEq, Eq, Structural, Debug, Clone, Copy)]
pub enum Response {
    Success,
    Failure,
    RuleFailure,
    NetworkUnreachable,
    HostUnreachable,
    ConnectionRefused,
    TtlExpired,
    CommandNotSupported,
    AddrTypeNotSupported,
}

/// The wire code of a reply.
pub open spec fn response_code(r: Response) -> u8 {
    match r {
        Response::Success => 0x00,
        Response::Failure => 0x01,
        Response::RuleFailure => 0x02,
        Response::NetworkUnreachable => 0x03,
        Response::HostUnreachable => 0x04,
        Response::ConnectionRefused => 0x05,
        Response::TtlExpired => 0x06,
        Response::CommandNotSupported => 0x07,
        Response::AddrTypeNotSupported => 0x08,
    }
}

impl Response {
    /// The wire code of this reply.
    pub fn code(&self) -> (b: u8)
        ensures
            b == response_code(*self),
    {
        match self {
            Response::Success => 0x00,
            Response::Failure => 0x01,
            Response::RuleFailure => 0x02,
            Response::NetworkUnreachable => 0x03,
            Response::HostUnreachable => 0x04,
            Response::ConnectionRefused => 0x05,
            Response::TtlExpired => 0x06,
            Response::CommandNotSupported => 0x07,
            Response::AddrTypeNotSupported => 0x08,
        }
    }

    /// The text shown for this reply when it ends a session: the same for every code.
    pub fn message(&self) -> (s: &'static str)
        ensures
            s@ == "Something went wrong"@,
    {
        "Something went wrong"
    }
}

/// An authentication method.
#[derive(PartialEq, Eq, Structural, Debug, Clone, Copy)]
pub enum Methods {
    NoAuth,
    UserPass,
    NoMethods,
}

/// The wire code of an authentication method.
pub open spec fn method_code(m: Methods) -> u8 {
    match m {
        Methods::NoAuth => 0x00,
        Methods::UserPass => 0x02,
        Methods::NoMethods => 0xFF,
    }
}

impl Methods {
    /// The wire code of this method.
    pub fn code(&self) -> (b: u8)
        ensures
            b == method_code(*self),
    {
        match self {
            Methods::NoAuth => 0x00,
            Methods::UserPass => 0x02,
            Methods::NoMethods => 0xFF,
        }
    }
}

/// Decoding the code of a command gives the command back, and a code that
/// decodes to a command is that command's code.
pub proof fn lemma_command_code_roundtrip(c: Command, byte: int)
    ensures
        command_of(command_code(c) as int) == Some(c),
        command_of(byte) == Some(c) ==> byte == command_code(c),
{
}

/// Decoding the code of an address type gives the type back, and a code that
/// decodes to a type is that type's code.
pub proof fn lemma_addr_type_code_roundtrip(a: AddrType, byte: int)
    ensures
        addr_type_of(addr_type_code(a) as int) == Some(a),
        addr_type_of(byte) == Some(a) ==> byte == addr_type_code(a),
{
}

} // verus!
