//! The client side of the handshake as a state machine: the greeting, the
//! optional username/password exchange, the CONNECT request and the reading
//! of the server's reply.
use vstd::prelude::*;
use vstd::utf8::encode_utf8;
use crate::socks::{AddrType, Methods, Response, VERSION5, addr_type_of};
use crate::address::{
    Destination, TargetAddr, addr_to_socket, connect_request, connect_request_bytes, decode_port,
    destination_of, port_of, target_len,
};

verus! {

/// Why a client handshake failed.
#[derive(PartialEq, Eq, Structural, Debug, Clone, Copy)]
pub enum ClientError {
    /// The server answered with another version than 5.
    InvalidVersion,
    /// The server refused the username and password.
    WrongCredentials,
    /// The server asked for a username and password, and the client has none.
    CredentialsRequired,
    /// The server picked a method that the client did not offer.
    InvalidMethod,
    /// The reply carries an unknown address type.
    AddrTypeNotSupported,
}

impl ClientError {
    /// The text of the error.
    pub fn message(&self) -> (s: &'static str)
        ensures
            *self == ClientError::InvalidVersion ==> s@ == "Invalid SOCKS version"@,
            *self == ClientError::WrongCredentials ==> s@ == "Wrong username/password"@,
            *self == ClientError::CredentialsRequired ==> s@ == "Username & password requried"@,
            *self == ClientError::InvalidMethod ==> s@ == "Invalid authentication method"@,
            *self == ClientError::AddrTypeNotSupported ==> s@ == "Something went wrong"@,
    {
        match self {
            ClientError::InvalidVersion => "Invalid SOCKS version",
            ClientError::WrongCredentials => "Wrong username/password",
            ClientError::CredentialsRequired => "Username & password requried",
            ClientError::InvalidMethod => "Invalid authentication method",
            ClientError::AddrTypeNotSupported => Response::AddrTypeNotSupported.message(),
        }
    }

    /// Whether the error is about malformed data (only a wrong version is).
    pub fn is_invalid_data(&self) -> (b: bool)
        ensures
            b == (*self == ClientError::InvalidVersion),
    {
        match self {
            ClientError::InvalidVersion => true,
            _ => false,
        }
    }
}

/// Where a client handshake stands.
pub enum ClientPhase {
    /// Waits for the server's method selection.
    MethodSelection,
    /// Waits for the answer to the username and password.
    AuthReply,
    /// Waits for the first three bytes of the reply to the request.
    ReplyHeader,
    /// Waits for the address type of the reply.
    BoundType,
    /// Waits for the length byte of a domain name in the reply.
    BoundDomainLen,
    /// Waits for `len` address bytes and two port bytes.
    BoundAddress { kind: AddrType, len: u8 },
    /// The handshake is over.
    Done,
}

/// What to do next.
pub enum ClientNext {
    /// Read `len` bytes: all of them where `exact`, else one read whose
    /// missing bytes count as zero.
    Read { len: usize, exact: bool },
    /// The handshake succeeded; the server reported this bound address.
    Finish(Destination),
    /// The handshake failed.
    Fail(ClientError),
}

/// The result of a step: first send `send`, then shut the socket down if
/// `shutdown`, then do `next`.
pub struct ClientOutput {
    pub send: Option<Vec<u8>>,
    pub shutdown: bool,
    pub next: ClientNext,
}

/// The protocol state of a client connection to a proxy.
pub struct ClientHandshake {
    phase: ClientPhase,
    credentials: Option<(String, String)>,
    target: TargetAddr,
}

/// The greeting: version, number of methods, then username/password (where
/// the client has credentials) and "no authentication".
pub open spec fn greeting_bytes(with_userpass: bool) -> Seq<u8> {
    if with_userpass {
        seq![5u8, 2u8, 2u8, 0u8]
    } else {
        seq![5u8, 1u8, 0u8]
    }
}

/// The username/password message: version 5, the username's length (modulo
/// 256), its bytes, the password's length (modulo 256), its bytes.
pub open spec fn userpass_request_bytes(username: Seq<u8>, password: Seq<u8>) -> Seq<u8> {
    seq![5u8, (username.len() % 256) as u8] + username + seq![(password.len() % 256) as u8]
        + password
}

/// The read that a client in a phase waits for.
pub open spec fn client_awaited_read(phase: ClientPhase) -> Option<(nat, bool)> {
    match phase {
        ClientPhase::MethodSelection => Some((2, true)),
        ClientPhase::AuthReply => Some((2, true)),
        ClientPhase::ReplyHeader => Some((3, false)),
        ClientPhase::BoundType => Some((1, true)),
        ClientPhase::BoundDomainLen => Some((1, true)),
        ClientPhase::BoundAddress { len, .. } => Some(((len + 2) as nat, true)),
        ClientPhase::Done => None,
    }
}

/// Whether an output sends exactly `bytes`.
pub open spec fn client_sends(out: ClientOutput, bytes: Seq<u8>) -> bool {
    out.send matches Some(s) && s@ == bytes
}

/// Builds the greeting.
pub fn greeting(with_userpass: bool) -> (data: Vec<u8>)
    ensures
        data@ == greeting_bytes(with_userpass),
{
    let methods_len: usize = if with_userpass {
        2
    } else {
        1
    };
    let mut data: Vec<u8> = vec![0u8; methods_len + 2];
    data.set(0, VERSION5);
    data.set(1, methods_len as u8);
    if with_userpass {
        data.set(2, Methods::UserPass.code());
    }
    data.set(1 + methods_len, Methods::NoAuth.code());
    assert(data@ =~= greeting_bytes(with_userpass));
    data
}

/// Builds the username/password message.
pub fn userpass_request(username: &str, password: &str) -> (data: Vec<u8>)
    requires
        encode_utf8(username@).len() + encode_utf8(password@).len() + 3 <= usize::MAX,
    ensures
        data@ == userpass_request_bytes(encode_utf8(username@), encode_utf8(password@)),
        ({
            let u = encode_utf8(username@);
            let p = encode_utf8(password@);
            &&& data@.len() == u.len() + p.len() + 3
            &&& data@[0] == 5
            &&& data@[1] as int == u.len() % 256
            &&& data@.subrange(2, 2 + u.len() as int) == u
            &&& data@[2 + u.len() as int] as int == p.len() % 256
            &&& data@.subrange(3 + u.len() as int, data@.len() as int) == p
        }),
{
    let u = username.as_bytes();
    let p = password.as_bytes();
    let mut data: Vec<u8> = Vec::new();
    data.push(VERSION5);
    data.push((u.len() % 256) as u8);
    data.extend_from_slice(u);
    data.push((p.len() % 256) as u8);
    data.extend_from_slice(p);
    assert(data@ =~= userpass_request_bytes(u@, p@));
    assert(data@.subrange(2, 2 + u@.len() as int) =~= u@);
    assert(data@.subrange(3 + u@.len() as int, data@.len() as int) =~= p@);
    data
}

/// Where the handshake ends after a successful authentication: it sends the
/// CONNECT request and reads the reply header.
pub open spec fn sends_request(out: ClientOutput, target: TargetAddr) -> bool {
    &&& client_sends(out, connect_request_bytes(target))
    &&& !out.shutdown
    &&& out.next == (ClientNext::Read { len: 3, exact: false })
}

/// A Socks5 client connection.
pub struct Socks5Stream {}

impl Socks5Stream {
    /// Starts a handshake through a proxy towards `target_addr`, with a
    /// username and password where given: sends the greeting, then reads the
    /// method selection.
    pub fn handshake(target_addr: TargetAddr, user_pass: Option<(String, String)>) -> (res: (
        ClientHandshake,
        ClientOutput,
    ))
        requires
            target_len(target_addr) + 7 <= usize::MAX,
            user_pass matches Some((u, p)) ==> encode_utf8(u@).len() + encode_utf8(p@).len() + 3
                <= usize::MAX,
        ensures
            res.0.phase() is MethodSelection,
            res.0.target() == target_addr,
            res.0.credentials() == user_pass,
            client_sends(res.1, greeting_bytes(user_pass is Some)),
            !res.1.shutdown,
            res.1.next == (ClientNext::Read { len: 2, exact: true }),
    {
        let with_userpass = user_pass.is_some();
        let data = greeting(with_userpass);
        (
            ClientHandshake {
                phase: ClientPhase::MethodSelection,
                credentials: user_pass,
                target: target_addr,
            },
            ClientOutput {
                send: Some(data),
                shutdown: false,
                next: ClientNext::Read { len: 2, exact: true },
            },
        )
    }
}

impl ClientHandshake {
    #[verifier::type_invariant]
    spec fn inv(self) -> bool {
        &&& target_len(self.target) + 7 <= usize::MAX
        &&& self.credentials matches Some((u, p)) ==> encode_utf8(u@).len() + encode_utf8(p@).len()
            + 3 <= usize::MAX
        &&& self.phase matches ClientPhase::BoundAddress { kind, len } ==> (kind == AddrType::V4
            ==> len == 4) && (kind == AddrType::V6 ==> len == 16)
    }

    /// Where the handshake stands.
    pub closed spec fn phase(self) -> ClientPhase {
        self.phase
    }

    /// The target of the request.
    pub closed spec fn target(self) -> TargetAddr {
        self.target
    }

    /// The username and password, if any.
    pub closed spec fn credentials(self) -> Option<(String, String)> {
        self.credentials
    }

    /// Whether the handshake takes these bytes next: exactly as many as it waits for.
    pub open spec fn accepts(self, bytes: Seq<u8>) -> bool {
        client_awaited_read(self.phase()) matches Some((n, _)) && bytes.len() == n
    }

    /// Sends the CONNECT request and asks for the reply header.
    fn request(&mut self) -> (out: ClientOutput)
        ensures
            final(self).target() == old(self).target(),
            final(self).credentials() == old(self).credentials(),
            final(self).phase() is ReplyHeader,
            sends_request(out, old(self).target()),
    {
        proof {
            use_type_invariant(&*self);
        }
        let data = connect_request(&self.target);
        self.phase = ClientPhase::ReplyHeader;
        ClientOutput { send: Some(data), shutdown: false, next: ClientNext::Read { len: 3, exact: false } }
    }

    /// Ends the handshake with an error.
    fn fail(&mut self, e: ClientError, shutdown: bool) -> (out: ClientOutput)
        ensures
            final(self).target() == old(self).target(),
            final(self).credentials() == old(self).credentials(),
            final(self).phase() is Done,
            out.send is None,
            out.shutdown == shutdown,
            out.next == ClientNext::Fail(e),
    {
        proof {
            use_type_invariant(&*self);
        }
        self.phase = ClientPhase::Done;
        ClientOutput { send: None, shutdown, next: ClientNext::Fail(e) }
    }

    /// Takes the bytes of the awaited read and says what to send and do next.
    ///
    /// Method selection: another version than 5 fails with `InvalidVersion`;
    /// username/password is answered with the credentials, or fails with
    /// `CredentialsRequired` where there are none; any method but "no
    /// authentication" fails with `InvalidMethod`; "no authentication" is
    /// answered with the CONNECT request. Authentication answer: a status
    /// other than 0 fails with `WrongCredentials`, else the CONNECT request
    /// is sent. Reply: the first three bytes are read and not checked; the
    /// bound address is read and decoded, and an unknown address type shuts
    /// the socket down and fails with `AddrTypeNotSupported`.
    pub fn step(&mut self, bytes: Vec<u8>) -> (out: ClientOutput)
        requires
            old(self).accepts(bytes@),
        ensures
            final(self).target() == old(self).target(),
            final(self).credentials() == old(self).credentials(),
            out.next matches ClientNext::Read { len, exact } ==> client_awaited_read(
                final(self).phase(),
            ) == Some((len as nat, exact)),
            !(out.next is Read) <==> final(self).phase() is Done,
            client_awaited_read(final(self).phase()) matches Some((n, e)) ==> out.next == (
            ClientNext::Read { len: n as usize, exact: e }),
            old(self).phase() is MethodSelection ==> {
                let b = bytes@;
                &&& b[0] != 5 ==> out.send is None && out.next == ClientNext::Fail(
                    ClientError::InvalidVersion,
                )
                &&& b[0] == 5 && b[1] == 2 ==> match old(self).credentials() {
                    Some((u, p)) => {
                        &&& client_sends(
                            out,
                            userpass_request_bytes(encode_utf8(u@), encode_utf8(p@)),
                        )
                        &&& final(self).phase() is AuthReply
                        &&& out.next == (ClientNext::Read { len: 2, exact: true })
                    },
                    None => out.send is None && out.next == ClientNext::Fail(
                        ClientError::CredentialsRequired,
                    ),
                }
                &&& b[0] == 5 && b[1] != 2 && b[1] != 0 ==> out.send is None && out.next
                    == ClientNext::Fail(ClientError::InvalidMethod)
                &&& b[0] == 5 && b[1] == 0 ==> sends_request(out, old(self).target())
                &&& !out.shutdown
            },
            old(self).phase() is AuthReply ==> {
                &&& bytes@[1] != 0 ==> out.send is None && !out.shutdown && out.next
                    == ClientNext::Fail(ClientError::WrongCredentials)
                &&& bytes@[1] == 0 ==> sends_request(out, old(self).target())
            },
            old(self).phase() is ReplyHeader ==> {
                &&& out.send is None
                &&& !out.shutdown
                &&& final(self).phase() is BoundType
            },
            old(self).phase() is BoundType ==> {
                let kind = addr_type_of(bytes@[0] as int);
                &&& out.send is None
                &&& kind is None ==> out.shutdown && out.next == ClientNext::Fail(
                    ClientError::AddrTypeNotSupported,
                )
                &&& kind == Some(AddrType::Domain) ==> !out.shutdown && final(self).phase()
                    is BoundDomainLen && out.next == (ClientNext::Read { len: 1, exact: true })
                &&& kind == Some(AddrType::V4) ==> !out.shutdown && final(self).phase() == (
                ClientPhase::BoundAddress { kind: AddrType::V4, len: 4 }) && out.next == (
                ClientNext::Read { len: 6, exact: true })
                &&& kind == Some(AddrType::V6) ==> !out.shutdown && final(self).phase() == (
                ClientPhase::BoundAddress { kind: AddrType::V6, len: 16 }) && out.next == (
                ClientNext::Read { len: 18, exact: true })
            },
            old(self).phase() is BoundDomainLen ==> {
                &&& out.send is None
                &&& !out.shutdown
                &&& final(self).phase() == (ClientPhase::BoundAddress {
                    kind: AddrType::Domain,
                    len: bytes@[0],
                })
                &&& out.next == (ClientNext::Read { len: (bytes@[0] + 2) as usize, exact: true })
            },
            old(self).phase() matches ClientPhase::BoundAddress { kind, len } ==> {
                let b = bytes@;
                &&& out.send is None
                &&& !out.shutdown
                &&& out.next matches ClientNext::Finish(d)
                &&& d@ == destination_of(
                    kind,
                    b.subrange(0, len as int),
                    port_of(b[len as int], b[len + 1]),
                )
            },
    {
        proof {
            use_type_invariant(&*self);
        }
        match self.phase {
            ClientPhase::MethodSelection => {
                if bytes[0] != VERSION5 {
                    self.fail(ClientError::InvalidVersion, false)
                } else if bytes[1] == Methods::UserPass.code() {
                    match &self.credentials {
                        Some((username, password)) => {
                            let data = userpass_request(username.as_str(), password.as_str());
                            self.phase = ClientPhase::AuthReply;
                            ClientOutput {
                                send: Some(data),
                                shutdown: false,
                                next: ClientNext::Read { len: 2, exact: true },
                            }
                        },
                        None => self.fail(ClientError::CredentialsRequired, false),
                    }
                } else if bytes[1] != Methods::NoAuth.code() {
                    self.fail(ClientError::InvalidMethod, false)
                } else {
                    self.request()
                }
            },
            ClientPhase::AuthReply => {
                if bytes[1] != Response::Success.code() {
                    self.fail(ClientError::WrongCredentials, false)
                } else {
                    self.request()
                }
            },
            ClientPhase::ReplyHeader => {
                self.phase = ClientPhase::BoundType;
                ClientOutput {
                    send: None,
                    shutdown: false,
                    next: ClientNext::Read { len: 1, exact: true },
                }
            },
            ClientPhase::BoundType => {
                match AddrType::from(bytes[0] as usize) {
                    Some(AddrType::Domain) => {
                        self.phase = ClientPhase::BoundDomainLen;
                        ClientOutput {
                            send: None,
                            shutdown: false,
                            next: ClientNext::Read { len: 1, exact: true },
                        }
                    },
                    Some(AddrType::V4) => {
                        self.phase = ClientPhase::BoundAddress { kind: AddrType::V4, len: 4 };
                        ClientOutput {
                            send: None,
                            shutdown: false,
                            next: ClientNext::Read { len: 6, exact: true },
                        }
                    },
                    Some(AddrType::V6) => {
                        self.phase = ClientPhase::BoundAddress { kind: AddrType::V6, len: 16 };
                        ClientOutput {
                            send: None,
                            shutdown: false,
                            next: ClientNext::Read { len: 18, exact: true },
                        }
                    },
                    None => self.fail(ClientError::AddrTypeNotSupported, true),
                }
            },
            ClientPhase::BoundDomainLen => {
                self.phase = ClientPhase::BoundAddress { kind: AddrType::Domain, len: bytes[0] };
                ClientOutput {
                    send: None,
                    shutdown: false,
                    next: ClientNext::Read { len: bytes[0] as usize + 2, exact: true },
                }
            },
            ClientPhase::BoundAddress { kind, len } => {
                let n = len as usize;
                let addr = vstd::slice::slice_subrange(bytes.as_slice(), 0, n);
                let port = decode_port(bytes[n], bytes[n + 1]);
                let dest = addr_to_socket(&kind, addr, port);
                self.phase = ClientPhase::Done;
                ClientOutput { send: None, shutdown: false, next: ClientNext::Finish(dest) }
            },
            ClientPhase::Done => {
                assert(false);
                self.fail(ClientError::InvalidMethod, false)
            },
        }
    }
}

} // verus!
