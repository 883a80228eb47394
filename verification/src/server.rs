//! The server side of the handshake as a state machine.
//!
//! The machine never touches a socket. Each step takes what was read (or the
//! news that the outgoing connection is up) and says what to send, whether to
//! shut the client socket down, and what to do next: read so many bytes,
//! connect to a destination, relay, or end.
use vstd::prelude::*;
use vstd::utf8::{valid_utf8, decode_utf8};
use crate::socks::{
    AddrType, Command, Methods, Response, VERSION5, RESERVED, addr_type_of,
};
use crate::users::{User, registered_users};
use crate::address::{Destination, addr_to_socket, decode_port, destination_of, port_of};

verus! {

/// Which of the two server variants a session follows.
///
/// `Library` is the server of `SocksServer`: it prefers username/password,
/// takes "no authentication" only where `no_auth` allows it, reads a
/// three-byte request header and the address type after it, and checks the
/// command once the address has been read. `Standalone` is the server of the
/// stand-alone program: it prefers "no authentication", reads a four-byte
/// request header that ends with the address type, and checks the command and
/// the address type before it reads the address.
#[derive(PartialEq, Eq, Structural, Debug, Clone, Copy)]
pub enum Flavor {
    Library { no_auth: bool },
    Standalone,
}

/// Where a session stands: what it waits for.
pub enum Phase {
    /// Waits for the version byte and the number of methods.
    Greeting,
    /// Waits for `count` method codes.
    Methods { count: u8 },
    /// Waits for the sub-negotiation version byte and the username length.
    UserLen,
    /// Waits for `len` bytes of username.
    Username { len: u8 },
    /// Waits for the password length.
    PassLen { username: String },
    /// Waits for `len` bytes of password.
    Password { username: String, len: u8 },
    /// Waits for the request header.
    Request,
    /// Waits for the address type byte (library variant only).
    AddrType { command: u8 },
    /// Waits for the length byte of a domain name.
    DomainLen { command: u8 },
    /// Waits for `len` address bytes and the two port bytes.
    Address { command: u8, kind: AddrType, len: u8 },
    /// Waits for the outgoing connection.
    Connecting,
    /// The handshake is over and the data is relayed.
    Relaying,
    /// The session is over.
    Closed,
}

/// What the machine is handed.
pub enum Event {
    /// The bytes of the read that the machine asked for.
    Bytes(Vec<u8>),
    /// The connection to the destination is up.
    Connected,
}

/// Why a session ended in error.
#[derive(PartialEq, Eq, Structural, Debug, Clone, Copy)]
pub enum Failure {
    /// The server refused, for the given reason.
    Refused(Response),
    /// The next read meets the end of input, since the socket was shut down.
    EndOfInput,
}

/// What to do after the reply (if any) has been sent.
pub enum Next {
    /// Read `len` bytes: all of them where `exact`, else one read whose
    /// missing bytes count as zero.
    Read { len: usize, exact: bool },
    /// Connect to the destination, then hand back `Event::Connected`.
    Connect(Destination),
    /// Copy data both ways until either side closes.
    Relay,
    /// End without error.
    Finish,
    /// End with an error.
    Fail(Failure),
}

/// The result of a step: first send `reply`, then shut the socket down if
/// `shutdown`, then do `next`.
pub struct Output {
    pub reply: Option<Vec<u8>>,
    pub shutdown: bool,
    pub next: Next,
}

/// How access was granted, if it was.
pub enum Grant {
    Pending,
    NoAuth,
    Credentials(Seq<char>, Seq<char>),
}

/// The protocol state of one client connection.
pub struct SocksServerConnection {
    flavor: Flavor,
    phase: Phase,
    grant: Ghost<Grant>,
}

/// The number of bytes of the request header that the variant reads.
pub open spec fn request_header_len(flavor: Flavor) -> nat {
    match flavor {
        Flavor::Library { .. } => 3,
        Flavor::Standalone => 4,
    }
}

/// The read that a session in a phase waits for: its length, and whether it
/// must be read in full.
pub open spec fn awaited_read(flavor: Flavor, phase: Phase) -> Option<(nat, bool)> {
    match phase {
        Phase::Greeting => Some((2, true)),
        Phase::Methods { count } => Some((count as nat, true)),
        Phase::UserLen => Some((2, true)),
        Phase::Username { len } => Some((len as nat, true)),
        Phase::PassLen { .. } => Some((1, true)),
        Phase::Password { len, .. } => Some((len as nat, true)),
        Phase::Request => Some((request_header_len(flavor), false)),
        Phase::AddrType { .. } => Some((1, true)),
        Phase::DomainLen { .. } => Some((1, true)),
        Phase::Address { len, .. } => Some(((len + 2) as nat, true)),
        _ => None,
    }
}

/// The method that the server picks from the codes a client offers, if any.
pub open spec fn method_choice(flavor: Flavor, offered: Seq<u8>) -> Option<Methods> {
    match flavor {
        Flavor::Library { no_auth } => if offered.contains(2u8) {
            Some(Methods::UserPass)
        } else if no_auth && offered.contains(0u8) {
            Some(Methods::NoAuth)
        } else {
            None
        },
        Flavor::Standalone => if offered.contains(0u8) {
            Some(Methods::NoAuth)
        } else if offered.contains(2u8) {
            Some(Methods::UserPass)
        } else {
            None
        },
    }
}

/// Whether the variant takes clients without authentication at all.
pub open spec fn allows_no_auth(flavor: Flavor) -> bool {
    match flavor {
        Flavor::Library { no_auth } => no_auth,
        Flavor::Standalone => true,
    }
}

/// Whether a grant lets the client go on to a request.
pub open spec fn granted(flavor: Flavor, grant: Grant) -> bool {
    match grant {
        Grant::Pending => false,
        Grant::NoAuth => allows_no_auth(flavor),
        Grant::Credentials(u, p) => registered_users().contains((u, p)),
    }
}

/// Whether a phase comes after authentication.
pub open spec fn past_auth(phase: Phase) -> bool {
    match phase {
        Phase::Request | Phase::AddrType { .. } | Phase::DomainLen { .. } | Phase::Address { .. }
        | Phase::Connecting | Phase::Relaying => true,
        _ => false,
    }
}

/// How a session of the variant ends when the client offers no acceptable
/// method or wrong credentials.
pub open spec fn refusal_end(flavor: Flavor) -> Next {
    match flavor {
        Flavor::Library { .. } => Next::Fail(Failure::EndOfInput),
        Flavor::Standalone => Next::Finish,
    }
}

/// How a session of the variant ends when the client speaks another version.
pub open spec fn version_mismatch_end(flavor: Flavor) -> Next {
    match flavor {
        Flavor::Library { .. } => Next::Fail(Failure::Refused(Response::Failure)),
        Flavor::Standalone => Next::Finish,
    }
}

/// The phase in which the address of the given type is read.
pub open spec fn address_phase(command: u8, kind: AddrType) -> Phase {
    match kind {
        AddrType::Domain => Phase::DomainLen { command },
        AddrType::V4 => Phase::Address { command, kind, len: 4 },
        AddrType::V6 => Phase::Address { command, kind, len: 16 },
    }
}

/// The reply that tells the client its request succeeded.
pub open spec fn success_reply_bytes() -> Seq<u8> {
    seq![5u8, 0u8, 0u8, 1u8, 127u8, 0u8, 0u8, 1u8, 0u8, 0u8]
}

/// After the address type byte `atyp` of a request whose command byte is
/// `command`: the session keeps that command, and reads the length byte of a
/// domain name, or the 4 + 2 bytes of an IPv4 address and its port, or the
/// 16 + 2 bytes of an IPv6 address and its port.
pub open spec fn reads_address(phase: Phase, out: Output, command: u8, atyp: u8) -> bool {
    &&& atyp == 3 ==> phase == (Phase::DomainLen { command }) && out.next == (Next::Read {
        len: 1,
        exact: true,
    })
    &&& atyp == 1 ==> phase == (Phase::Address { command, kind: AddrType::V4, len: 4 }) && out.next
        == (Next::Read { len: 6, exact: true })
    &&& atyp == 4 ==> phase == (Phase::Address { command, kind: AddrType::V6, len: 16 })
        && out.next == (Next::Read { len: 18, exact: true })
}

/// The bytes of an event; empty for `Connected`.
pub open spec fn event_bytes(event: Event) -> Seq<u8> {
    match event {
        Event::Bytes(b) => b@,
        Event::Connected => Seq::empty(),
    }
}

/// Whether an output sends exactly `bytes`.
pub open spec fn sends(out: Output, bytes: Seq<u8>) -> bool {
    out.reply matches Some(r) && r@ == bytes
}

/// The reply that a session gives once the connection is up.
pub fn success_reply() -> (r: Vec<u8>)
    ensures
        r@ == success_reply_bytes(),
{
    let r = vec![VERSION5, Response::Success.code(), RESERVED, 1, 127, 0, 0, 1, 0, 0];
    assert(r@ =~= success_reply_bytes());
    r
}

/// Whether `code` is among the offered method codes.
fn offers(offered: &[u8], code: u8) -> (b: bool)
    ensures
        b == offered@.contains(code),
{
    let mut i: usize = 0;
    while i < offered.len()
        invariant
            0 <= i <= offered@.len(),
            forall|j: int| 0 <= j < i ==> offered@[j] != code,
        decreases offered@.len() - i,
    {
        if offered[i] == code {
            assert(offered@[i as int] == code);
            return true;
        }
        i = i + 1;
    }
    false
}

/// Picks the method that the variant accepts from the codes a client offers.
pub fn select_method(flavor: Flavor, offered: &[u8]) -> (m: Option<Methods>)
    ensures
        m == method_choice(flavor, offered@),
{
    let user_pass = offers(offered, Methods::UserPass.code());
    let no_auth = offers(offered, Methods::NoAuth.code());
    match flavor {
        Flavor::Library { no_auth: allowed } => {
            if user_pass {
                Some(Methods::UserPass)
            } else if allowed && no_auth {
                Some(Methods::NoAuth)
            } else {
                None
            }
        },
        Flavor::Standalone => {
            if no_auth {
                Some(Methods::NoAuth)
            } else if user_pass {
                Some(Methods::UserPass)
            } else {
                None
            }
        },
    }
}

/// Decodes UTF-8 bytes into a `String`, or gives `None` where they are not UTF-8.
///
/// Trusted: calls `String::from_utf8`, which the standard library documents to
/// succeed exactly on valid UTF-8 and then to hold the decoded characters.
#[verifier::external_body]
fn utf8_string(bytes: Vec<u8>) -> (s: Option<String>)
    ensures
        s is Some <==> valid_utf8(bytes@),
        s matches Some(s) ==> s@ == decode_utf8(bytes@),
{
    String::from_utf8(bytes).ok()
}

/// Decodes bytes that are known to be UTF-8.
fn utf8_known(bytes: Vec<u8>) -> (s: String)
    requires
        valid_utf8(bytes@),
    ensures
        s@ == decode_utf8(bytes@),
{
    match utf8_string(bytes) {
        Some(s) => s,
        None => {
            assert(false);
            String::new()
        },
    }
}

/// An output that sends nothing and asks for a read.
fn read(len: usize, exact: bool) -> (out: Output)
    ensures
        out.reply is None,
        !out.shutdown,
        out.next == (Next::Read { len, exact }),
{
    Output { reply: None, shutdown: false, next: Next::Read { len, exact } }
}

/// A two-byte reply.
fn reply2(a: u8, b: u8) -> (r: Vec<u8>)
    ensures
        r@ == seq![a, b],
{
    let r = vec![a, b];
    assert(r@ =~= seq![a, b]);
    r
}

impl SocksServerConnection {
    #[verifier::type_invariant]
    spec fn inv(self) -> bool {
        &&& past_auth(self.phase) ==> granted(self.flavor, self.grant@)
        &&& !past_auth(self.phase) && !(self.phase is Closed) ==> self.grant@ is Pending
        &&& self.phase matches Phase::Address { kind, len, .. } ==> (kind == AddrType::V4
            ==> len == 4) && (kind == AddrType::V6 ==> len == 16)
        &&& self.flavor is Standalone ==> match self.phase {
            Phase::DomainLen { command } => command == 1,
            Phase::Address { command, .. } => command == 1,
            Phase::AddrType { .. } => false,
            _ => true,
        }
    }

    /// The variant this session follows.
    pub closed spec fn flavor(self) -> Flavor {
        self.flavor
    }

    /// Where this session stands.
    pub closed spec fn phase(self) -> Phase {
        self.phase
    }

    /// How access was granted so far.
    pub closed spec fn grant(self) -> Grant {
        self.grant@
    }

    /// Whether the session takes this event next: bytes of exactly the
    /// awaited length (valid UTF-8 where a username or password is read), or
    /// the news of the connection while it waits for one.
    pub open spec fn accepts(self, event: Event) -> bool {
        match event {
            Event::Bytes(b) => {
                &&& awaited_read(self.flavor(), self.phase()) matches Some((n, _))
                &&& b@.len() == n
                &&& (self.phase() is Username || self.phase() is Password) ==> valid_utf8(b@)
            },
            Event::Connected => self.phase() is Connecting,
        }
    }

    /// A session of the library server; `no_auth` lets clients in without
    /// authentication when they offer no username/password.
    pub fn new(no_auth: bool) -> (s: SocksServerConnection)
        ensures
            s.flavor() == (Flavor::Library { no_auth }),
            s.phase() is Greeting,
            s.grant() is Pending,
    {
        SocksServerConnection {
            flavor: Flavor::Library { no_auth },
            phase: Phase::Greeting,
            grant: Ghost(Grant::Pending),
        }
    }

    /// A session of the stand-alone server.
    pub fn standalone() -> (s: SocksServerConnection)
        ensures
            s.flavor() == Flavor::Standalone,
            s.phase() is Greeting,
            s.grant() is Pending,
    {
        SocksServerConnection {
            flavor: Flavor::Standalone,
            phase: Phase::Greeting,
            grant: Ghost(Grant::Pending),
        }
    }

    /// Whether the next read is a username or a password, which must be UTF-8.
    pub fn expects_text(&self) -> (b: bool)
        ensures
            b == (self.phase() is Username || self.phase() is Password),
    {
        match self.phase {
            Phase::Username { .. } | Phase::Password { .. } => true,
            _ => false,
        }
    }

    /// The first thing to do: read the greeting header.
    pub fn start(&self) -> (out: Output)
        ensures
            out.reply is None,
            !out.shutdown,
            out.next == (Next::Read { len: 2, exact: true }),
    {
        read(2, true)
    }

    /// Takes one event and says what to send and what to do next.
    ///
    /// Greeting: another version than 5 shuts the socket down and ends the
    /// session (with error `Failure` in the library variant); else the
    /// method codes are read. Methods: the variant's choice is answered with
    /// the version and the chosen method; with no acceptable method the
    /// answer is the version and 1, the socket is shut down and the session
    /// ends. Username and password: they are read by their length bytes; a
    /// pair of the built-in table is answered with 1 and 0 and leads to the
    /// request, any other with 5 and 1, a shutdown and the end. Request: the
    /// command, the address type and the address are read; a command other
    /// than CONNECT or an unknown address type shuts the socket down and ends
    /// the session with that reason; a CONNECT request asks to connect to the
    /// decoded destination. Connected: the success reply is sent and the data
    /// is relayed.
    pub fn step(&mut self, event: Event) -> (out: Output)
        requires
            old(self).accepts(event),
        ensures
            final(self).flavor() == old(self).flavor(),
            out.next matches Next::Read { len, exact } ==> awaited_read(
                final(self).flavor(),
                final(self).phase(),
            ) == Some((len as nat, exact)),
            out.next is Connect ==> final(self).phase() is Connecting && granted(
                final(self).flavor(),
                final(self).grant(),
            ),
            out.next is Finish || out.next is Fail || out.shutdown ==> final(self).phase() is Closed,
            final(self).phase() is Closed ==> out.next is Finish || out.next is Fail,
            past_auth(final(self).phase()) ==> granted(final(self).flavor(), final(self).grant()),
            old(self).phase() is Methods ==> (out.shutdown <==> method_choice(
                old(self).flavor(),
                event_bytes(event),
            ) is None),
            old(self).phase() matches Phase::Password { username, .. } ==> (out.shutdown
                <==> !registered_users().contains((username@, decode_utf8(event_bytes(event))))),
            awaited_read(final(self).flavor(), final(self).phase()) matches Some((n, e)) ==> out.next
                == (Next::Read { len: n as usize, exact: e }),
            old(self).phase() is Greeting ==> {
                let b = event_bytes(event);
                if b[0] != 5 {
                    &&& out.reply is None
                    &&& out.shutdown
                    &&& out.next == version_mismatch_end(old(self).flavor())
                } else {
                    &&& out.reply is None
                    &&& !out.shutdown
                    &&& final(self).phase() == (Phase::Methods { count: b[1] })
                    &&& out.next == (Next::Read { len: b[1] as usize, exact: true })
                }
            },
            old(self).phase() is Methods ==> {
                let choice = method_choice(old(self).flavor(), event_bytes(event));
                &&& choice == Some(Methods::UserPass) ==> {
                    &&& sends(out, seq![5u8, 2u8])
                    &&& !out.shutdown
                    &&& final(self).phase() is UserLen
                    &&& final(self).grant() is Pending
                }
                &&& choice == Some(Methods::NoAuth) ==> {
                    &&& sends(out, seq![5u8, 0u8])
                    &&& !out.shutdown
                    &&& final(self).phase() is Request
                    &&& final(self).grant() is NoAuth
                }
                &&& choice is None ==> {
                    &&& sends(out, seq![5u8, 1u8])
                    &&& out.shutdown
                    &&& out.next == refusal_end(old(self).flavor())
                    &&& final(self).grant() == old(self).grant()
                }
            },
            old(self).phase() is UserLen ==> {
                &&& out.reply is None
                &&& !out.shutdown
                &&& final(self).phase() == (Phase::Username { len: event_bytes(event)[1] })
            },
            old(self).phase() is Username ==> {
                &&& out.reply is None
                &&& !out.shutdown
                &&& final(self).phase() matches Phase::PassLen { username }
                &&& username@ == decode_utf8(event_bytes(event))
            },
            old(self).phase() matches Phase::PassLen { username } ==> {
                &&& out.reply is None
                &&& !out.shutdown
                &&& final(self).phase() matches Phase::Password { username: u, len }
                &&& u@ == username@
                &&& len == event_bytes(event)[0]
            },
            old(self).phase() matches Phase::Password { username, .. } ==> {
                let credentials = (username@, decode_utf8(event_bytes(event)));
                if registered_users().contains(credentials) {
                    &&& sends(out, seq![1u8, 0u8])
                    &&& !out.shutdown
                    &&& final(self).phase() is Request
                    &&& final(self).grant() == Grant::Credentials(credentials.0, credentials.1)
                } else {
                    &&& sends(out, seq![5u8, 1u8])
                    &&& out.shutdown
                    &&& out.next == refusal_end(old(self).flavor())
                    &&& final(self).grant() == old(self).grant()
                }
            },
            old(self).phase() is Request && old(self).flavor() is Library ==> {
                &&& out.reply is None
                &&& !out.shutdown
                &&& final(self).phase() == (Phase::AddrType { command: event_bytes(event)[1] })
            },
            old(self).phase() is Request && old(self).flavor() is Standalone ==> {
                let b = event_bytes(event);
                &&& out.reply is None
                &&& b[1] != 1 ==> out.shutdown && out.next == Next::Fail(
                    Failure::Refused(Response::CommandNotSupported),
                )
                &&& b[1] == 1 && addr_type_of(b[3] as int) is None ==> out.shutdown && out.next
                    == Next::Fail(Failure::Refused(Response::AddrTypeNotSupported))
                &&& b[1] == 1 && addr_type_of(b[3] as int) is Some ==> !out.shutdown
                    && final(self).phase() == address_phase(b[1], addr_type_of(b[3] as int)->0)
                &&& b[1] == 1 ==> reads_address(final(self).phase(), out, b[1], b[3])
            },
            old(self).phase() matches Phase::AddrType { command } ==> {
                let b = event_bytes(event);
                &&& out.reply is None
                &&& addr_type_of(b[0] as int) is None ==> out.shutdown && out.next == Next::Fail(
                    Failure::Refused(Response::AddrTypeNotSupported),
                )
                &&& addr_type_of(b[0] as int) is Some ==> !out.shutdown
                    && final(self).phase() == address_phase(command, addr_type_of(b[0] as int)->0)
                &&& reads_address(final(self).phase(), out, command, b[0])
            },
            old(self).phase() matches Phase::DomainLen { command } ==> {
                &&& out.reply is None
                &&& !out.shutdown
                &&& final(self).phase() == (Phase::Address {
                    command,
                    kind: AddrType::Domain,
                    len: event_bytes(event)[0],
                })
                &&& out.next == (Next::Read { len: (event_bytes(event)[0] + 2) as usize, exact: true })
            },
            old(self).phase() matches Phase::Address { command, kind, len } ==> {
                let b = event_bytes(event);
                let dest = destination_of(
                    kind,
                    b.subrange(0, len as int),
                    port_of(b[len as int], b[len + 1]),
                );
                &&& out.reply is None
                &&& command == 1 ==> {
                    &&& !out.shutdown
                    &&& out.next matches Next::Connect(d)
                    &&& d@ == dest
                }
                &&& command != 1 ==> out.shutdown && out.next == Next::Fail(
                    Failure::Refused(Response::CommandNotSupported),
                )
            },
            old(self).phase() is Connecting ==> {
                &&& sends(out, success_reply_bytes())
                &&& !out.shutdown
                &&& final(self).phase() is Relaying
                &&& out.next is Relay
            },
            !(old(self).phase() is Methods) && !(old(self).phase() is Password) ==> final(self).grant()
                == old(self).grant(),
    {
        proof {
            use_type_invariant(&*self);
        }
        let flavor = self.flavor;
        let mut phase = Phase::Closed;
        std::mem::swap(&mut phase, &mut self.phase);
        match event {
            Event::Connected => {
                self.phase = Phase::Relaying;
                Output { reply: Some(success_reply()), shutdown: false, next: Next::Relay }
            },
            Event::Bytes(b) => {
                match phase {
                    Phase::Greeting => {
                        if b[0] != VERSION5 {
                            let next = match flavor {
                                Flavor::Library { .. } => Next::Fail(
                                    Failure::Refused(Response::Failure),
                                ),
                                Flavor::Standalone => Next::Finish,
                            };
                            Output { reply: None, shutdown: true, next }
                        } else {
                            self.phase = Phase::Methods { count: b[1] };
                            read(b[1] as usize, true)
                        }
                    },
                    Phase::Methods { .. } => {
                        match select_method(flavor, b.as_slice()) {
                            Some(Methods::UserPass) => {
                                self.phase = Phase::UserLen;
                                Output {
                                    reply: Some(reply2(VERSION5, Methods::UserPass.code())),
                                    shutdown: false,
                                    next: Next::Read { len: 2, exact: true },
                                }
                            },
                            Some(Methods::NoAuth) => {
                                self.grant = Ghost(Grant::NoAuth);
                                self.phase = Phase::Request;
                                Output {
                                    reply: Some(reply2(VERSION5, Methods::NoAuth.code())),
                                    shutdown: false,
                                    next: Self::request_read(flavor),
                                }
                            },
                            _ => Output {
                                reply: Some(reply2(VERSION5, Response::Failure.code())),
                                shutdown: true,
                                next: Self::refused(flavor),
                            },
                        }
                    },
                    Phase::UserLen => {
                        self.phase = Phase::Username { len: b[1] };
                        read(b[1] as usize, true)
                    },
                    Phase::Username { .. } => {
                        let username = utf8_known(b);
                        self.phase = Phase::PassLen { username };
                        read(1, true)
                    },
                    Phase::PassLen { username } => {
                        self.phase = Phase::Password { username, len: b[0] };
                        read(b[0] as usize, true)
                    },
                    Phase::Password { username, .. } => {
                        let password = utf8_known(b);
                        let ghost credentials = (username@, password@);
                        let user = User::new(username, password);
                        if User::auth(&user) {
                            self.grant = Ghost(Grant::Credentials(credentials.0, credentials.1));
                            self.phase = Phase::Request;
                            Output {
                                reply: Some(reply2(1, Response::Success.code())),
                                shutdown: false,
                                next: Self::request_read(flavor),
                            }
                        } else {
                            Output {
                                reply: Some(reply2(VERSION5, Response::Failure.code())),
                                shutdown: true,
                                next: Self::refused(flavor),
                            }
                        }
                    },
                    Phase::Request => {
                        match flavor {
                            Flavor::Library { .. } => {
                                self.phase = Phase::AddrType { command: b[1] };
                                read(1, true)
                            },
                            Flavor::Standalone => {
                                if b[1] != Command::Connect.code() {
                                    Output {
                                        reply: None,
                                        shutdown: true,
                                        next: Next::Fail(
                                            Failure::Refused(Response::CommandNotSupported),
                                        ),
                                    }
                                } else {
                                    match AddrType::from(b[3] as usize) {
                                        Some(kind) => {
                                            let (phase, out) = Self::address_start(b[1], kind);
                                            self.phase = phase;
                                            out
                                        },
                                        None => Output {
                                            reply: None,
                                            shutdown: true,
                                            next: Next::Fail(
                                                Failure::Refused(Response::AddrTypeNotSupported),
                                            ),
                                        },
                                    }
                                }
                            },
                        }
                    },
                    Phase::AddrType { command } => {
                        match AddrType::from(b[0] as usize) {
                            Some(kind) => {
                                let (phase, out) = Self::address_start(command, kind);
                                self.phase = phase;
                                out
                            },
                            None => Output {
                                reply: None,
                                shutdown: true,
                                next: Next::Fail(Failure::Refused(Response::AddrTypeNotSupported)),
                            },
                        }
                    },
                    Phase::DomainLen { command } => {
                        self.phase = Phase::Address { command, kind: AddrType::Domain, len: b[0] };
                        read(b[0] as usize + 2, true)
                    },
                    Phase::Address { command, kind, len } => {
                        let n = len as usize;
                        let addr = vstd::slice::slice_subrange(b.as_slice(), 0, n);
                        let port = decode_port(b[n], b[n + 1]);
                        let dest = addr_to_socket(&kind, addr, port);
                        if command == Command::Connect.code() {
                            self.phase = Phase::Connecting;
                            Output { reply: None, shutdown: false, next: Next::Connect(dest) }
                        } else {
                            Output {
                                reply: None,
                                shutdown: true,
                                next: Next::Fail(Failure::Refused(Response::CommandNotSupported)),
                            }
                        }
                    },
                    _ => {
                        assert(false);
                        Output { reply: None, shutdown: true, next: Next::Finish }
                    },
                }
            },
        }
    }

    /// The read of the request header.
    fn request_read(flavor: Flavor) -> (next: Next)
        ensures
            next == (Next::Read { len: request_header_len(flavor) as usize, exact: false }),
    {
        match flavor {
            Flavor::Library { .. } => Next::Read { len: 3, exact: false },
            Flavor::Standalone => Next::Read { len: 4, exact: false },
        }
    }

    /// How the variant ends after a refused method or refused credentials.
    fn refused(flavor: Flavor) -> (next: Next)
        ensures
            next == refusal_end(flavor),
    {
        match flavor {
            Flavor::Library { .. } => Next::Fail(Failure::EndOfInput),
            Flavor::Standalone => Next::Finish,
        }
    }

    /// The phase and the read that start reading an address of a given type.
    fn address_start(command: u8, kind: AddrType) -> (res: (Phase, Output))
        ensures
            res.0 == address_phase(command, kind),
            res.1.reply is None,
            !res.1.shutdown,
            res.1.next matches Next::Read { len, exact } && exact && awaited_read(
                Flavor::Standalone,
                res.0,
            ) == Some((len as nat, true)),
    {
        match kind {
            AddrType::Domain => (Phase::DomainLen { command }, read(1, true)),
            AddrType::V4 => (Phase::Address { command, kind, len: 4 }, read(6, true)),
            AddrType::V6 => (Phase::Address { command, kind, len: 16 }, read(18, true)),
        }
    }
}

} // verus!
