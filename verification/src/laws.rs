//! Properties that relate the client's messages to the server's reading of them.
use vstd::prelude::*;
use vstd::utf8::{encode_utf8, decode_utf8, encode_utf8_decode_utf8, encode_utf8_valid_utf8, valid_utf8};
use crate::socks::{
    AddrType, Command, Methods, Response, addr_type_code, addr_type_of, command_code, command_of,
    method_code, response_code,
};
use crate::address::{
    DestinationView, TargetAddr, connect_request_bytes, destination_of, fixed_addr_len, port_bytes,
    port_of, target_addr_type,
    segment_of, target_destination, target_len,
};
use crate::client::{ClientPhase, client_awaited_read, greeting_bytes, userpass_request_bytes};
use crate::server::{
    Failure, Flavor, Grant, Next, Phase, address_phase, awaited_read, granted, method_choice,
    refusal_end, success_reply_bytes, version_mismatch_end,
};
use crate::users::registered_users;

verus! {

/// A CONNECT request, read the way the server reads it, gives back a CONNECT
/// command, the target's address type and the target itself: after version,
/// command, reserved byte and address type comes (for a domain name) the
/// name's length, then the address bytes, then the port. This holds for
/// every IP target, and for every domain name shorter than 256 bytes.
pub proof fn lemma_request_roundtrip(t: TargetAddr)
    requires
        target_len(t) < 256,
    ensures
        ({
            let req = connect_request_bytes(t);
            let kind = target_addr_type(t);
            let start: int = if kind == AddrType::Domain { 5 } else { 4 };
            let n = target_len(t) as int;
            &&& req.len() == start + n + 2
            &&& req[0] == 5
            &&& command_of(req[1] as int) == Some(Command::Connect)
            &&& req[2] == 0
            &&& addr_type_of(req[3] as int) == Some(kind)
            &&& kind == AddrType::Domain ==> req[4] as int == n
            &&& n >= fixed_addr_len(kind)
            &&& destination_of(
                kind,
                req.subrange(start, start + n),
                port_of(req[start + n], req[start + n + 1]),
            ) == target_destination(t)
        }),
{
    let req = connect_request_bytes(t);
    let kind = target_addr_type(t);
    let start: int = if kind == AddrType::Domain { 5 } else { 4 };
    let n = target_len(t) as int;
    match t {
        TargetAddr::V4(octets, port) => {
            assert(req.subrange(start, start + n) =~= octets@);
            assert(req.subrange(start, start + n).subrange(0, 4) =~= octets@);
        },
        TargetAddr::V6(octets, port) => {
            assert(req.subrange(start, start + n) =~= octets@);
            assert(Seq::new(8, |i: int| segment_of(req.subrange(start, start + n), i)) =~= Seq::new(
                8,
                |i: int| segment_of(octets@, i),
            ));
        },
        TargetAddr::Domain((name, port)) => {
            assert(req.subrange(start, start + n) =~= encode_utf8(name@));
        },
    }
}

/// The server reads back the credentials that the client sends: where the
/// username and the password take fewer than 256 bytes each, the length
/// bytes are their lengths, the bytes between are theirs, and decoding them
/// as UTF-8 gives the username and the password.
pub proof fn lemma_credentials_roundtrip(username: Seq<char>, password: Seq<char>)
    requires
        encode_utf8(username).len() < 256,
        encode_utf8(password).len() < 256,
    ensures
        ({
            let u = encode_utf8(username);
            let p = encode_utf8(password);
            let msg = userpass_request_bytes(u, p);
            &&& msg[1] as nat == u.len()
            &&& msg.subrange(2, 2 + u.len() as int) == u
            &&& msg[2 + u.len() as int] as nat == p.len()
            &&& msg.subrange(3 + u.len() as int, msg.len() as int) == p
            &&& valid_utf8(u) && decode_utf8(u) == username
            &&& valid_utf8(p) && decode_utf8(p) == password
        }),
{
    let u = encode_utf8(username);
    let p = encode_utf8(password);
    let msg = userpass_request_bytes(u, p);
    assert(msg.subrange(2, 2 + u.len() as int) =~= u);
    assert(msg.subrange(3 + u.len() as int, msg.len() as int) =~= p);
    encode_utf8_decode_utf8(username);
    encode_utf8_decode_utf8(password);
    encode_utf8_valid_utf8(username);
    encode_utf8_valid_utf8(password);
}

/// The server only ever picks a method that the client offered.
pub proof fn lemma_choice_is_offered(flavor: Flavor, offered: Seq<u8>)
    ensures
        method_choice(flavor, offered) matches Some(m) ==> offered.contains(method_code(m)),
{
}

/// What each server variant picks from the greeting of the client: a client
/// with credentials gets username/password from the library server and "no
/// authentication" from the stand-alone server; a client without credentials
/// gets "no authentication" where the server allows it, and nothing from a
/// library server that requires authentication.
pub proof fn lemma_greeting_negotiation(no_auth: bool)
    ensures
        method_choice(Flavor::Library { no_auth }, greeting_bytes(true).subrange(2, 4)) == Some(
            Methods::UserPass,
        ),
        method_choice(Flavor::Standalone, greeting_bytes(true).subrange(2, 4)) == Some(
            Methods::NoAuth,
        ),
        method_choice(Flavor::Library { no_auth }, greeting_bytes(false).subrange(2, 3)) == (if no_auth {
            Some(Methods::NoAuth)
        } else {
            None
        }),
        method_choice(Flavor::Standalone, greeting_bytes(false).subrange(2, 3)) == Some(
            Methods::NoAuth,
        ),
{
    let with = greeting_bytes(true).subrange(2, 4);
    let without = greeting_bytes(false).subrange(2, 3);
    assert(with[0] == 2u8);
    assert(with[1] == 0u8);
    assert(without[0] == 0u8);
    assert(!without.contains(2u8)) by {
        if without.contains(2u8) {
            let i = choose|i: int| 0 <= i < without.len() && without[i] == 2u8;
        }
    }
}

/// When authentication lets a client through. `step` shuts the socket down
/// after the method codes exactly when `method_choice` gives no method, and
/// after a password exactly when the pair is not in `registered_users`; it
/// grants "no authentication" only on the choice `NoAuth`, and every phase
/// after authentication holds a grant that `granted` accepts. This law says
/// what those conditions are: the library server goes on to username and
/// password exactly when the client offers it, and without authentication
/// exactly when the client does not offer username/password, offers "no
/// authentication", and the server allows it; the stand-alone server prefers
/// "no authentication"; and only "ali" and "admin" with password "123456"
/// pass.
pub proof fn lemma_auth_outcome(no_auth: bool, offered: Seq<u8>, username: Seq<char>, password: Seq<char>)
    ensures
        method_choice(Flavor::Library { no_auth }, offered) == Some(Methods::UserPass)
            <==> offered.contains(2u8),
        method_choice(Flavor::Library { no_auth }, offered) == Some(Methods::NoAuth) <==> !offered.contains(2u8)
            && no_auth && offered.contains(0u8),
        method_choice(Flavor::Library { no_auth }, offered) is None <==> !offered.contains(2u8) && !(
        no_auth && offered.contains(0u8)),
        method_choice(Flavor::Standalone, offered) == Some(Methods::NoAuth) <==> offered.contains(0u8),
        method_choice(Flavor::Standalone, offered) == Some(Methods::UserPass) <==> !offered.contains(0u8)
            && offered.contains(2u8),
        method_choice(Flavor::Standalone, offered) is None <==> !offered.contains(0u8) && !offered.contains(2u8),
        registered_users().contains((username, password)) <==> (username == "ali"@ || username
            == "admin"@) && password == "123456"@,
        granted(Flavor::Library { no_auth }, Grant::NoAuth) == no_auth,
        granted(Flavor::Standalone, Grant::NoAuth),
        !granted(Flavor::Library { no_auth }, Grant::Pending),
        !granted(Flavor::Standalone, Grant::Pending),
        granted(Flavor::Library { no_auth }, Grant::Credentials(username, password))
            == registered_users().contains((username, password)),
{
    let users = registered_users();
    if users.contains((username, password)) {
        let k = choose|k: int| 0 <= k < users.len() && users[k] == (username, password);
        assert(k == 0 || k == 1);
    }
    if (username == "ali"@ || username == "admin"@) && password == "123456"@ {
        if username == "ali"@ {
            assert(users[0] == (username, password));
        } else {
            assert(users[1] == (username, password));
        }
    }
}

/// Ports travel most significant byte first: the two bytes of a port are
/// its high and low byte, and two bytes decode to high * 256 + low.
pub proof fn lemma_port_big_endian(port: u16, hi: u8, lo: u8)
    ensures
        port_bytes(port).len() == 2,
        port_bytes(port)[0] as int == port as int / 256,
        port_bytes(port)[1] as int == port as int % 256,
        port_of(hi, lo) as int == hi as int * 256 + lo as int,
{
}

/// An IPv6 address decodes into eight segments, segment `i` being bytes
/// `2i` (high) and `2i + 1` (low) of the address.
pub proof fn lemma_ipv6_segments(addr: Seq<u8>, port: u16)
    requires
        addr.len() >= 16,
    ensures
        destination_of(AddrType::V6, addr, port) matches DestinationView::V6(s, p) && p == port
            && s.len() == 8 && forall|i: int|
            0 <= i < 8 ==> #[trigger] s[i] as int == addr[2 * i] as int * 256 + addr[2 * i + 1] as int,
{
    assert forall|i: int| 0 <= i < 8 implies #[trigger] segment_of(addr, i) as int == addr[2 * i] as int
        * 256 + addr[2 * i + 1] as int by {
        assert(addr[2 * i] as int * 256 + addr[2 * i + 1] as int <= 65535);
    }
}

/// An IPv4 address decodes into its first four bytes; a domain into all of its bytes.
pub proof fn lemma_ipv4_and_domain_destinations(addr: Seq<u8>, port: u16)
    requires
        addr.len() >= 4,
    ensures
        destination_of(AddrType::V4, addr, port) matches DestinationView::V4(o, p) && p == port
            && o.len() == 4 && forall|i: int| 0 <= i < 4 ==> #[trigger] o[i] == addr[i],
        destination_of(AddrType::Domain, addr, port) == DestinationView::Domain(addr, port),
{
}

/// The username/password message starts with the version byte 5, then the
/// username's length (modulo 256) and bytes, then the password's length
/// (modulo 256) and bytes, and nothing else.
pub proof fn lemma_userpass_layout(username: Seq<u8>, password: Seq<u8>)
    ensures
        ({
            let msg = userpass_request_bytes(username, password);
            let n = username.len() as int;
            &&& msg.len() == n + password.len() + 3
            &&& msg[0] == 5
            &&& msg[1] as int == n % 256
            &&& msg.subrange(2, 2 + n) == username
            &&& msg[2 + n] as int == password.len() % 256
            &&& msg.subrange(3 + n, msg.len() as int) == password
        }),
{
    let msg = userpass_request_bytes(username, password);
    let n = username.len() as int;
    assert(msg.subrange(2, 2 + n) =~= username);
    assert(msg.subrange(3 + n, msg.len() as int) =~= password);
}

/// The greeting carries version 5, the number of methods that follow, and
/// offers "no authentication" always and username/password exactly when the
/// client has credentials.
pub proof fn lemma_greeting_layout(with_userpass: bool)
    ensures
        ({
            let g = greeting_bytes(with_userpass);
            let methods = g.subrange(2, g.len() as int);
            &&& g.len() >= 2
            &&& g[0] == 5
            &&& g[1] as int == methods.len()
            &&& methods.contains(method_code(Methods::NoAuth))
            &&& methods.contains(method_code(Methods::UserPass)) == with_userpass
        }),
{
    let g = greeting_bytes(with_userpass);
    let methods = g.subrange(2, g.len() as int);
    if with_userpass {
        assert(methods[1] == 0u8);
        assert(methods[0] == 2u8);
    } else {
        assert(methods[0] == 0u8);
        assert(!methods.contains(2u8)) by {
            if methods.contains(2u8) {
                let i = choose|i: int| 0 <= i < methods.len() && methods[i] == 2u8;
            }
        }
    }
}

/// After the address type, the server keeps the command that the request
/// header carried, whatever the address type, and waits for the wire size of
/// the address: the length byte of a domain name, 4 + 2 bytes of an IPv4
/// address and port, 16 + 2 bytes of an IPv6 address and port; once the
/// domain length is known it waits for that many bytes and the port.
pub proof fn lemma_address_reads(flavor: Flavor, command: u8, kind: AddrType, len: u8)
    ensures
        address_phase(command, kind) matches Phase::DomainLen { command: c } ==> c == command,
        address_phase(command, kind) matches Phase::Address { command: c, kind: k, .. } ==> c
            == command && k == kind,
        kind == AddrType::Domain ==> address_phase(command, kind) is DomainLen && awaited_read(
            flavor,
            address_phase(command, kind),
        ) == Some((1nat, true)),
        kind == AddrType::V4 ==> awaited_read(flavor, address_phase(command, kind)) == Some(
            (6nat, true),
        ),
        kind == AddrType::V6 ==> awaited_read(flavor, address_phase(command, kind)) == Some(
            (18nat, true),
        ),
        awaited_read(flavor, Phase::Address { command, kind, len }) == Some((len as nat + 2, true)),
        awaited_read(flavor, Phase::DomainLen { command }) == Some((1nat, true)),
{
}

/// The client waits for the wire size of the bound address: the address
/// bytes and the two port bytes.
pub proof fn lemma_client_address_reads(kind: AddrType, len: u8)
    ensures
        client_awaited_read(ClientPhase::BoundAddress { kind, len }) == Some((len as nat + 2, true)),
        client_awaited_read(ClientPhase::BoundDomainLen) == Some((1nat, true)),
        client_awaited_read(ClientPhase::BoundType) == Some((1nat, true)),
        client_awaited_read(ClientPhase::ReplyHeader) == Some((3nat, false)),
        client_awaited_read(ClientPhase::MethodSelection) == Some((2nat, true)),
        client_awaited_read(ClientPhase::AuthReply) == Some((2nat, true)),
{
}

/// The success reply: version 5, reply code `Success`, the reserved byte,
/// and the bound address 127.0.0.1 port 0 as an IPv4 address.
pub proof fn lemma_success_reply()
    ensures
        ({
            let r = success_reply_bytes();
            &&& r.len() == 10
            &&& r[0] == 5
            &&& r[1] == response_code(Response::Success)
            &&& r[2] == 0
            &&& addr_type_of(r[3] as int) == Some(AddrType::V4)
            &&& destination_of(AddrType::V4, r.subrange(4, 8), port_of(r[8], r[9]))
                == DestinationView::V4(seq![127u8, 0u8, 0u8, 1u8], 0)
        }),
{
    let r = success_reply_bytes();
    assert(r.subrange(4, 8).subrange(0, 4) =~= seq![127u8, 0u8, 0u8, 1u8]);
}

/// The wire codes of the protocol: commands CONNECT 1, BIND 2, UDP ASSOCIATE
/// 3; address types IPv4 1, domain 3, IPv6 4; methods "no authentication"
/// 0, username/password 2, none acceptable 0xFF; replies from success 0 to
/// "address type not supported" 8; and no other code decodes.
pub proof fn lemma_wire_codes(byte: int)
    ensures
        command_code(Command::Connect) == 1,
        command_code(Command::Bind) == 2,
        command_code(Command::UdpAssosiate) == 3,
        command_of(byte) is Some <==> 1 <= byte <= 3,
        addr_type_code(AddrType::V4) == 1,
        addr_type_code(AddrType::Domain) == 3,
        addr_type_code(AddrType::V6) == 4,
        addr_type_of(byte) is Some <==> (byte == 1 || byte == 3 || byte == 4),
        method_code(Methods::NoAuth) == 0,
        method_code(Methods::UserPass) == 2,
        method_code(Methods::NoMethods) == 0xFF,
        response_code(Response::Success) == 0,
        response_code(Response::Failure) == 1,
        response_code(Response::RuleFailure) == 2,
        response_code(Response::NetworkUnreachable) == 3,
        response_code(Response::HostUnreachable) == 4,
        response_code(Response::ConnectionRefused) == 5,
        response_code(Response::TtlExpired) == 6,
        response_code(Response::CommandNotSupported) == 7,
        response_code(Response::AddrTypeNotSupported) == 8,
{
}

/// What the server reads in each phase before the address: the two-byte
/// greeting header, then one byte per offered method, the two-byte
/// sub-negotiation header, the username by its length, the one-byte password
/// length, the password by its length; then the request header, read once:
/// version, command and reserved byte for the library server, and the address
/// type too for the stand-alone server.
pub proof fn lemma_server_reads(no_auth: bool, count: u8, len: u8, username: String, command: u8)
    ensures
        awaited_read(Flavor::Library { no_auth }, Phase::Greeting) == Some((2nat, true)),
        awaited_read(Flavor::Standalone, Phase::Greeting) == Some((2nat, true)),
        awaited_read(Flavor::Library { no_auth }, Phase::Methods { count }) == Some((count as nat, true)),
        awaited_read(Flavor::Standalone, Phase::Methods { count }) == Some((count as nat, true)),
        awaited_read(Flavor::Library { no_auth }, Phase::UserLen) == Some((2nat, true)),
        awaited_read(Flavor::Standalone, Phase::UserLen) == Some((2nat, true)),
        awaited_read(Flavor::Library { no_auth }, Phase::Username { len }) == Some((len as nat, true)),
        awaited_read(Flavor::Standalone, Phase::Username { len }) == Some((len as nat, true)),
        awaited_read(Flavor::Library { no_auth }, Phase::PassLen { username }) == Some((1nat, true)),
        awaited_read(Flavor::Standalone, Phase::PassLen { username }) == Some((1nat, true)),
        awaited_read(Flavor::Library { no_auth }, Phase::Password { username, len }) == Some(
            (len as nat, true),
        ),
        awaited_read(Flavor::Standalone, Phase::Password { username, len }) == Some((len as nat, true)),
        awaited_read(Flavor::Library { no_auth }, Phase::Request) == Some((3nat, false)),
        awaited_read(Flavor::Standalone, Phase::Request) == Some((4nat, false)),
        awaited_read(Flavor::Library { no_auth }, Phase::AddrType { command }) == Some((1nat, true)),
        awaited_read(Flavor::Library { no_auth }, Phase::Connecting) is None,
        awaited_read(Flavor::Library { no_auth }, Phase::Relaying) is None,
        awaited_read(Flavor::Library { no_auth }, Phase::Closed) is None,
{
}

/// How sessions end when the server turns the client away: the library
/// server ends with error `Failure` on another version, and after a refused
/// method or refused credentials it meets the end of input of its shut-down
/// socket; the stand-alone server ends without error in all three cases.
pub proof fn lemma_session_ends(no_auth: bool)
    ensures
        version_mismatch_end(Flavor::Library { no_auth }) == Next::Fail(
            Failure::Refused(Response::Failure),
        ),
        version_mismatch_end(Flavor::Standalone) == Next::Finish,
        refusal_end(Flavor::Library { no_auth }) == Next::Fail(Failure::EndOfInput),
        refusal_end(Flavor::Standalone) == Next::Finish,
{
}

} // verus!
