//! Addresses on the wire: the targets that a client asks for, and the
//! destinations that a server decodes from a request.
use vstd::prelude::*;
use vstd::utf8::encode_utf8;
use crate::socks::{AddrType, addr_type_code};

verus! {

/// The two bytes of a port, most significant first.
pub open spec fn port_bytes(port: u16) -> Seq<u8> {
    seq![(port / 256) as u8, (port % 256) as u8]
}

/// The port that two bytes, most significant first, encode.
pub open spec fn port_of(hi: u8, lo: u8) -> u16 {
    (hi * 256 + lo) as u16
}

/// Decodes a port from two bytes, most significant first.
pub fn decode_port(hi: u8, lo: u8) -> (port: u16)
    ensures
        port == port_of(hi, lo),
        port as int == hi as int * 256 + lo as int,
{
    (hi as u16) * 256 + (lo as u16)
}

/// Encoding a port and decoding the two bytes gives the port back.
pub proof fn lemma_port_roundtrip(port: u16)
    ensures
        port_of(port_bytes(port)[0], port_bytes(port)[1]) == port,
{
}

/// A target that a client asks the proxy to connect to.
pub enum TargetAddr {
    V4([u8; 4], u16),
    V6([u8; 16], u16),
    Domain((String, u16)),
}

/// The number of address bytes of a target, without its port.
pub open spec fn target_len(t: TargetAddr) -> nat {
    match t {
        TargetAddr::V4(..) => 4,
        TargetAddr::V6(..) => 16,
        TargetAddr::Domain((name, _)) => encode_utf8(name@).len(),
    }
}

/// The address type of a target.
pub open spec fn target_addr_type(t: TargetAddr) -> AddrType {
    match t {
        TargetAddr::V4(..) => AddrType::V4,
        TargetAddr::V6(..) => AddrType::V6,
        TargetAddr::Domain(_) => AddrType::Domain,
    }
}

/// The port of a target.
pub open spec fn target_port(t: TargetAddr) -> u16 {
    match t {
        TargetAddr::V4(_, port) => port,
        TargetAddr::V6(_, port) => port,
        TargetAddr::Domain((_, port)) => port,
    }
}

/// The address bytes of a target: its octets, or the UTF-8 bytes of its name.
pub open spec fn target_address_bytes(t: TargetAddr) -> Seq<u8> {
    match t {
        TargetAddr::V4(octets, _) => octets@,
        TargetAddr::V6(octets, _) => octets@,
        TargetAddr::Domain((name, _)) => encode_utf8(name@),
    }
}

/// The address bytes of a target (for a domain, the UTF-8 bytes of its
/// name), then its port.
pub open spec fn target_wire(t: TargetAddr) -> Seq<u8> {
    match t {
        TargetAddr::V4(octets, port) => octets@ + port_bytes(port),
        TargetAddr::V6(octets, port) => octets@ + port_bytes(port),
        TargetAddr::Domain((name, port)) => encode_utf8(name@) + port_bytes(port),
    }
}

/// Copies `src` into `buf` from index `at` on.
fn copy_into(buf: &mut [u8], at: usize, src: &[u8])
    requires
        at + src@.len() <= old(buf)@.len(),
    ensures
        final(buf)@.len() == old(buf)@.len(),
        final(buf)@ == old(buf)@.subrange(0, at as int) + src@ + old(buf)@.subrange(
            at + src@.len(),
            old(buf)@.len() as int,
        ),
{
    let n = buf.len();
    let mut i: usize = 0;
    while i < src.len()
        invariant
            0 <= i <= src@.len(),
            n == buf@.len(),
            at + src@.len() <= old(buf)@.len(),
            buf@.len() == old(buf)@.len(),
            buf@ =~= old(buf)@.subrange(0, at as int) + src@.subrange(0, i as int) + old(
                buf,
            )@.subrange(at + i, old(buf)@.len() as int),
        decreases src@.len() - i,
    {
        buf[at + i] = src[i];
        i = i + 1;
    }
    assert(src@.subrange(0, src@.len() as int) =~= src@);
}

impl TargetAddr {
    /// The number of address bytes, without the port.
    pub fn len(&self) -> (n: usize)
        ensures
            n == target_len(*self),
    {
        match self {
            TargetAddr::V4(..) => 4,
            TargetAddr::V6(..) => 16,
            TargetAddr::Domain((domain, _)) => domain.as_str().as_bytes().len(),
        }
    }

    /// The address type of this target.
    pub fn addr_type(&self) -> (a: AddrType)
        ensures
            a == target_addr_type(*self),
    {
        match self {
            TargetAddr::V4(..) => AddrType::V4,
            TargetAddr::V6(..) => AddrType::V6,
            TargetAddr::Domain(_) => AddrType::Domain,
        }
    }

    /// Writes the address bytes and then the port into `buf`, which has
    /// exactly room for both.
    pub fn write_to(&self, buf: &mut [u8])
        requires
            old(buf)@.len() == target_len(*self) + 2,
        ensures
            final(buf)@ == target_wire(*self),
            final(buf)@.subrange(0, target_len(*self) as int) == target_address_bytes(*self),
            final(buf)@[target_len(*self) as int] as int == target_port(*self) as int / 256,
            final(buf)@[target_len(*self) + 1int] as int == target_port(*self) as int % 256,
    {
        let len = buf.len();
        match self {
            TargetAddr::V4(octets, port) => {
                copy_into(buf, 0, octets.as_slice());
                buf[len - 2] = (*port / 256) as u8;
                buf[len - 1] = (*port % 256) as u8;
            },
            TargetAddr::V6(octets, port) => {
                copy_into(buf, 0, octets.as_slice());
                buf[len - 2] = (*port / 256) as u8;
                buf[len - 1] = (*port % 256) as u8;
            },
            TargetAddr::Domain((domain, port)) => {
                copy_into(buf, 0, domain.as_str().as_bytes());
                buf[len - 2] = (*port / 256) as u8;
                buf[len - 1] = (*port % 256) as u8;
            },
        }
        assert(buf@ =~= target_wire(*self));
        assert(buf@.subrange(0, target_len(*self) as int) =~= target_address_bytes(*self));
    }
}

/// The byte that precedes the address in a request: the length of a
/// domain name (modulo 256); none for an IP address.
pub open spec fn length_prefix(t: TargetAddr) -> Seq<u8> {
    match t {
        TargetAddr::Domain((name, _)) => seq![(encode_utf8(name@).len() % 256) as u8],
        _ => Seq::empty(),
    }
}

/// The bytes of a CONNECT request for a target: version, command, reserved
/// byte, address type, the length byte of a domain name, then the address
/// bytes and the port.
pub open spec fn connect_request_bytes(t: TargetAddr) -> Seq<u8> {
    seq![5u8, 1u8, 0u8, addr_type_code(target_addr_type(t))] + length_prefix(t) + target_wire(t)
}

/// Builds the CONNECT request that a client sends for a target.
pub fn connect_request(target: &TargetAddr) -> (data: Vec<u8>)
    requires
        target_len(*target) + 7 <= usize::MAX,
    ensures
        data@ == connect_request_bytes(*target),
        ({
            let off: int = if target is Domain { 5 } else { 4 };
            let n = target_len(*target) as int;
            &&& data@.len() == off + n + 2
            &&& data@[0] == 5 && data@[1] == 1 && data@[2] == 0
            &&& target is V4 ==> data@[3] == 1
            &&& target is V6 ==> data@[3] == 4
            &&& target is Domain ==> data@[3] == 3 && data@[4] as int == n % 256
            &&& data@.subrange(off, off + n) == target_address_bytes(*target)
            &&& data@[off + n] as int == target_port(*target) as int / 256
            &&& data@[off + n + 1] as int == target_port(*target) as int % 256
        }),
{
    let len = target.len();
    let mut data: Vec<u8> = Vec::new();
    data.push(crate::socks::VERSION5);
    data.push(crate::socks::Command::Connect.code());
    data.push(crate::socks::RESERVED);
    data.push(target.addr_type().code());
    if let TargetAddr::Domain(_) = target {
        data.push((len % 256) as u8);
    }
    let mut tail: Vec<u8> = vec![0u8; len + 2];
    target.write_to(tail.as_mut_slice());
    let ghost head = data@;
    data.append(&mut tail);
    assert(data@ =~= connect_request_bytes(*target));
    proof {
        let off: int = if target is Domain { 5 } else { 4 };
        let n = target_len(*target) as int;
        assert(head.len() == off);
        assert(data@.subrange(off, off + n) =~= data@.subrange(off, off + n + 2).subrange(0, n));
    }
    data
}

/// A destination decoded from a request or a reply.
pub enum Destination {
    V4([u8; 4], u16),
    V6([u16; 8], u16),
    Domain(Vec<u8>, u16),
}

/// What a destination denotes: the address (four bytes, eight 16-bit
/// segments, or the bytes of a name) and the port.
pub enum DestinationView {
    V4(Seq<u8>, u16),
    V6(Seq<u16>, u16),
    Domain(Seq<u8>, u16),
}

impl View for Destination {
    type V = DestinationView;

    open spec fn view(&self) -> DestinationView {
        match self {
            Destination::V4(octets, port) => DestinationView::V4(octets@, *port),
            Destination::V6(segments, port) => DestinationView::V6(segments@, *port),
            Destination::Domain(name, port) => DestinationView::Domain(name@, *port),
        }
    }
}

/// The number of address bytes that an address type takes on the wire, for
/// the types of fixed length.
pub open spec fn fixed_addr_len(kind: AddrType) -> nat {
    match kind {
        AddrType::V4 => 4,
        AddrType::V6 => 16,
        AddrType::Domain => 0,
    }
}

/// The 16-bit segment `i` of an IPv6 address, from its bytes in network order.
pub open spec fn segment_of(addr: Seq<u8>, i: int) -> u16 {
    (addr[2 * i] * 256 + addr[2 * i + 1]) as u16
}

/// The destination that address bytes of a given type and a port denote.
pub open spec fn destination_of(kind: AddrType, addr: Seq<u8>, port: u16) -> DestinationView {
    match kind {
        AddrType::V4 => DestinationView::V4(addr.subrange(0, 4), port),
        AddrType::V6 => DestinationView::V6(Seq::new(8, |i: int| segment_of(addr, i)), port),
        AddrType::Domain => DestinationView::Domain(addr, port),
    }
}

fn segment(addr: &[u8], i: usize) -> (s: u16)
    requires
        i < 8,
        2 * i + 1 < addr@.len(),
    ensures
        s == segment_of(addr@, i as int),
{
    (addr[2 * i] as u16) * 256 + (addr[2 * i + 1] as u16)
}

/// Turns the address bytes of a request and its port into a destination:
/// four bytes for IPv4, eight big-endian 16-bit segments for IPv6, and the
/// bytes of the name for a domain.
pub fn addr_to_socket(addr_type: &AddrType, addr: &[u8], port: u16) -> (d: Destination)
    requires
        addr@.len() >= fixed_addr_len(*addr_type),
    ensures
        d@ == destination_of(*addr_type, addr@, port),
        *addr_type == AddrType::V4 ==> (d matches Destination::V4(o, p) && p == port && o@.len()
            == 4 && forall|i: int| 0 <= i < 4 ==> o@[i] == addr@[i]),
        *addr_type == AddrType::V6 ==> (d matches Destination::V6(s, p) && p == port && s@.len()
            == 8 && forall|i: int|
            0 <= i < 8 ==> #[trigger] s@[i] as int == addr@[2 * i] as int * 256 + addr@[2 * i
                + 1] as int),
        *addr_type == AddrType::Domain ==> (d matches Destination::Domain(n, p) && p == port && n@
            == addr@),
{
    match addr_type {
        AddrType::V6 => {
            let segments: [u16; 8] = [
                segment(addr, 0),
                segment(addr, 1),
                segment(addr, 2),
                segment(addr, 3),
                segment(addr, 4),
                segment(addr, 5),
                segment(addr, 6),
                segment(addr, 7),
            ];
            assert(segments@ =~= Seq::new(8, |i: int| segment_of(addr@, i)));
            Destination::V6(segments, port)
        },
        AddrType::V4 => {
            let octets: [u8; 4] = [addr[0], addr[1], addr[2], addr[3]];
            assert(octets@ =~= addr@.subrange(0, 4));
            Destination::V4(octets, port)
        },
        AddrType::Domain => {
            let mut name: Vec<u8> = Vec::new();
            name.extend_from_slice(addr);
            assert(name@ =~= addr@);
            Destination::Domain(name, port)
        },
    }
}

/// The destination that a target denotes: its address (four bytes, eight
/// 16-bit segments, or the UTF-8 bytes of its name) and its port.
pub open spec fn target_destination(t: TargetAddr) -> DestinationView {
    match t {
        TargetAddr::V4(octets, port) => DestinationView::V4(octets@, port),
        TargetAddr::V6(octets, port) => DestinationView::V6(
            Seq::new(8, |i: int| segment_of(octets@, i)),
            port,
        ),
        TargetAddr::Domain((name, port)) => DestinationView::Domain(encode_utf8(name@), port),
    }
}

} // verus!
