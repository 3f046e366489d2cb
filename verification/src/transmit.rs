//! One-shot transmission of the magic packet over UDP.
//!
//! The socket here is smoltcp's in-memory UDP socket: binding it and
//! sending through it are pure computations on its buffers. The calls
//! into smoltcp stand behind trusted wrappers; everything around them is
//! verified against the wrappers' contracts.

use vstd::prelude::*;

use smoltcp::socket::udp::PacketBuffer;
use smoltcp::socket::udp::PacketMetadata;
use smoltcp::socket::udp::Socket;
use smoltcp::wire::IpAddress;
use smoltcp::wire::IpEndpoint;
use smoltcp::wire::Ipv4Address;

use crate::errors::BindErrorKind;
use crate::errors::Error;
use crate::errors::SendErrorKind;
use crate::packet::build_magic_packet;
use crate::packet::MAGIC_PACKET_LENGTH;

verus! {

/// Default destination port: 9, the Discard service.
pub const DEFAULT_PORT: u16 = 9;

/// The local port the socket is bound to before sending.
pub const LOCAL_PORT: u16 = 12345;

#[verifier::external_type_specification]
#[verifier::external_body]
#[verifier::reject_recursive_types(H)]
pub struct ExPacketBuffer<'a, H: 'a>(smoltcp::storage::PacketBuffer<'a, H>);

#[verifier::external_type_specification]
#[verifier::external_body]
pub struct ExUdpMetadata(smoltcp::socket::udp::UdpMetadata);

#[verifier::external_type_specification]
#[verifier::external_body]
pub struct ExUdpSocket<'a>(Socket<'a>);

/// Whether the buffer holds nothing at all, as a buffer fresh from
/// smoltcp's `PacketBuffer::new` does.
pub uninterp spec fn udp_buffer_unused(b: PacketBuffer) -> bool;

/// The greatest number of packets the buffer can hold at once: the
/// number of metadata slots it was created with.
pub uninterp spec fn udp_buffer_packet_capacity(b: PacketBuffer) -> nat;

/// The greatest number of payload bytes the buffer can hold at once: the
/// size of the payload storage it was created with.
pub uninterp spec fn udp_buffer_payload_capacity(b: PacketBuffer) -> nat;

/// Whether the socket is bound to a local endpoint, as smoltcp's
/// `Socket::is_open` reports it.
pub uninterp spec fn udp_socket_open(s: Socket) -> bool;

/// The payloads queued in the socket's transmit buffer, oldest first.
pub uninterp spec fn udp_socket_queue(s: Socket) -> Seq<Seq<u8>>;

/// Whether the socket's transmit buffer can take one more packet of
/// `size` payload bytes.
pub uninterp spec fn udp_socket_can_send(s: Socket, size: nat) -> bool;

/// Relies on smoltcp's `PacketBuffer::new`: the buffer starts out empty,
/// holds at most as many packets as it has metadata slots, and at most as
/// many payload bytes as its payload storage holds.
#[verifier::external_body]
fn udp_buffer_new(packets: usize, payload_bytes: usize) -> (b: PacketBuffer<'static>)
    ensures
        udp_buffer_unused(b),
        udp_buffer_packet_capacity(b) == packets,
        udp_buffer_payload_capacity(b) == payload_bytes,
{
    PacketBuffer::new(vec![PacketMetadata::EMPTY; packets], vec![0u8; payload_bytes])
}

/// Relies on smoltcp's `udp::Socket::new`: the socket starts out unbound,
/// with `rx` and `tx` as its receive and transmit buffers; while `tx` is
/// unused, nothing is queued, and one packet of any size up to the
/// payload capacity can be taken, given a free metadata slot.
#[verifier::external_body]
fn udp_socket_new(rx: PacketBuffer<'static>, tx: PacketBuffer<'static>) -> (s: Socket<'static>)
    ensures
        !udp_socket_open(s),
        udp_buffer_unused(tx) ==> udp_socket_queue(s) == Seq::<Seq<u8>>::empty(),
        udp_buffer_unused(tx) && udp_buffer_packet_capacity(tx) >= 1 ==> forall|n: nat|
            n <= udp_buffer_payload_capacity(tx) ==> udp_socket_can_send(s, n),
{
    Socket::new(rx, tx)
}

/// Relies on smoltcp's `udp::Socket::bind`: it rejects a zero port with
/// `Unaddressable` and an already-open socket with `InvalidState`;
/// otherwise it records the local endpoint and succeeds. The buffers are
/// never touched.
#[verifier::external_body]
fn udp_socket_bind(s: &mut Socket<'static>, port: u16) -> (r: Result<(), BindErrorKind>)
    ensures
        r is Ok <==> (port != 0 && !udp_socket_open(*old(s))),
        r is Ok ==> udp_socket_open(*final(s)),
        port == 0 ==> r is Err && r->Err_0 == BindErrorKind::Unaddressable,
        port != 0 && udp_socket_open(*old(s)) ==> r is Err && r->Err_0
            == BindErrorKind::InvalidState,
        r is Err ==> udp_socket_open(*final(s)) == udp_socket_open(*old(s)),
        udp_socket_queue(*final(s)) == udp_socket_queue(*old(s)),
        forall|n: nat| udp_socket_can_send(*final(s), n) == udp_socket_can_send(*old(s), n),
{
    match s.bind(port) {
        Ok(()) => Ok(()),
        Err(smoltcp::socket::udp::BindError::Unaddressable) => Err(BindErrorKind::Unaddressable),
        Err(smoltcp::socket::udp::BindError::InvalidState) => Err(BindErrorKind::InvalidState),
    }
}

/// Relies on smoltcp's `udp::Socket::send_slice`: it rejects an unbound
/// socket, an unspecified destination address and a zero destination port
/// with `Unaddressable`, before anything is queued; with room in the
/// transmit buffer it queues the payload and succeeds; the only other
/// outcome is `BufferFull`, with nothing queued.
#[verifier::external_body]
fn udp_socket_send_slice(
    s: &mut Socket<'static>,
    data: &[u8],
    ip: [u8; 4],
    port: u16,
) -> (r: Result<(), SendErrorKind>)
    ensures
        r is Ok ==> udp_socket_queue(*final(s)) == udp_socket_queue(*old(s)).push(data@),
        r is Err ==> udp_socket_queue(*final(s)) == udp_socket_queue(*old(s)),
        udp_socket_open(*final(s)) == udp_socket_open(*old(s)),
        !udp_socket_open(*old(s)) || ipv4_unspecified(ip@) || port == 0 ==> r is Err && r->Err_0
            == SendErrorKind::Unaddressable,
        udp_socket_open(*old(s)) && !ipv4_unspecified(ip@) && port != 0
            && udp_socket_can_send(*old(s), data@.len()) ==> r is Ok,
        r is Err ==> r->Err_0 == SendErrorKind::Unaddressable || r->Err_0
            == SendErrorKind::BufferFull,
{
    let endpoint = IpEndpoint::new(
        IpAddress::Ipv4(Ipv4Address::new(ip[0], ip[1], ip[2], ip[3])),
        port,
    );
    match s.send_slice(data, endpoint) {
        Ok(()) => Ok(()),
        Err(smoltcp::socket::udp::SendError::Unaddressable) => Err(SendErrorKind::Unaddressable),
        Err(smoltcp::socket::udp::SendError::BufferFull) => Err(SendErrorKind::BufferFull),
    }
}

/// Whether the four octets spell the unspecified IPv4 address `0.0.0.0`,
/// to which no datagram can be sent.
pub open spec fn ipv4_unspecified(a: Seq<u8>) -> bool {
    a.len() == 4 && a[0] == 0 && a[1] == 0 && a[2] == 0 && a[3] == 0
}

/// The destination address once the default is applied: the given one, or
/// the limited broadcast address `255.255.255.255`.
pub open spec fn effective_ip_spec(ip: Option<[u8; 4]>) -> Seq<u8> {
    match ip {
        Some(a) => a@,
        None => seq![255u8, 255u8, 255u8, 255u8],
    }
}

/// The destination port once the default is applied: the given one, or
/// the Discard port, 9.
pub open spec fn effective_port_spec(port: Option<u16>) -> u16 {
    match port {
        Some(p) => p,
        None => DEFAULT_PORT,
    }
}

/// Whether a datagram can be sent to the destination that `ip` and `port`
/// name once the defaults are applied: the port must not be zero and the
/// address must not be the unspecified one.
pub open spec fn destination_sendable(ip: Option<[u8; 4]>, port: Option<u16>) -> bool {
    effective_port_spec(port) != 0 && !ipv4_unspecified(effective_ip_spec(ip))
}

/// The destination the packet goes to: the given address and port, with
/// `255.255.255.255:9` filled in where none is given.
pub fn effective_destination(ip: Option<[u8; 4]>, port: Option<u16>) -> (d: ([u8; 4], u16))
    ensures
        d.0@ == effective_ip_spec(ip),
        d.1 == effective_port_spec(port),
{
    let a = match ip {
        Some(a) => a,
        None => [255u8, 255u8, 255u8, 255u8],
    };
    let p = match port {
        Some(p) => p,
        None => DEFAULT_PORT,
    };
    (a, p)
}

/// Send a Wake-on-LAN packet over UDP.
///
/// The function creates a UDP socket bound to `0.0.0.0:12345` and queues
/// a Wake-on-LAN datagram for the specified `ip` and `port`, or default
/// `255.255.255.255` on port `9`. It succeeds exactly when the
/// destination can be sent to: a zero port or the unspecified address is
/// rejected as unaddressable.
pub fn wake_on_lan(mac: [u8; 6], ip: Option<[u8; 4]>, port: Option<u16>) -> (r: Result<(), Error>)
    ensures
        r is Ok <==> destination_sendable(ip, port),
        r is Err ==> r == Err::<(), Error>(Error::SendError(SendErrorKind::Unaddressable)),
{
    let (addr, dest_port) = effective_destination(ip, port);

    let rx_buffer = udp_buffer_new(4, 0);
    let tx_buffer = udp_buffer_new(4, MAGIC_PACKET_LENGTH);
    let mut socket = udp_socket_new(rx_buffer, tx_buffer);

    match udp_socket_bind(&mut socket, LOCAL_PORT) {
        Ok(()) => {},
        Err(kind) => {
            return Err(Error::BindError(kind));
        },
    }

    let packet = build_magic_packet(mac);
    match udp_socket_send_slice(&mut socket, packet.as_slice(), addr, dest_port) {
        Ok(()) => Ok(()),
        Err(kind) => Err(Error::SendError(kind)),
    }
}

/// Judge what the transport reported of a send: `sent` is the number of
/// bytes it accepted, or `None` where it refused the send outright, and
/// `expected` is the payload length. Anything short of the full payload
/// is an error.
pub fn send_outcome(sent: Option<usize>, expected: usize) -> (r: Result<(), Error>)
    ensures
        r is Ok <==> sent == Some(expected),
        sent is None ==> r == Err::<(), Error>(Error::SendError(SendErrorKind::Refused)),
        (sent is Some && sent->0 != expected) ==> r == Err::<(), Error>(
            Error::SendError(SendErrorKind::Truncated),
        ),
{
    match sent {
        Some(n) => {
            if n == expected {
                Ok(())
            } else {
                Err(Error::SendError(SendErrorKind::Truncated))
            }
        },
        None => Err(Error::SendError(SendErrorKind::Refused)),
    }
}

} // verus!
