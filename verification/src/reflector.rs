//! One cycle of the reflector: a datagram comes in with the two addresses it
//! travelled between, and either a reply is ready in the same buffer or the
//! datagram is rejected. Nothing outlives the cycle.
//!
//! Receiving and sending are the caller's part. The addresses are carried as
//! plain numbers, so that the caller can hand over whatever its sockets use.
use crate::ntp::{Timestamp, TimestampError, NTP_EPOCH_OFFSET};
use crate::packet::{check, echoed, receive_of, reflected, PacketError, UnauthenticatedPacket};
use vstd::prelude::*;

verus! {

broadcast use Timestamp::lemma_layout;

/// An IP address, as the number that its bytes spell in network order.
#[derive(Debug, Clone, Copy, PartialEq, Eq, Structural)]
pub enum IpAddress {
    V4(u32),
    V6(u128),
}

/// An IPv4 address with a port.
#[derive(Debug, Clone, Copy, PartialEq, Eq, Structural)]
pub struct SocketAddressV4 {
    pub ip: u32,
    pub port: u16,
}

/// An IPv6 address with a port, flow label and scope.
#[derive(Debug, Clone, Copy, PartialEq, Eq, Structural)]
pub struct SocketAddressV6 {
    pub ip: u128,
    pub port: u16,
    pub flowinfo: u32,
    pub scope_id: u32,
}

/// The address of a UDP endpoint.
#[derive(Debug, Clone, Copy, PartialEq, Eq, Structural)]
pub enum SocketAddress {
    V4(SocketAddressV4),
    V6(SocketAddressV6),
}

/// Why a datagram got no reply.
#[derive(Debug)]
pub enum Reason {
    /// The datagram is no packet.
    Packet(PacketError),
    /// No timestamp could be made for it.
    Clock(TimestampError),
}

/// A datagram that got no reply, with where it came from, the local address
/// it was sent to, and the reason.
#[derive(Debug)]
pub struct RequestError {
    pub source: SocketAddress,
    pub local: IpAddress,
    pub reason: Reason,
}

/// A reply that is ready to be sent: the buffer holds it, and it goes to
/// `target` from the address `local`.
#[derive(Debug, Clone, Copy)]
pub struct Reply {
    pub target: SocketAddress,
    pub local: IpAddress,
    /// The receive timestamp written into the reply.
    pub received: Timestamp,
    /// The transmit timestamp written into the reply.
    pub transmitted: Timestamp,
}

impl PacketError {
    /// The rejection of a datagram from `source` to `local` for this reason.
    pub fn from_source(self, source: SocketAddress, local: IpAddress) -> (e: RequestError)
        ensures
            e == (RequestError { source, local, reason: Reason::Packet(self) }),
    {
        RequestError { source, local, reason: Reason::Packet(self) }
    }
}

/// Reflects the datagram in `buf`, which came from `source` to `local` and
/// was received at `received`.
///
/// A buffer that is no packet is rejected for what `check` finds, and left
/// as it was. A packet is rewritten in place; the transmit timestamp is read
/// from the clock last. If the clock fails then, the packet is left echoed
/// but not stamped, and is rejected.
pub fn reflect_datagram(
    buf: &mut [u8],
    source: SocketAddress,
    local: IpAddress,
    received: Timestamp,
) -> (r: Result<Reply, RequestError>)
    ensures
        check(old(buf)@) matches Err(refusal) ==> (r == Err::<Reply, RequestError>(
            RequestError { source, local, reason: Reason::Packet(refusal) },
        ) && final(buf)@ == old(buf)@),
        check(old(buf)@) is Ok ==> match r {
            Ok(reply) => final(buf)@ == reflected(old(buf)@, received@, reply.transmitted@)
                && check(final(buf)@) is Ok && reply.target == source && reply.local == local
                && reply.received == received && reply.transmitted.of_unix_time()
                && reply.transmitted.spec_seconds() >= NTP_EPOCH_OFFSET,
            Err(e) => e.source == source && e.local == local && e.reason is Clock
                && final(buf)@ == echoed(old(buf)@, received@),
        },
{
    let mut packet = match UnauthenticatedPacket::from_buffer(buf) {
        Ok(packet) => packet,
        Err(refusal) => {
            return Err(refusal.from_source(source, local));
        },
    };
    packet.echo(received);
    match Timestamp::now() {
        Ok(transmitted) => {
            packet.set_timestamp(transmitted);
            let _ = packet.into_buffer();
            Ok(Reply { target: source, local, received, transmitted })
        },
        Err(e) => {
            let _ = packet.into_buffer();
            Err(RequestError { source, local, reason: Reason::Clock(e) })
        },
    }
}

/// Handles one datagram, which came from `source` to `local`: reads the
/// clock for the time of receipt, then reflects the datagram in place.
///
/// A buffer that is no packet is rejected for what `check` finds, and left
/// as it was, whatever the clock says. For a packet the clock decides: a
/// reply leaves the buffer holding the reflection with the two timestamps of
/// the reply; a rejection for the clock leaves the buffer as it was, unless
/// the packet was already echoed when the clock failed.
pub fn handle_datagram(
    buf: &mut [u8],
    source: SocketAddress,
    local: IpAddress,
) -> (r: Result<Reply, RequestError>)
    ensures
        check(old(buf)@) matches Err(refusal) ==> (r == Err::<Reply, RequestError>(
            RequestError { source, local, reason: Reason::Packet(refusal) },
        ) && final(buf)@ == old(buf)@),
        check(old(buf)@) is Ok ==> match r {
            Ok(reply) => final(buf)@ == reflected(old(buf)@, reply.received@, reply.transmitted@)
                && check(final(buf)@) is Ok && reply.target == source && reply.local == local
                && reply.received.of_unix_time() && reply.transmitted.of_unix_time()
                && reply.received.spec_seconds() >= NTP_EPOCH_OFFSET
                && reply.transmitted.spec_seconds() >= NTP_EPOCH_OFFSET,
            Err(e) => e.source == source && e.local == local && e.reason is Clock
                && (final(buf)@ == old(buf)@
                || final(buf)@ == echoed(old(buf)@, receive_of(final(buf)@))),
        },
{
    match Timestamp::now() {
        Ok(received) => {
            let r = reflect_datagram(buf, source, local, received);
            proof {
                if check(old(buf)@) is Ok {
                    assert(receive_of(echoed(old(buf)@, received@)) =~= received@);
                }
            }
            r
        },
        Err(e) => match UnauthenticatedPacket::from_buffer(buf) {
            Ok(packet) => {
                let _ = packet.into_buffer();
                Err(RequestError { source, local, reason: Reason::Clock(e) })
            },
            Err(refusal) => Err(refusal.from_source(source, local)),
        },
    }
}

} // verus!
