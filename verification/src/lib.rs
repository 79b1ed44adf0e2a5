//! A stateless reflector for two-way active measurement probes.
//!
//! A probe is a fixed 44-byte datagram. The reflector checks it, echoes the
//! sender's fields, stamps it with the time of receipt and of departure, and
//! hands it back to be sent to where it came from. Nothing is kept between
//! two datagrams.
//!
//! * [`wire`]: what big-endian bytes mean.
//! * [`ntp`]: the 64-bit timestamp and the clock.
//! * [`packet`]: the packet layout, its check, and the reflection.
//! * [`reflector`]: one cycle, from a datagram to a reply or a rejection.
pub mod ntp;
pub mod packet;
pub mod reflector;
pub mod wire;

pub use ntp::{Timestamp, TimestampError};
pub use packet::{PacketError, UnauthenticatedPacket};
pub use reflector::{
    handle_datagram, reflect_datagram, IpAddress, Reason, Reply, RequestError, SocketAddress,
    SocketAddressV4, SocketAddressV6,
};
