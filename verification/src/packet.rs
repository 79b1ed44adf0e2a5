//! The unauthenticated measurement packet: its layout, its validation, and
//! the rewriting that turns a probe into its reflection.
//!
//! | offset | field              | bytes |
//! |--------|--------------------|-------|
//! | 0      | sequence           | 4     |
//! | 4      | timestamp          | 8     |
//! | 12     | error estimate     | 2     |
//! | 14     | reserved           | 2     |
//! | 16     | receive timestamp  | 8     |
//! | 24     | sender sequence    | 4     |
//! | 28     | sender timestamp   | 8     |
//! | 36     | sender error       | 2     |
//! | 38     | reserved           | 2     |
//! | 40     | ttl                | 1     |
//! | 41     | reserved           | 3     |
//!
//! All fields are big-endian. Reserved bytes must be zero.
use crate::ntp::Timestamp;
use crate::wire::{be16, be32, read_u16, read_u32};
use vstd::prelude::*;

verus! {

broadcast use Timestamp::lemma_layout;

/// The length of a packet on the wire.
pub const PACKET_LEN: usize = 44;

/// Why a buffer is no packet.
#[derive(Debug, Clone, Copy, PartialEq, Eq, Structural)]
pub enum PacketError {
    /// The buffer is not exactly 44 bytes long.
    IncorrectLength,
    /// A reserved byte is not zero.
    MBZViolation,
}

/// Whether offset `i` lies in one of the three reserved ranges.
pub open spec fn is_reserved(i: int) -> bool {
    14 <= i < 16 || 38 <= i < 40 || 41 <= i < 44
}

/// Whether every reserved byte of `b` is zero.
pub open spec fn reserved_clear(b: Seq<u8>) -> bool {
    forall|i: int| 0 <= i < b.len() && is_reserved(i) ==> #[trigger] b[i] == 0
}

/// The verdict on a buffer: the length is judged first, then the reserved
/// bytes.
pub open spec fn check(b: Seq<u8>) -> Result<(), PacketError> {
    if b.len() != PACKET_LEN {
        Err(PacketError::IncorrectLength)
    } else if !reserved_clear(b) {
        Err(PacketError::MBZViolation)
    } else {
        Ok(())
    }
}

/// A packet after the first half of the reflection: the sender's sequence,
/// timestamp and error estimate are copied to their echo fields, the receive
/// timestamp is set, and the reserved bytes are zero. The rest is as it was.
pub open spec fn echoed(b: Seq<u8>, receive: Seq<u8>) -> Seq<u8> {
    b.subrange(0, 14) + seq![0u8, 0u8] + receive + b.subrange(0, 14) + seq![0u8, 0u8]
        + b.subrange(40, 41) + seq![0u8, 0u8, 0u8]
}

/// A packet with its timestamp field replaced.
pub open spec fn stamped(b: Seq<u8>, transmit: Seq<u8>) -> Seq<u8> {
    b.subrange(0, 4) + transmit + b.subrange(12, b.len() as int)
}

/// The reflection of packet `b`, received at `receive` and sent back at
/// `transmit`.
pub open spec fn reflected(b: Seq<u8>, receive: Seq<u8>, transmit: Seq<u8>) -> Seq<u8> {
    stamped(echoed(b, receive), transmit)
}

/// The sequence number that the sender gave the packet.
pub open spec fn sequence_of(b: Seq<u8>) -> nat {
    be32(b.subrange(0, 4))
}

/// The bytes of the timestamp field.
pub open spec fn timestamp_of(b: Seq<u8>) -> Seq<u8> {
    b.subrange(4, 12)
}

/// The error estimate field.
pub open spec fn error_of(b: Seq<u8>) -> nat {
    be16(b.subrange(12, 14))
}

/// The bytes of the receive timestamp field.
pub open spec fn receive_of(b: Seq<u8>) -> Seq<u8> {
    b.subrange(16, 24)
}

/// The echoed sequence number.
pub open spec fn sender_sequence_of(b: Seq<u8>) -> nat {
    be32(b.subrange(24, 28))
}

/// The bytes of the echoed timestamp.
pub open spec fn sender_timestamp_of(b: Seq<u8>) -> Seq<u8> {
    b.subrange(28, 36)
}

/// The echoed error estimate.
pub open spec fn sender_error_of(b: Seq<u8>) -> nat {
    be16(b.subrange(36, 38))
}

/// The ttl field.
pub open spec fn ttl_of(b: Seq<u8>) -> u8 {
    b[40]
}

/// A buffer of any length but 44 is refused for its length, whatever it
/// holds.
pub proof fn lemma_wrong_length_refused(b: Seq<u8>)
    requires
        b.len() != PACKET_LEN,
    ensures
        check(b) == Err::<(), PacketError>(PacketError::IncorrectLength),
{
}

/// A buffer of 44 bytes with a reserved byte that is not zero is refused for
/// that byte.
pub proof fn lemma_nonzero_reserved_refused(b: Seq<u8>, i: int)
    requires
        b.len() == PACKET_LEN,
        is_reserved(i),
        b[i] != 0,
    ensures
        check(b) == Err::<(), PacketError>(PacketError::MBZViolation),
{
}

/// A reflection is a packet again: 44 bytes, with every reserved byte zero,
/// whatever the reserved bytes of the probe were.
pub proof fn lemma_reflected_is_packet(b: Seq<u8>, receive: Seq<u8>, transmit: Seq<u8>)
    requires
        b.len() == PACKET_LEN,
        receive.len() == 8,
        transmit.len() == 8,
    ensures
        reflected(b, receive, transmit).len() == PACKET_LEN,
        reserved_clear(reflected(b, receive, transmit)),
        check(reflected(b, receive, transmit)) is Ok,
{
}

/// A reflection echoes the probe: the sender fields hold the probe's
/// sequence, timestamp and error estimate; the two timestamps are those
/// given; sequence, error estimate and ttl stay.
pub proof fn lemma_reflected_fields(b: Seq<u8>, receive: Seq<u8>, transmit: Seq<u8>)
    requires
        b.len() == PACKET_LEN,
        receive.len() == 8,
        transmit.len() == 8,
    ensures
        sender_sequence_of(reflected(b, receive, transmit)) == sequence_of(b),
        sender_timestamp_of(reflected(b, receive, transmit)) == timestamp_of(b),
        sender_error_of(reflected(b, receive, transmit)) == error_of(b),
        receive_of(reflected(b, receive, transmit)) == receive,
        timestamp_of(reflected(b, receive, transmit)) == transmit,
        sequence_of(reflected(b, receive, transmit)) == sequence_of(b),
        error_of(reflected(b, receive, transmit)) == error_of(b),
        ttl_of(reflected(b, receive, transmit)) == ttl_of(b),
{
    let r = reflected(b, receive, transmit);
    assert(r.subrange(24, 28) =~= b.subrange(0, 4));
    assert(r.subrange(28, 36) =~= b.subrange(4, 12));
    assert(r.subrange(36, 38) =~= b.subrange(12, 14));
    assert(r.subrange(16, 24) =~= receive);
    assert(r.subrange(4, 12) =~= transmit);
    assert(r.subrange(0, 4) =~= b.subrange(0, 4));
    assert(r.subrange(12, 14) =~= b.subrange(12, 14));
}

/// A checked packet, seen in place in the buffer it arrived in.
///
/// The view borrows the buffer and copies nothing: reading a field reads the
/// buffer, and writing one writes it. Every view is of a buffer that passes
/// `check`, from its making to its end.
#[derive(Debug)]
pub struct UnauthenticatedPacket<'a> {
    buf: &'a mut [u8],
}

impl<'a> View for UnauthenticatedPacket<'a> {
    type V = Seq<u8>;

    /// The bytes of the packet as they now stand in the buffer.
    open spec fn view(&self) -> Seq<u8> {
        self.buffer()@
    }
}

impl<'a> UnauthenticatedPacket<'a> {
    #[verifier::type_invariant]
    spec fn inv(self) -> bool {
        check(self.buf@) is Ok
    }

    /// The borrowed buffer. Its final value is what the lender finds in the
    /// buffer once the view is gone.
    pub closed spec fn buffer(self) -> &'a mut [u8] {
        self.buf
    }

    /// Checks `buf` and, if it is a packet, gives the view of it.
    ///
    /// The length is judged before any byte is read. A buffer that is refused
    /// is left as it was.
    pub fn from_buffer(buf: &'a mut [u8]) -> (r: Result<UnauthenticatedPacket<'a>, PacketError>)
        ensures
            match r {
                Ok(p) => check(old(buf)@) is Ok && p@ == old(buf)@ && final(p.buffer())@
                    == final(buf)@,
                Err(e) => check(old(buf)@) == Err::<(), PacketError>(e) && final(buf)@ == old(buf)@,
            },
    {
        if buf.len() != PACKET_LEN {
            return Err(PacketError::IncorrectLength);
        }
        if buf[14] != 0 || buf[15] != 0 || buf[38] != 0 || buf[39] != 0 || buf[41] != 0 || buf[42]
            != 0 || buf[43] != 0 {
            return Err(PacketError::MBZViolation);
        }
        Ok(UnauthenticatedPacket { buf })
    }

    /// Ends the view and gives the buffer back. Whatever was done through the
    /// view, the buffer still holds a packet.
    pub fn into_buffer(self) -> (out: &'a mut [u8])
        ensures
            out@ == self@,
            check(out@) is Ok,
            final(out)@ == final(self.buffer())@,
    {
        proof {
            use_type_invariant(&self);
        }
        let UnauthenticatedPacket { buf } = self;
        buf
    }

    /// The eight bytes at offset `at`, as a timestamp.
    fn timestamp_at(&self, at: usize) -> (t: Timestamp)
        requires
            at + 8 <= PACKET_LEN,
        ensures
            t@ == self@.subrange(at as int, at + 8),
    {
        proof {
            use_type_invariant(self);
        }
        let mut bytes: [u8; 8] = [0; 8];
        let mut i: usize = 0;
        while i < 8
            invariant
                i <= 8,
                at + 8 <= PACKET_LEN,
                self.buf@.len() == PACKET_LEN,
                forall|j: int| 0 <= j < i ==> bytes@[j] == self.buf@[at + j],
            decreases 8 - i,
        {
            bytes[i] = self.buf[at + i];
            i += 1;
        }
        let t = Timestamp::from_bytes(bytes);
        assert(t@ =~= self@.subrange(at as int, at + 8));
        t
    }

    /// Writes a timestamp at offset `at`, which is that of a timestamp field.
    fn put_timestamp(&mut self, at: usize, t: &Timestamp)
        requires
            at == 4 || at == 16,
        ensures
            final(self)@ == old(self)@.subrange(0, at as int) + t@
                + old(self)@.subrange(at + 8, PACKET_LEN as int),
            final(final(self).buffer())@ == final(old(self).buffer())@,
    {
        proof {
            use_type_invariant(&*self);
        }
        let src = t.as_bytes();
        let mut i: usize = 0;
        while i < 8
            invariant
                i <= 8,
                at == 4 || at == 16,
                self.inv(),
                old(self).inv(),
                final(self.buf)@ == final(old(self).buf)@,
                self.buf@ == old(self).buf@.subrange(0, at as int) + src@.subrange(0, i as int)
                    + old(self).buf@.subrange(at + i, PACKET_LEN as int),
            decreases 8 - i,
        {
            self.buf[at + i] = src[i];
            i += 1;
        }
        assert(src@.subrange(0, 8) =~= src@);
    }

    /// The sequence number.
    pub fn sequence(&self) -> (n: u32)
        ensures
            n == sequence_of(self@),
    {
        proof {
            use_type_invariant(self);
        }
        read_u32(&self.buf[0..4])
    }

    /// The timestamp: the sender's time of sending in a probe, the
    /// reflector's in a reflection.
    pub fn timestamp(&self) -> (t: Timestamp)
        ensures
            t@ == timestamp_of(self@),
    {
        self.timestamp_at(4)
    }

    /// The error estimate.
    pub fn error_estimate(&self) -> (n: u16)
        ensures
            n == error_of(self@),
    {
        proof {
            use_type_invariant(self);
        }
        read_u16(&self.buf[12..14])
    }

    /// The time at which the reflector received the probe.
    pub fn receive_timestamp(&self) -> (t: Timestamp)
        ensures
            t@ == receive_of(self@),
    {
        self.timestamp_at(16)
    }

    /// The sequence number that the probe carried.
    pub fn sender_sequence(&self) -> (n: u32)
        ensures
            n == sender_sequence_of(self@),
    {
        proof {
            use_type_invariant(self);
        }
        read_u32(&self.buf[24..28])
    }

    /// The timestamp that the probe carried.
    pub fn sender_timestamp(&self) -> (t: Timestamp)
        ensures
            t@ == sender_timestamp_of(self@),
    {
        self.timestamp_at(28)
    }

    /// The error estimate that the probe carried.
    pub fn sender_error(&self) -> (n: u16)
        ensures
            n == sender_error_of(self@),
    {
        proof {
            use_type_invariant(self);
        }
        read_u16(&self.buf[36..38])
    }

    /// The ttl field.
    pub fn ttl(&self) -> (n: u8)
        ensures
            n == ttl_of(self@),
    {
        proof {
            use_type_invariant(self);
        }
        self.buf[40]
    }

    /// Overwrites the timestamp field.
    pub fn set_timestamp(&mut self, transmit: Timestamp)
        ensures
            final(self)@ == stamped(old(self)@, transmit@),
            final(final(self).buffer())@ == final(old(self).buffer())@,
    {
        proof {
            use_type_invariant(&*self);
        }
        self.put_timestamp(4, &transmit);
    }

    /// The first half of the reflection: copies the sender's sequence,
    /// timestamp and error estimate to their echo fields, sets the receive
    /// timestamp, and writes zero to every reserved byte.
    pub fn echo(&mut self, receive: Timestamp)
        ensures
            final(self)@ == echoed(old(self)@, receive@),
            final(final(self).buffer())@ == final(old(self).buffer())@,
    {
        proof {
            use_type_invariant(&*self);
        }
        let mut i: usize = 0;
        while i < 14
            invariant
                i <= 14,
                self.inv(),
                old(self).inv(),
                final(self.buf)@ == final(old(self).buf)@,
                self.buf@ == old(self).buf@.subrange(0, 24) + old(self).buf@.subrange(0, i as int)
                    + old(self).buf@.subrange(24 + i, PACKET_LEN as int),
            decreases 14 - i,
        {
            let byte: u8 = self.buf[i];
            self.buf[24 + i] = byte;
            i += 1;
        }
        self.put_timestamp(16, &receive);
        self.buf[14] = 0;
        self.buf[15] = 0;
        self.buf[38] = 0;
        self.buf[39] = 0;
        self.buf[41] = 0;
        self.buf[42] = 0;
        self.buf[43] = 0;
        assert(self.buf@ =~= echoed(old(self).buf@, receive@));
    }

    /// Turns the probe into its reflection, in place, and gives the buffer
    /// back: the sender's fields are echoed, the reserved bytes are zero, the
    /// receive timestamp is `receive` and the timestamp is `transmit`.
    pub fn reflect(self, receive: Timestamp, transmit: Timestamp) -> (out: &'a mut [u8])
        ensures
            out@ == reflected(self@, receive@, transmit@),
            check(out@) is Ok,
            final(out)@ == final(self.buffer())@,
    {
        let mut packet = self;
        packet.echo(receive);
        packet.set_timestamp(transmit);
        packet.into_buffer()
    }
}

} // verus!
