use reflector::packet::PACKET_LEN;
use reflector::{PacketError, Timestamp, UnauthenticatedPacket};

fn probe(sequence: u32, timestamp: u64, error: u16, ttl: u8) -> [u8; 44] {
    let mut buf = [0u8; 44];
    buf[0..4].copy_from_slice(&sequence.to_be_bytes());
    buf[4..12].copy_from_slice(&timestamp.to_be_bytes());
    buf[12..14].copy_from_slice(&error.to_be_bytes());
    buf[40] = ttl;
    buf
}

fn refusal(buf: &mut [u8]) -> Option<PacketError> {
    match UnauthenticatedPacket::from_buffer(buf) {
        Ok(_) => None,
        Err(e) => Some(e),
    }
}

#[test]
fn a_packet_is_44_bytes() {
    assert_eq!(PACKET_LEN, 44);
}

#[test]
fn any_other_length_is_refused_and_left_alone() {
    for len in [0usize, 1, 8, 40, 43, 45, 48, 112, 4096] {
        let mut buf = vec![0u8; len];
        for (i, byte) in buf.iter_mut().enumerate() {
            *byte = (i % 251) as u8;
        }
        let before = buf.clone();
        assert_eq!(refusal(&mut buf), Some(PacketError::IncorrectLength));
        assert_eq!(buf, before);
    }
}

#[test]
fn length_is_judged_before_the_reserved_bytes() {
    let mut long = [0xFFu8; 45];
    assert_eq!(refusal(&mut long), Some(PacketError::IncorrectLength));
    let mut short = [0xFFu8; 16];
    assert_eq!(refusal(&mut short), Some(PacketError::IncorrectLength));
}

#[test]
fn each_reserved_byte_must_be_zero() {
    for offset in [14usize, 15, 38, 39, 41, 42, 43] {
        for value in [1u8, 0x80, 0xFF] {
            let mut buf = probe(7, 0x83AA_7E80_0000_0000, 3, 0);
            buf[offset] = value;
            let before = buf;
            assert_eq!(refusal(&mut buf), Some(PacketError::MBZViolation));
            assert_eq!(buf, before);
        }
    }
}

#[test]
fn every_other_byte_may_hold_anything() {
    let mut buf = [0xFFu8; 44];
    for offset in [14usize, 15, 38, 39, 41, 42, 43] {
        buf[offset] = 0;
    }
    assert_eq!(refusal(&mut buf), None);
    let mut zero = [0u8; 44];
    assert_eq!(refusal(&mut zero), None);
}

#[test]
fn ttl_is_not_reserved() {
    let mut buf = probe(1, 2, 3, 0);
    buf[40] = 1;
    assert_eq!(refusal(&mut buf), None);
}

#[test]
fn fields_are_read_where_they_lie() {
    let mut buf = [0u8; 44];
    for (i, byte) in buf.iter_mut().enumerate() {
        *byte = i as u8 + 1;
    }
    for offset in [14usize, 15, 38, 39, 41, 42, 43] {
        buf[offset] = 0;
    }
    let packet = UnauthenticatedPacket::from_buffer(&mut buf).unwrap();
    assert_eq!(packet.sequence(), 0x0102_0304);
    assert_eq!(packet.timestamp().to_u64(), 0x0506_0708_090A_0B0C);
    assert_eq!(packet.error_estimate(), 0x0D0E);
    assert_eq!(packet.receive_timestamp().to_u64(), 0x1112_1314_1516_1718);
    assert_eq!(packet.sender_sequence(), 0x191A_1B1C);
    assert_eq!(packet.sender_timestamp().to_u64(), 0x1D1E_1F20_2122_2324);
    assert_eq!(packet.sender_error(), 0x2526);
    assert_eq!(packet.ttl(), 0x29);
}

#[test]
fn reflection_echoes_the_sender_fields() {
    let t0 = 0x83AA_7E80_1234_5678u64;
    let e0 = 0xBEEFu16;
    let mut buf = probe(0x0000_0007, t0, e0, 0);
    let packet = UnauthenticatedPacket::from_buffer(&mut buf).unwrap();
    let receive = Timestamp::from_parts(0xE000_0001, 0x0000_0010);
    let transmit = Timestamp::from_parts(0xE000_0001, 0x0000_0020);
    let out = packet.reflect(receive, transmit);
    assert_eq!(out.len(), 44);
    let reply = UnauthenticatedPacket::from_buffer(out).unwrap();
    assert_eq!(reply.sender_sequence(), 0x0000_0007);
    assert_eq!(reply.sender_timestamp().to_u64(), t0);
    assert_eq!(reply.sender_error(), e0);
    assert_eq!(reply.receive_timestamp(), receive);
    assert_eq!(reply.timestamp(), transmit);
    assert_eq!(reply.sequence(), 0x0000_0007);
    assert_eq!(reply.error_estimate(), e0);
}

#[test]
fn reflection_byte_for_byte() {
    let mut buf = probe(0x0102_0304, 0x1112_1314_1516_1718, 0x2122, 0x40);
    // What stood in the fields that the reflector fills does not matter.
    for byte in &mut buf[16..38] {
        *byte = 0xEE;
    }
    let packet = UnauthenticatedPacket::from_buffer(&mut buf).unwrap();
    let receive = Timestamp::from_bytes([0xA1, 0xA2, 0xA3, 0xA4, 0xA5, 0xA6, 0xA7, 0xA8]);
    let transmit = Timestamp::from_bytes([0xB1, 0xB2, 0xB3, 0xB4, 0xB5, 0xB6, 0xB7, 0xB8]);
    packet.reflect(receive, transmit);
    let expected: [u8; 44] = [
        0x01, 0x02, 0x03, 0x04, // sequence
        0xB1, 0xB2, 0xB3, 0xB4, 0xB5, 0xB6, 0xB7, 0xB8, // timestamp
        0x21, 0x22, // error estimate
        0x00, 0x00, // reserved
        0xA1, 0xA2, 0xA3, 0xA4, 0xA5, 0xA6, 0xA7, 0xA8, // receive timestamp
        0x01, 0x02, 0x03, 0x04, // sender sequence
        0x11, 0x12, 0x13, 0x14, 0x15, 0x16, 0x17, 0x18, // sender timestamp
        0x21, 0x22, // sender error
        0x00, 0x00, // reserved
        0x40, // ttl
        0x00, 0x00, 0x00, // reserved
    ];
    assert_eq!(buf, expected);
}

#[test]
fn reflection_leaves_the_reserved_bytes_zero() {
    let mut buf = probe(9, u64::MAX, u16::MAX, 0xFF);
    let packet = UnauthenticatedPacket::from_buffer(&mut buf).unwrap();
    let all_ones = Timestamp::from_bytes([0xFF; 8]);
    packet.reflect(all_ones, all_ones);
    for offset in [14usize, 15, 38, 39, 41, 42, 43] {
        assert_eq!(buf[offset], 0);
    }
    assert_eq!(refusal(&mut buf), None);
}

#[test]
fn reflection_keeps_the_length() {
    let mut buf = probe(1, 2, 3, 4);
    let packet = UnauthenticatedPacket::from_buffer(&mut buf).unwrap();
    let out = packet.reflect(Timestamp::from_parts(5, 6), Timestamp::from_parts(7, 8));
    assert_eq!(out.len(), 44);
    assert_eq!(out.len(), PACKET_LEN);
}

#[test]
fn echo_alone_leaves_the_timestamp() {
    let mut buf = probe(0xCAFE_F00D, 0x0102_0304_0506_0708, 0x0A0B, 7);
    let mut packet = UnauthenticatedPacket::from_buffer(&mut buf).unwrap();
    packet.echo(Timestamp::from_parts(0x1111_1111, 0x2222_2222));
    assert_eq!(packet.timestamp().to_u64(), 0x0102_0304_0506_0708);
    assert_eq!(packet.sender_timestamp().to_u64(), 0x0102_0304_0506_0708);
    assert_eq!(packet.sender_sequence(), 0xCAFE_F00D);
    assert_eq!(packet.sender_error(), 0x0A0B);
    assert_eq!(packet.receive_timestamp().to_u64(), 0x1111_1111_2222_2222);
    assert_eq!(packet.ttl(), 7);
}

#[test]
fn set_timestamp_changes_that_field_only() {
    let mut buf = probe(5, 6, 7, 8);
    let before = buf;
    let mut packet = UnauthenticatedPacket::from_buffer(&mut buf).unwrap();
    packet.set_timestamp(Timestamp::from_parts(0xAABB_CCDD, 0x0011_2233));
    let out = packet.into_buffer();
    assert_eq!(out[4..12], [0xAA, 0xBB, 0xCC, 0xDD, 0x00, 0x11, 0x22, 0x33]);
    assert_eq!(out[..4], before[..4]);
    assert_eq!(out[12..], before[12..]);
}

#[test]
fn a_view_that_writes_nothing_changes_nothing() {
    let mut buf = probe(0x1234_5678, 0x9ABC_DEF0_1234_5678, 0x9ABC, 0xDE);
    let before = buf;
    let packet = UnauthenticatedPacket::from_buffer(&mut buf).unwrap();
    assert_eq!(packet.sequence(), 0x1234_5678);
    let out = packet.into_buffer();
    assert_eq!(out.len(), 44);
    assert_eq!(buf, before);
}

#[test]
fn reflecting_twice_echoes_the_first_reflection() {
    let mut buf = probe(3, 0x0000_0001_0000_0000, 1, 0);
    let first = UnauthenticatedPacket::from_buffer(&mut buf).unwrap();
    let out = first.reflect(Timestamp::from_parts(10, 0), Timestamp::from_parts(11, 0));
    let second = UnauthenticatedPacket::from_buffer(out).unwrap();
    second.reflect(Timestamp::from_parts(20, 0), Timestamp::from_parts(21, 0));
    let reply = UnauthenticatedPacket::from_buffer(&mut buf).unwrap();
    assert_eq!(reply.sender_timestamp().seconds(), 11);
    assert_eq!(reply.receive_timestamp().seconds(), 20);
    assert_eq!(reply.timestamp().seconds(), 21);
    assert_eq!(reply.sender_sequence(), 3);
}
