use sc16is752::codec::{control_byte, decode_control, Channel, Direction, IER, LCR, RXLVL, TXLVL};

#[test]
fn test_rab_construction() {
    // TXLVL read on channel A
    assert_eq!(control_byte(Channel::A, TXLVL, Direction::Read), 0xC0);

    // IER write on channel A
    assert_eq!(control_byte(Channel::A, IER, Direction::Write), 0x08);

    // TXLVL read on channel B
    assert_eq!(control_byte(Channel::B, TXLVL, Direction::Read), 0xC2);
}

#[test]
fn decode_recovers_encoded_triples() {
    let cases = [
        (Channel::A, TXLVL, Direction::Read),
        (Channel::A, IER, Direction::Write),
        (Channel::B, TXLVL, Direction::Read),
        (Channel::B, LCR, Direction::Write),
        (Channel::A, 0x00, Direction::Write),
        (Channel::B, 0x0F, Direction::Read),
        (Channel::A, RXLVL, Direction::Read),
    ];
    for (channel, register, direction) in cases {
        let b = control_byte(channel, register, direction);
        assert_eq!(decode_control(b), Some((channel, register, direction)));
    }
}

#[test]
fn decode_round_trips_every_valid_triple() {
    for register in 0u8..16 {
        for (channel, direction) in [
            (Channel::A, Direction::Write),
            (Channel::A, Direction::Read),
            (Channel::B, Direction::Write),
            (Channel::B, Direction::Read),
        ] {
            let b = control_byte(channel, register, direction);
            assert_eq!(decode_control(b), Some((channel, register, direction)));
        }
    }
}

#[test]
fn decode_rejects_malformed_bytes() {
    // unused bit 0 set
    assert_eq!(decode_control(0xC1), None);
    // undefined channel code in bits 2:1
    assert_eq!(decode_control(0xC4), None);
    assert_eq!(decode_control(0x06), None);
}
