//! Control-byte codec.
//!
//! Every bus transaction opens with one control byte that addresses the chip:
//! bit 7 is the transfer direction (0 = write, 1 = read), bits 6:3 are the
//! 4-bit register address, bits 2:1 select the channel, and bit 0 is unused
//! and always zero.

use vstd::prelude::*;

verus! {

/// One of the two independent UART sub-devices behind the shared chip select.
#[derive(Clone, Copy, Debug, PartialEq, Eq, Structural)]
pub enum Channel {
    A,
    B,
}

/// Direction of a register transaction as encoded in the control byte.
#[derive(Clone, Copy, Debug, PartialEq, Eq, Structural)]
pub enum Direction {
    Write,
    Read,
}

/// Transmit / receive holding register.
pub const THR: u8 = 0x00;
/// Receive holding register (same address as `THR`).
pub const RHR: u8 = 0x00;
/// Interrupt enable register.
pub const IER: u8 = 0x01;
/// FIFO control register.
pub const FCR: u8 = 0x02;
/// Interrupt identification register (same address as `FCR`).
pub const IIR: u8 = 0x02;
/// Line control register.
pub const LCR: u8 = 0x03;
/// Modem control register.
pub const MCR: u8 = 0x04;
/// Line status register.
pub const LSR: u8 = 0x05;
/// Divisor latch low byte (aliases `THR` while the divisor latch is enabled).
pub const DLL: u8 = 0x00;
/// Divisor latch high byte (aliases `IER` while the divisor latch is enabled).
pub const DLH: u8 = 0x01;
/// Transmit FIFO free-space level register.
pub const TXLVL: u8 = 0x08;
/// Receive FIFO fill level register.
pub const RXLVL: u8 = 0x09;

/// The two channel-select bits of the control byte.
pub open spec fn channel_bits(c: Channel) -> u8 {
    match c {
        Channel::A => 0,
        Channel::B => 1,
    }
}

/// The direction bit of the control byte.
pub open spec fn direction_bit(d: Direction) -> u8 {
    match d {
        Direction::Write => 0,
        Direction::Read => 1,
    }
}

/// The control byte for a transaction: direction in bit 7, register address
/// in bits 6:3, channel in bits 2:1, bit 0 always zero.
pub open spec fn control_byte_spec(c: Channel, register: u8, d: Direction) -> u8
    recommends
        register < 16,
{
    (direction_bit(d) * 0x80 + register * 8 + channel_bits(c) * 2) as u8
}

/// Builds the control byte that opens every bus transaction.
pub fn control_byte(channel: Channel, register: u8, direction: Direction) -> (r: u8)
    requires
        register < 16,
    ensures
        r == control_byte_spec(channel, register, direction),
{
    let c: u8 = match channel {
        Channel::A => 0,
        Channel::B => 1,
    };
    let d: u8 = match direction {
        Direction::Write => 0,
        Direction::Read => 1,
    };
    d * 0x80 + register * 8 + c * 2
}

/// The triple recovered from a well-formed control byte, or `None` when the
/// byte sets the unused bit or an undefined channel code.
pub open spec fn decode_control_spec(b: u8) -> Option<(Channel, u8, Direction)> {
    if b % 2 != 0 || (b / 2) % 4 >= 2 {
        None
    } else {
        let channel = if (b / 2) % 4 == 1 {
            Channel::B
        } else {
            Channel::A
        };
        let direction = if b / 0x80 == 1 {
            Direction::Read
        } else {
            Direction::Write
        };
        Some((channel, (b / 8) % 16, direction))
    }
}

/// Recovers (channel, register address, direction) from a control byte.
pub fn decode_control(b: u8) -> (r: Option<(Channel, u8, Direction)>)
    ensures
        r == decode_control_spec(b),
{
    if b % 2 != 0 || (b / 2) % 4 >= 2 {
        None
    } else {
        let channel = if (b / 2) % 4 == 1 {
            Channel::B
        } else {
            Channel::A
        };
        let direction = if b / 0x80 == 1 {
            Direction::Read
        } else {
            Direction::Write
        };
        Some((channel, (b / 8) % 16, direction))
    }
}

proof fn lemma_pack_fields(d: u8, register: u8, c: u8)
    by (bit_vector)
    requires
        d < 2,
        register < 16,
        c < 2,
    ensures
        (d * 0x80 + register * 8 + c * 2) as u8 % 2 == 0,
        (((d * 0x80 + register * 8 + c * 2) as u8 / 2) % 4) == c,
        (((d * 0x80 + register * 8 + c * 2) as u8 / 8) % 16) == register,
        ((d * 0x80 + register * 8 + c * 2) as u8 / 0x80) == d,
{
}

/// Law: decoding the control byte built from any valid (channel,
/// register address, direction) triple recovers exactly that triple.
pub proof fn lemma_control_byte_roundtrip(channel: Channel, register: u8, direction: Direction)
    requires
        register < 16,
    ensures
        decode_control_spec(control_byte_spec(channel, register, direction)) == Some(
            (channel, register, direction),
        ),
{
    let c = channel_bits(channel);
    let d = direction_bit(direction);
    lemma_pack_fields(d, register, c);
}

} // verus!
