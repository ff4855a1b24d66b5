//! Register transaction frames.
//!
//! Every register access funnels through this module so the addressing
//! discipline of the control-byte codec is enforced in exactly one place.
//! A frame is the byte string of one bus transaction: the control byte
//! followed by the data phase.  A [`BusOp`] pairs a frame with the bus
//! primitive that must carry it: a plain write, or a full-duplex exchange
//! whose response overwrites the frame in place.

use vstd::prelude::*;

use crate::codec::{
    control_byte, control_byte_spec, Channel, Direction, DLH, DLL, FCR, IER, IIR, LCR, MCR, RXLVL,
    TXLVL,
};
use crate::regview::{FifoControl, Ier, Iir, LineControl, ModemControl};

verus! {

/// One bus transaction, ready to hand to the transport.
pub enum BusOp {
    /// Transmit the frame; no response is read back.
    Write(Vec<u8>),
    /// Exchange the frame full-duplex; the response overwrites it in place.
    Exchange(Vec<u8>),
}

/// The mathematical model of a bus transaction.
pub enum BusOpModel {
    Write(Seq<u8>),
    Exchange(Seq<u8>),
}

impl View for BusOp {
    type V = BusOpModel;

    open spec fn view(&self) -> BusOpModel {
        match self {
            BusOp::Write(frame) => BusOpModel::Write(frame@),
            BusOp::Exchange(frame) => BusOpModel::Exchange(frame@),
        }
    }
}

/// The two-byte frame of a single-register write.
pub open spec fn write_frame_spec(register: u8, c: Channel, value: u8) -> Seq<u8>
    recommends
        register < 16,
{
    seq![control_byte_spec(c, register, Direction::Write), value]
}

/// The two-byte frame of a single-register read: the control byte, then one
/// placeholder byte the chip overwrites with the register value.
pub open spec fn read_frame_spec(register: u8, c: Channel) -> Seq<u8>
    recommends
        register < 16,
{
    seq![control_byte_spec(c, register, Direction::Read), 0u8]
}

/// The frame of a burst write: the control byte once, then the first `n`
/// data bytes, in order.
pub open spec fn burst_write_frame_spec(register: u8, c: Channel, data: Seq<u8>, n: int) -> Seq<u8>
    recommends
        register < 16,
        0 <= n <= data.len(),
{
    seq![control_byte_spec(c, register, Direction::Write)] + data.take(n)
}

/// The frame of a burst read: the control byte, then `n` placeholder bytes
/// the chip overwrites with the register values.
pub open spec fn burst_read_frame_spec(register: u8, c: Channel, n: int) -> Seq<u8>
    recommends
        register < 16,
        0 <= n,
{
    seq![control_byte_spec(c, register, Direction::Read)] + Seq::new(n as nat, |i: int| 0u8)
}

/// Builds the frame of a single-register write.
pub fn write_frame(register: u8, channel: Channel, value: u8) -> (r: Vec<u8>)
    requires
        register < 16,
    ensures
        r@ == write_frame_spec(register, channel, value),
{
    let mut frame: Vec<u8> = Vec::new();
    frame.push(control_byte(channel, register, Direction::Write));
    frame.push(value);
    assert(frame@ =~= write_frame_spec(register, channel, value));
    frame
}

/// Builds the frame of a single-register read.
pub fn read_frame(register: u8, channel: Channel) -> (r: Vec<u8>)
    requires
        register < 16,
    ensures
        r@ == read_frame_spec(register, channel),
{
    let mut frame: Vec<u8> = Vec::new();
    frame.push(control_byte(channel, register, Direction::Read));
    frame.push(0);
    assert(frame@ =~= read_frame_spec(register, channel));
    frame
}

/// The register value carried in the response to a single-register read
/// frame: the second byte (the first is the chip's echo of the control
/// phase and is discarded).
pub fn read_response(response: &Vec<u8>) -> (r: u8)
    requires
        response@.len() == 2,
    ensures
        r == response@[1],
{
    response[1]
}

/// Builds the frame of a burst write carrying the first `n` bytes of `data`.
pub fn burst_write_frame(register: u8, channel: Channel, data: &[u8], n: usize) -> (r: Vec<u8>)
    requires
        register < 16,
        n <= data@.len(),
        n < usize::MAX,
    ensures
        r@ == burst_write_frame_spec(register, channel, data@, n as int),
{
    let mut frame: Vec<u8> = Vec::new();
    frame.push(control_byte(channel, register, Direction::Write));
    let mut i: usize = 0;
    while i < n
        invariant
            i <= n,
            n <= data@.len(),
            register < 16,
            frame@ == seq![control_byte_spec(channel, register, Direction::Write)] + data@.take(
                i as int,
            ),
        decreases n - i,
    {
        frame.push(data[i]);
        i += 1;
        assert(data@.take(i as int) =~= data@.take(i - 1) + seq![data@[i - 1]]);
    }
    frame
}

/// Builds the frame of a burst read of `n` register bytes.
pub fn burst_read_frame(register: u8, channel: Channel, n: usize) -> (r: Vec<u8>)
    requires
        register < 16,
        n < usize::MAX,
    ensures
        r@ == burst_read_frame_spec(register, channel, n as int),
{
    let mut frame: Vec<u8> = Vec::new();
    frame.push(control_byte(channel, register, Direction::Read));
    let mut i: usize = 0;
    while i < n
        invariant
            i <= n,
            register < 16,
            frame@ == seq![control_byte_spec(channel, register, Direction::Read)] + Seq::new(
                i as nat,
                |j: int| 0u8,
            ),
        decreases n - i,
    {
        frame.push(0);
        i += 1;
        assert(Seq::new(i as nat, |j: int| 0u8) =~= Seq::new((i - 1) as nat, |j: int| 0u8)
            + seq![0u8]);
    }
    frame
}

/// The data bytes of a burst-read response: everything after the first byte
/// (the chip's echo of the control phase).
pub fn extract_read(response: &Vec<u8>) -> (r: Vec<u8>)
    requires
        response@.len() >= 1,
    ensures
        r@ == response@.subrange(1, response@.len() as int),
{
    let mut data: Vec<u8> = Vec::new();
    let mut i: usize = 1;
    while i < response.len()
        invariant
            1 <= i <= response@.len(),
            data@ == response@.subrange(1, i as int),
        decreases response@.len() - i,
    {
        data.push(response[i]);
        i += 1;
        assert(response@.subrange(1, i as int) =~= response@.subrange(1, i - 1) + seq![response@[i
            - 1]]);
    }
    data
}

/// Builds the frame that writes an interrupt enable view.
pub fn write_ier_frame(channel: Channel, ier: Ier) -> (r: Vec<u8>)
    ensures
        r@ == write_frame_spec(IER, channel, ier.to_byte_spec()),
{
    write_frame(IER, channel, ier.to_byte())
}

/// Builds the frame that writes a FIFO control view.
pub fn write_fcr_frame(channel: Channel, fcr: FifoControl) -> (r: Vec<u8>)
    ensures
        r@ == write_frame_spec(FCR, channel, fcr.to_byte_spec()),
{
    write_frame(FCR, channel, fcr.to_byte())
}

/// Builds the frame that writes a line control view.
pub fn write_lcr_frame(channel: Channel, lcr: LineControl) -> (r: Vec<u8>)
    ensures
        r@ == write_frame_spec(LCR, channel, lcr.to_byte_spec()),
{
    write_frame(LCR, channel, lcr.to_byte())
}

/// Builds the frame that writes a modem control view.
pub fn write_mcr_frame(channel: Channel, mcr: ModemControl) -> (r: Vec<u8>)
    ensures
        r@ == write_frame_spec(MCR, channel, mcr.to_byte_spec()),
{
    write_frame(MCR, channel, mcr.to_byte())
}

/// Builds the two frames that program a baud-rate divisor, in the order
/// they must go on the bus while the divisor latch is enabled: first the
/// low byte into the DLL-aliased address, then the high byte into the
/// DLH-aliased address.
pub fn write_divisor_frames(channel: Channel, divisor: u16) -> (r: (Vec<u8>, Vec<u8>))
    ensures
        r.0@ == write_frame_spec(DLL, channel, (divisor % 256) as u8),
        r.1@ == write_frame_spec(DLH, channel, (divisor / 256) as u8),
{
    (
        write_frame(DLL, channel, (divisor % 256) as u8),
        write_frame(DLH, channel, (divisor / 256) as u8),
    )
}

/// Builds the frame that reads the interrupt identification register.
pub fn read_iir_frame(channel: Channel) -> (r: Vec<u8>)
    ensures
        r@ == read_frame_spec(IIR, channel),
{
    read_frame(IIR, channel)
}

/// Parses the byte read back from the interrupt identification register.
pub fn parse_iir(b: u8) -> (r: Option<Iir>)
    ensures
        r == Iir::from_byte_spec(b),
{
    Iir::from_byte(b)
}

/// Builds the frame that reads the transmit FIFO free-space level.
pub fn read_txlvl_frame(channel: Channel) -> (r: Vec<u8>)
    ensures
        r@ == read_frame_spec(TXLVL, channel),
{
    read_frame(TXLVL, channel)
}

/// Builds the frame that reads the receive FIFO fill level.
pub fn read_rxlvl_frame(channel: Channel) -> (r: Vec<u8>)
    ensures
        r@ == read_frame_spec(RXLVL, channel),
{
    read_frame(RXLVL, channel)
}

/// Whether a transaction reads one of the FIFO level registers of `c`.
pub open spec fn is_level_read(op: BusOpModel, c: Channel) -> bool {
    op matches BusOpModel::Exchange(frame) && frame.len() > 0 && (frame[0] == control_byte_spec(
        c,
        TXLVL,
        Direction::Read,
    ) || frame[0] == control_byte_spec(c, RXLVL, Direction::Read))
}

/// Whether a transaction writes the FIFO control register of `c` with the
/// enable flag set.
pub open spec fn is_fifo_enable_write(op: BusOpModel, c: Channel) -> bool {
    op matches BusOpModel::Write(frame) && frame.len() == 2 && frame[0] == control_byte_spec(
        c,
        FCR,
        Direction::Write,
    ) && FifoControl::from_byte_spec(frame[1]).enable
}

} // verus!
