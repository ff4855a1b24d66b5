use sc16is752::bus::{
    burst_write_frame, parse_iir, read_frame, read_iir_frame, read_response, read_rxlvl_frame,
    read_txlvl_frame, write_divisor_frames, write_fcr_frame, write_frame, write_ier_frame,
    write_lcr_frame, write_mcr_frame,
};
use sc16is752::codec::{Channel, LCR, LSR, THR};
use sc16is752::regview::{
    Divisor, FifoControl, Ier, Iir, InterruptSource, LineControl, ModemControl,
};
use sc16is752::Error;

#[test]
fn single_register_frames() {
    assert_eq!(write_frame(LCR, Channel::A, 0x03), vec![0x18, 0x03]);
    assert_eq!(read_frame(LSR, Channel::A), vec![0xA8, 0x00]);
    assert_eq!(read_frame(LSR, Channel::B), vec![0xAA, 0x00]);
}

#[test]
fn read_response_takes_the_second_byte() {
    let response = vec![0xA8, 0x5D];
    assert_eq!(read_response(&response), 0x5D);
}

#[test]
fn burst_write_takes_a_prefix_in_order() {
    let data = [1u8, 2, 3, 4];
    assert_eq!(burst_write_frame(THR, Channel::A, &data, 2), vec![0x00, 1, 2]);
    assert_eq!(burst_write_frame(THR, Channel::B, &data, 4), vec![0x02, 1, 2, 3, 4]);
    assert_eq!(burst_write_frame(THR, Channel::A, &data, 0), vec![0x00]);
}

#[test]
fn typed_register_frames() {
    let fcr = FifoControl::new().with_enable(true);
    assert_eq!(write_fcr_frame(Channel::A, fcr), vec![0x10, 0x80]);

    let lcr = LineControl::new().with_divisor_latch_enable(true);
    assert_eq!(write_lcr_frame(Channel::A, lcr), vec![0x18, 0x01]);

    let mcr = ModemControl::new().with_divisor(Divisor::DivideByFour);
    assert_eq!(write_mcr_frame(Channel::B, mcr), vec![0x22, 0x01]);

    let mut ier = Ier::new();
    ier.receive_holding_register = true;
    assert_eq!(write_ier_frame(Channel::A, ier), vec![0x08, 0x80]);

    assert_eq!(read_iir_frame(Channel::A), vec![0x90, 0x00]);
    assert_eq!(read_txlvl_frame(Channel::A), vec![0xC0, 0x00]);
    assert_eq!(read_rxlvl_frame(Channel::A), vec![0xC8, 0x00]);
    assert_eq!(read_txlvl_frame(Channel::B), vec![0xC2, 0x00]);
}

#[test]
fn divisor_frames_program_low_byte_then_high_byte() {
    let (dll, dlh) = write_divisor_frames(Channel::A, 0x010C);
    assert_eq!(dll, vec![0x00, 0x0C]);
    assert_eq!(dlh, vec![0x08, 0x01]);
}

#[test]
fn parse_iir_reads_back_a_view() {
    assert_eq!(
        parse_iir(0x84),
        Some(Iir { fcr_msb: 0, source: InterruptSource::ThrInterrupt, pending: true })
    );
    assert_eq!(parse_iir(0x10), None);
}

#[test]
fn bus_failures_carry_the_transport_error_through() {
    let e: Error<u8> = Error::Spi(42);
    match e {
        Error::Spi(inner) => assert_eq!(inner, 42),
    }
}
