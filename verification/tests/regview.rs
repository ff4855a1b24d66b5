use sc16is752::regview::{
    Divisor, FifoControl, Ier, Iir, InterruptSource, LineControl, ModemControl, RxFifoTrigger,
    TxFifoTrigger,
};

#[test]
fn fifo_control_exact_bytes() {
    assert_eq!(FifoControl::new().to_byte(), 0x00);
    assert_eq!(
        FifoControl::new()
            .with_enable(true)
            .with_reset_tx(true)
            .with_reset_rx(true)
            .to_byte(),
        0xE0
    );
    assert_eq!(FifoControl::new().with_rx_trigger(RxFifoTrigger::_60).to_byte(), 0x03);
    assert_eq!(FifoControl::new().with_tx_trigger(TxFifoTrigger::_32).to_byte(), 0x08);
    assert_eq!(FifoControl::new().with_reset_tx(true).to_byte(), 0x20);
    assert_eq!(FifoControl::new().with_reset_rx(true).to_byte(), 0x40);
    assert_eq!(FifoControl::new().with_enable(true).to_byte(), 0x80);
}

#[test]
fn fifo_control_round_trips_all_field_combinations() {
    let rx = [
        RxFifoTrigger::_8,
        RxFifoTrigger::_16,
        RxFifoTrigger::_56,
        RxFifoTrigger::_60,
    ];
    let tx = [
        TxFifoTrigger::_8,
        TxFifoTrigger::_16,
        TxFifoTrigger::_32,
        TxFifoTrigger::_56,
    ];
    for rx_trigger in rx {
        for tx_trigger in tx {
            for reset_tx in [false, true] {
                for reset_rx in [false, true] {
                    for enable in [false, true] {
                        let v = FifoControl { rx_trigger, tx_trigger, reset_tx, reset_rx, enable };
                        assert_eq!(FifoControl::from_byte(v.to_byte()), v);
                    }
                }
            }
        }
    }
}

#[test]
fn line_control_exact_bytes_and_round_trip() {
    assert_eq!(LineControl::new().to_byte(), 0x00);
    assert_eq!(LineControl::new().with_divisor_latch_enable(true).to_byte(), 0x01);
    assert_eq!(LineControl::new().with_break_control_bit(true).to_byte(), 0x02);
    for divisor_latch_enable in [false, true] {
        for break_control_bit in [false, true] {
            let v = LineControl { divisor_latch_enable, break_control_bit };
            assert_eq!(LineControl::from_byte(v.to_byte()), v);
        }
    }
}

#[test]
fn ier_exact_bytes() {
    let mut v = Ier::new();
    assert_eq!(v.to_byte(), 0x00);
    v.cts = true;
    assert_eq!(v.to_byte(), 0x01);
    v = Ier::new();
    v.receive_holding_register = true;
    assert_eq!(v.to_byte(), 0x80);
    v = Ier::new();
    v.sleep = true;
    v.receive_line_status = true;
    assert_eq!(v.to_byte(), 0x28);
}

#[test]
fn ier_round_trips_all_field_combinations() {
    for b in 0u16..256 {
        let bit = |i: u16| (b >> i) & 1 == 1;
        let v = Ier {
            cts: bit(0),
            rts: bit(1),
            x_off: bit(2),
            sleep: bit(3),
            modem_status: bit(4),
            receive_line_status: bit(5),
            transmit_holding_register: bit(6),
            receive_holding_register: bit(7),
        };
        assert_eq!(v.to_byte(), b as u8);
        assert_eq!(Ier::from_byte(v.to_byte()), v);
    }
}

#[test]
fn modem_control_round_trip_and_bytes() {
    assert_eq!(ModemControl::new().to_byte(), 0x00);
    assert_eq!(ModemControl::new().with_divisor(Divisor::DivideByFour).to_byte(), 0x01);
    for divisor in [Divisor::DivideByOne, Divisor::DivideByFour] {
        let v = ModemControl { divisor };
        assert_eq!(ModemControl::from_byte(v.to_byte()), v);
    }
}

#[test]
fn iir_round_trips_every_defined_source() {
    let sources = [
        InterruptSource::ModemInterrupt,
        InterruptSource::ThrInterrupt,
        InterruptSource::RhrInterrupt,
        InterruptSource::ReceiveLineStatusError,
        InterruptSource::ReceiverTimeout,
    ];
    for fcr_msb in 0u8..4 {
        for source in sources {
            for pending in [false, true] {
                let v = Iir { fcr_msb, source, pending };
                assert_eq!(Iir::from_byte(v.to_byte()), Some(v));
            }
        }
    }
}

#[test]
fn iir_exact_bytes_and_rejects_undefined_codes() {
    let v = Iir { fcr_msb: 0, source: InterruptSource::ThrInterrupt, pending: true };
    assert_eq!(v.to_byte(), 0x84);
    let v = Iir { fcr_msb: 3, source: InterruptSource::ReceiverTimeout, pending: false };
    assert_eq!(v.to_byte(), 0x1B);
    // source code 0b00100 is not defined by the datasheet
    assert_eq!(Iir::from_byte(0x10), None);
    // source code 0b11111 is not defined either
    assert_eq!(Iir::from_byte(0x7C), None);
}
