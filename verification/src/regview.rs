//! Typed, bit-accurate views of the chip's configuration registers.
//!
//! Each view is a plain structure of named fields together with a pair of
//! pure pack/unpack functions mapping it to and from the raw register byte.
//! The bit layouts are fixed by the chip; the round-trip laws at the end of
//! this module state that unpacking a packed view recovers every field.

use vstd::prelude::*;

verus! {

/// The numeric value of a single flag bit.
pub open spec fn flag_bit(b: bool) -> u8 {
    if b {
        1
    } else {
        0
    }
}

/// Receive FIFO trigger level: the fill level (in bytes) at which the chip
/// raises the receive interrupt.
#[derive(Clone, Copy, Debug, PartialEq, Eq, Structural)]
pub enum RxFifoTrigger {
    _8,
    _16,
    _56,
    _60,
}

/// Transmit FIFO trigger level: the free-space level (in bytes) at which the
/// chip raises the transmit interrupt.
#[derive(Clone, Copy, Debug, PartialEq, Eq, Structural)]
pub enum TxFifoTrigger {
    _8,
    _16,
    _32,
    _56,
}

/// The 2-bit code of a receive trigger level.
pub open spec fn rx_trigger_bits(t: RxFifoTrigger) -> u8 {
    match t {
        RxFifoTrigger::_8 => 0,
        RxFifoTrigger::_16 => 1,
        RxFifoTrigger::_56 => 2,
        RxFifoTrigger::_60 => 3,
    }
}

/// The receive trigger level denoted by a 2-bit code.
pub open spec fn rx_trigger_of_bits(b: u8) -> RxFifoTrigger
    recommends
        b < 4,
{
    if b == 0 {
        RxFifoTrigger::_8
    } else if b == 1 {
        RxFifoTrigger::_16
    } else if b == 2 {
        RxFifoTrigger::_56
    } else {
        RxFifoTrigger::_60
    }
}

/// The 2-bit code of a transmit trigger level.
pub open spec fn tx_trigger_bits(t: TxFifoTrigger) -> u8 {
    match t {
        TxFifoTrigger::_8 => 0,
        TxFifoTrigger::_16 => 1,
        TxFifoTrigger::_32 => 2,
        TxFifoTrigger::_56 => 3,
    }
}

/// The transmit trigger level denoted by a 2-bit code.
pub open spec fn tx_trigger_of_bits(b: u8) -> TxFifoTrigger
    recommends
        b < 4,
{
    if b == 0 {
        TxFifoTrigger::_8
    } else if b == 1 {
        TxFifoTrigger::_16
    } else if b == 2 {
        TxFifoTrigger::_32
    } else {
        TxFifoTrigger::_56
    }
}

/// FIFO control register: receive trigger in bits 1:0, transmit trigger in
/// bits 3:2, bit 4 reserved (always written zero), reset-transmit in bit 5,
/// reset-receive in bit 6, FIFO enable in bit 7.
#[derive(Clone, Copy, Debug, PartialEq, Eq, Structural)]
pub struct FifoControl {
    pub rx_trigger: RxFifoTrigger,
    pub tx_trigger: TxFifoTrigger,
    pub reset_tx: bool,
    pub reset_rx: bool,
    pub enable: bool,
}

impl FifoControl {
    /// A view with every field zero, as the chip boots.
    pub fn new() -> (r: FifoControl)
        ensures
            r == (FifoControl {
                rx_trigger: RxFifoTrigger::_8,
                tx_trigger: TxFifoTrigger::_8,
                reset_tx: false,
                reset_rx: false,
                enable: false,
            }),
    {
        FifoControl {
            rx_trigger: RxFifoTrigger::_8,
            tx_trigger: TxFifoTrigger::_8,
            reset_tx: false,
            reset_rx: false,
            enable: false,
        }
    }

    /// A copy with the receive trigger level replaced.
    pub fn with_rx_trigger(self, rx_trigger: RxFifoTrigger) -> (r: FifoControl)
        ensures
            r == (FifoControl { rx_trigger, ..self }),
    {
        FifoControl { rx_trigger, ..self }
    }

    /// A copy with the transmit trigger level replaced.
    pub fn with_tx_trigger(self, tx_trigger: TxFifoTrigger) -> (r: FifoControl)
        ensures
            r == (FifoControl { tx_trigger, ..self }),
    {
        FifoControl { tx_trigger, ..self }
    }

    /// A copy with the reset-transmit flag replaced.
    pub fn with_reset_tx(self, reset_tx: bool) -> (r: FifoControl)
        ensures
            r == (FifoControl { reset_tx, ..self }),
    {
        FifoControl { reset_tx, ..self }
    }

    /// A copy with the reset-receive flag replaced.
    pub fn with_reset_rx(self, reset_rx: bool) -> (r: FifoControl)
        ensures
            r == (FifoControl { reset_rx, ..self }),
    {
        FifoControl { reset_rx, ..self }
    }

    /// A copy with the FIFO-enable flag replaced.
    pub fn with_enable(self, enable: bool) -> (r: FifoControl)
        ensures
            r == (FifoControl { enable, ..self }),
    {
        FifoControl { enable, ..self }
    }

    /// The raw register byte of this view.
    pub open spec fn to_byte_spec(self) -> u8 {
        (rx_trigger_bits(self.rx_trigger) + tx_trigger_bits(self.tx_trigger) * 4 + flag_bit(
            self.reset_tx,
        ) * 0x20 + flag_bit(self.reset_rx) * 0x40 + flag_bit(self.enable) * 0x80) as u8
    }

    /// The view encoded by a raw register byte (the reserved bit is ignored).
    pub open spec fn from_byte_spec(b: u8) -> FifoControl {
        FifoControl {
            rx_trigger: rx_trigger_of_bits(b % 4),
            tx_trigger: tx_trigger_of_bits((b / 4) % 4),
            reset_tx: (b / 0x20) % 2 == 1,
            reset_rx: (b / 0x40) % 2 == 1,
            enable: b / 0x80 == 1,
        }
    }

    /// Packs the view into its raw register byte.
    pub fn to_byte(self) -> (r: u8)
        ensures
            r == self.to_byte_spec(),
    {
        let rx: u8 = match self.rx_trigger {
            RxFifoTrigger::_8 => 0,
            RxFifoTrigger::_16 => 1,
            RxFifoTrigger::_56 => 2,
            RxFifoTrigger::_60 => 3,
        };
        let tx: u8 = match self.tx_trigger {
            TxFifoTrigger::_8 => 0,
            TxFifoTrigger::_16 => 1,
            TxFifoTrigger::_32 => 2,
            TxFifoTrigger::_56 => 3,
        };
        let rtx: u8 = if self.reset_tx {
            1
        } else {
            0
        };
        let rrx: u8 = if self.reset_rx {
            1
        } else {
            0
        };
        let en: u8 = if self.enable {
            1
        } else {
            0
        };
        rx + tx * 4 + rtx * 0x20 + rrx * 0x40 + en * 0x80
    }

    /// Unpacks a raw register byte into its view.
    pub fn from_byte(b: u8) -> (r: FifoControl)
        ensures
            r == Self::from_byte_spec(b),
    {
        let rx: u8 = b % 4;
        let tx: u8 = (b / 4) % 4;
        FifoControl {
            rx_trigger: if rx == 0 {
                RxFifoTrigger::_8
            } else if rx == 1 {
                RxFifoTrigger::_16
            } else if rx == 2 {
                RxFifoTrigger::_56
            } else {
                RxFifoTrigger::_60
            },
            tx_trigger: if tx == 0 {
                TxFifoTrigger::_8
            } else if tx == 1 {
                TxFifoTrigger::_16
            } else if tx == 2 {
                TxFifoTrigger::_32
            } else {
                TxFifoTrigger::_56
            },
            reset_tx: (b / 0x20) % 2 == 1,
            reset_rx: (b / 0x40) % 2 == 1,
            enable: b / 0x80 == 1,
        }
    }
}

/// Line control register: divisor-latch enable in bit 0, break control in
/// bit 1, the remaining bits unused by this view.
#[derive(Clone, Copy, Debug, PartialEq, Eq, Structural)]
pub struct LineControl {
    pub divisor_latch_enable: bool,
    pub break_control_bit: bool,
}

impl LineControl {
    /// A view with every field zero, as the chip boots.
    pub fn new() -> (r: LineControl)
        ensures
            r == (LineControl { divisor_latch_enable: false, break_control_bit: false }),
    {
        LineControl { divisor_latch_enable: false, break_control_bit: false }
    }

    /// A copy with the divisor-latch-enable flag replaced.
    pub fn with_divisor_latch_enable(self, divisor_latch_enable: bool) -> (r: LineControl)
        ensures
            r == (LineControl { divisor_latch_enable, ..self }),
    {
        LineControl { divisor_latch_enable, ..self }
    }

    /// A copy with the break-control flag replaced.
    pub fn with_break_control_bit(self, break_control_bit: bool) -> (r: LineControl)
        ensures
            r == (LineControl { break_control_bit, ..self }),
    {
        LineControl { break_control_bit, ..self }
    }

    /// The raw register byte of this view.
    pub open spec fn to_byte_spec(self) -> u8 {
        (flag_bit(self.divisor_latch_enable) + flag_bit(self.break_control_bit) * 2) as u8
    }

    /// The view encoded by a raw register byte (unused bits are ignored).
    pub open spec fn from_byte_spec(b: u8) -> LineControl {
        LineControl { divisor_latch_enable: b % 2 == 1, break_control_bit: (b / 2) % 2 == 1 }
    }

    /// Packs the view into its raw register byte.
    pub fn to_byte(self) -> (r: u8)
        ensures
            r == self.to_byte_spec(),
    {
        let dle: u8 = if self.divisor_latch_enable {
            1
        } else {
            0
        };
        let brk: u8 = if self.break_control_bit {
            1
        } else {
            0
        };
        dle + brk * 2
    }

    /// Unpacks a raw register byte into its view.
    pub fn from_byte(b: u8) -> (r: LineControl)
        ensures
            r == Self::from_byte_spec(b),
    {
        LineControl { divisor_latch_enable: b % 2 == 1, break_control_bit: (b / 2) % 2 == 1 }
    }
}

/// Interrupt enable register: eight independent enable flags, one per bit,
/// in the chip's fixed order from bit 0 upward.
#[derive(Clone, Copy, Debug, PartialEq, Eq, Structural)]
pub struct Ier {
    pub cts: bool,
    pub rts: bool,
    pub x_off: bool,
    pub sleep: bool,
    pub modem_status: bool,
    pub receive_line_status: bool,
    pub transmit_holding_register: bool,
    pub receive_holding_register: bool,
}

impl Ier {
    /// A view with every interrupt disabled, as the chip boots.
    pub fn new() -> (r: Ier)
        ensures
            r == (Ier {
                cts: false,
                rts: false,
                x_off: false,
                sleep: false,
                modem_status: false,
                receive_line_status: false,
                transmit_holding_register: false,
                receive_holding_register: false,
            }),
    {
        Ier {
            cts: false,
            rts: false,
            x_off: false,
            sleep: false,
            modem_status: false,
            receive_line_status: false,
            transmit_holding_register: false,
            receive_holding_register: false,
        }
    }

    /// The raw register byte of this view.
    pub open spec fn to_byte_spec(self) -> u8 {
        (flag_bit(self.cts) + flag_bit(self.rts) * 2 + flag_bit(self.x_off) * 4 + flag_bit(
            self.sleep,
        ) * 8 + flag_bit(self.modem_status) * 0x10 + flag_bit(self.receive_line_status) * 0x20
            + flag_bit(self.transmit_holding_register) * 0x40 + flag_bit(
            self.receive_holding_register,
        ) * 0x80) as u8
    }

    /// The view encoded by a raw register byte.
    pub open spec fn from_byte_spec(b: u8) -> Ier {
        Ier {
            cts: b % 2 == 1,
            rts: (b / 2) % 2 == 1,
            x_off: (b / 4) % 2 == 1,
            sleep: (b / 8) % 2 == 1,
            modem_status: (b / 0x10) % 2 == 1,
            receive_line_status: (b / 0x20) % 2 == 1,
            transmit_holding_register: (b / 0x40) % 2 == 1,
            receive_holding_register: b / 0x80 == 1,
        }
    }

    /// Packs the view into its raw register byte.
    pub fn to_byte(self) -> (r: u8)
        ensures
            r == self.to_byte_spec(),
    {
        let b0: u8 = if self.cts {
            1
        } else {
            0
        };
        let b1: u8 = if self.rts {
            1
        } else {
            0
        };
        let b2: u8 = if self.x_off {
            1
        } else {
            0
        };
        let b3: u8 = if self.sleep {
            1
        } else {
            0
        };
        let b4: u8 = if self.modem_status {
            1
        } else {
            0
        };
        let b5: u8 = if self.receive_line_status {
            1
        } else {
            0
        };
        let b6: u8 = if self.transmit_holding_register {
            1
        } else {
            0
        };
        let b7: u8 = if self.receive_holding_register {
            1
        } else {
            0
        };
        b0 + b1 * 2 + b2 * 4 + b3 * 8 + b4 * 0x10 + b5 * 0x20 + b6 * 0x40 + b7 * 0x80
    }

    /// Unpacks a raw register byte into its view.
    pub fn from_byte(b: u8) -> (r: Ier)
        ensures
            r == Self::from_byte_spec(b),
    {
        Ier {
            cts: b % 2 == 1,
            rts: (b / 2) % 2 == 1,
            x_off: (b / 4) % 2 == 1,
            sleep: (b / 8) % 2 == 1,
            modem_status: (b / 0x10) % 2 == 1,
            receive_line_status: (b / 0x20) % 2 == 1,
            transmit_holding_register: (b / 0x40) % 2 == 1,
            receive_holding_register: b / 0x80 == 1,
        }
    }
}

/// Prescaler selection carried in bit 0 of the modem control register.
#[derive(Clone, Copy, Debug, PartialEq, Eq, Structural)]
pub enum Divisor {
    DivideByOne,
    DivideByFour,
}

/// Modem control register: the prescaler selection in bit 0; the remaining
/// bits are unused by this driver.
#[derive(Clone, Copy, Debug, PartialEq, Eq, Structural)]
pub struct ModemControl {
    pub divisor: Divisor,
}

impl ModemControl {
    /// A view with the boot-default prescaler (divide by one).
    pub fn new() -> (r: ModemControl)
        ensures
            r == (ModemControl { divisor: Divisor::DivideByOne }),
    {
        ModemControl { divisor: Divisor::DivideByOne }
    }

    /// A copy with the prescaler selection replaced.
    pub fn with_divisor(self, divisor: Divisor) -> (r: ModemControl)
        ensures
            r == (ModemControl { divisor }),
    {
        ModemControl { divisor }
    }

    /// The raw register byte of this view.
    pub open spec fn to_byte_spec(self) -> u8 {
        match self.divisor {
            Divisor::DivideByOne => 0,
            Divisor::DivideByFour => 1,
        }
    }

    /// The view encoded by a raw register byte (unused bits are ignored).
    pub open spec fn from_byte_spec(b: u8) -> ModemControl {
        ModemControl {
            divisor: if b % 2 == 1 {
                Divisor::DivideByFour
            } else {
                Divisor::DivideByOne
            },
        }
    }

    /// Packs the view into its raw register byte.
    pub fn to_byte(self) -> (r: u8)
        ensures
            r == self.to_byte_spec(),
    {
        match self.divisor {
            Divisor::DivideByOne => 0,
            Divisor::DivideByFour => 1,
        }
    }

    /// Unpacks a raw register byte into its view.
    pub fn from_byte(b: u8) -> (r: ModemControl)
        ensures
            r == Self::from_byte_spec(b),
    {
        ModemControl {
            divisor: if b % 2 == 1 {
                Divisor::DivideByFour
            } else {
                Divisor::DivideByOne
            },
        }
    }
}

/// The cause the chip reports in the interrupt identification register.
#[derive(Clone, Copy, Debug, PartialEq, Eq, Structural)]
pub enum InterruptSource {
    ReceiveLineStatusError,
    ReceiverTimeout,
    RhrInterrupt,
    ThrInterrupt,
    ModemInterrupt,
}

/// The 5-bit code of an interrupt source, fixed by the datasheet.
pub open spec fn source_code(s: InterruptSource) -> u8 {
    match s {
        InterruptSource::ModemInterrupt => 0b00000,
        InterruptSource::ThrInterrupt => 0b00001,
        InterruptSource::RhrInterrupt => 0b00010,
        InterruptSource::ReceiveLineStatusError => 0b00011,
        InterruptSource::ReceiverTimeout => 0b00110,
    }
}

/// The interrupt source denoted by a 5-bit code, or `None` for a code the
/// datasheet does not define.
pub open spec fn source_of_code(b: u8) -> Option<InterruptSource> {
    if b == 0b00000 {
        Some(InterruptSource::ModemInterrupt)
    } else if b == 0b00001 {
        Some(InterruptSource::ThrInterrupt)
    } else if b == 0b00010 {
        Some(InterruptSource::RhrInterrupt)
    } else if b == 0b00011 {
        Some(InterruptSource::ReceiveLineStatusError)
    } else if b == 0b00110 {
        Some(InterruptSource::ReceiverTimeout)
    } else {
        None
    }
}

/// Interrupt identification register: the FIFO-control echo in bits 1:0, the
/// 5-bit interrupt source code in bits 6:2, and the pending bit in bit 7
/// (chip polarity: 0 means an interrupt is pending, carried through as-is).
#[derive(Clone, Copy, Debug, PartialEq, Eq, Structural)]
pub struct Iir {
    pub fcr_msb: u8,
    pub source: InterruptSource,
    pub pending: bool,
}

impl Iir {
    /// The echo field occupies only two bits.
    pub open spec fn wf(self) -> bool {
        self.fcr_msb < 4
    }

    /// The raw register byte of this view.
    pub open spec fn to_byte_spec(self) -> u8
        recommends
            self.wf(),
    {
        (self.fcr_msb + source_code(self.source) * 4 + flag_bit(self.pending) * 0x80) as u8
    }

    /// The view encoded by a raw register byte, or `None` when the source
    /// code is one the datasheet does not define.
    pub open spec fn from_byte_spec(b: u8) -> Option<Iir> {
        match source_of_code((b / 4) % 0x20) {
            Some(source) => Some(Iir { fcr_msb: b % 4, source, pending: b / 0x80 == 1 }),
            None => None,
        }
    }

    /// Packs the view into its raw register byte.
    pub fn to_byte(self) -> (r: u8)
        requires
            self.wf(),
        ensures
            r == self.to_byte_spec(),
    {
        let code: u8 = match self.source {
            InterruptSource::ModemInterrupt => 0b00000,
            InterruptSource::ThrInterrupt => 0b00001,
            InterruptSource::RhrInterrupt => 0b00010,
            InterruptSource::ReceiveLineStatusError => 0b00011,
            InterruptSource::ReceiverTimeout => 0b00110,
        };
        let p: u8 = if self.pending {
            1
        } else {
            0
        };
        self.fcr_msb + code * 4 + p * 0x80
    }

    /// Unpacks a raw register byte into its view, rejecting undefined
    /// interrupt source codes.
    pub fn from_byte(b: u8) -> (r: Option<Iir>)
        ensures
            r == Self::from_byte_spec(b),
    {
        let code: u8 = (b / 4) % 0x20;
        let source = if code == 0b00000 {
            Some(InterruptSource::ModemInterrupt)
        } else if code == 0b00001 {
            Some(InterruptSource::ThrInterrupt)
        } else if code == 0b00010 {
            Some(InterruptSource::RhrInterrupt)
        } else if code == 0b00011 {
            Some(InterruptSource::ReceiveLineStatusError)
        } else if code == 0b00110 {
            Some(InterruptSource::ReceiverTimeout)
        } else {
            None
        };
        match source {
            Some(source) => Some(Iir { fcr_msb: b % 4, source, pending: b / 0x80 == 1 }),
            None => None,
        }
    }
}

proof fn lemma_fcr_bits(rx: u8, tx: u8, rtx: u8, rrx: u8, en: u8)
    by (bit_vector)
    requires
        rx < 4,
        tx < 4,
        rtx < 2,
        rrx < 2,
        en < 2,
    ensures
        (rx + tx * 4 + rtx * 0x20 + rrx * 0x40 + en * 0x80) as u8 % 4 == rx,
        ((rx + tx * 4 + rtx * 0x20 + rrx * 0x40 + en * 0x80) as u8 / 4) % 4 == tx,
        ((rx + tx * 4 + rtx * 0x20 + rrx * 0x40 + en * 0x80) as u8 / 0x20) % 2 == rtx,
        ((rx + tx * 4 + rtx * 0x20 + rrx * 0x40 + en * 0x80) as u8 / 0x40) % 2 == rrx,
        (rx + tx * 4 + rtx * 0x20 + rrx * 0x40 + en * 0x80) as u8 / 0x80 == en,
{
}

/// Law: unpacking the packed byte of any FIFO control view recovers every
/// field of the view.
pub proof fn lemma_fifo_control_roundtrip(v: FifoControl)
    ensures
        FifoControl::from_byte_spec(v.to_byte_spec()) == v,
{
    lemma_fcr_bits(
        rx_trigger_bits(v.rx_trigger),
        tx_trigger_bits(v.tx_trigger),
        flag_bit(v.reset_tx),
        flag_bit(v.reset_rx),
        flag_bit(v.enable),
    );
}

proof fn lemma_lcr_bits(dle: u8, brk: u8)
    by (bit_vector)
    requires
        dle < 2,
        brk < 2,
    ensures
        (dle + brk * 2) as u8 % 2 == dle,
        ((dle + brk * 2) as u8 / 2) % 2 == brk,
{
}

/// Law: unpacking the packed byte of any line control view recovers every
/// field of the view.
pub proof fn lemma_line_control_roundtrip(v: LineControl)
    ensures
        LineControl::from_byte_spec(v.to_byte_spec()) == v,
{
    lemma_lcr_bits(flag_bit(v.divisor_latch_enable), flag_bit(v.break_control_bit));
}

proof fn lemma_ier_bits(b0: u8, b1: u8, b2: u8, b3: u8, b4: u8, b5: u8, b6: u8, b7: u8)
    by (bit_vector)
    requires
        b0 < 2,
        b1 < 2,
        b2 < 2,
        b3 < 2,
        b4 < 2,
        b5 < 2,
        b6 < 2,
        b7 < 2,
    ensures
        (b0 + b1 * 2 + b2 * 4 + b3 * 8 + b4 * 0x10 + b5 * 0x20 + b6 * 0x40 + b7 * 0x80) as u8 % 2
            == b0,
        ((b0 + b1 * 2 + b2 * 4 + b3 * 8 + b4 * 0x10 + b5 * 0x20 + b6 * 0x40 + b7 * 0x80) as u8 / 2)
            % 2 == b1,
        ((b0 + b1 * 2 + b2 * 4 + b3 * 8 + b4 * 0x10 + b5 * 0x20 + b6 * 0x40 + b7 * 0x80) as u8 / 4)
            % 2 == b2,
        ((b0 + b1 * 2 + b2 * 4 + b3 * 8 + b4 * 0x10 + b5 * 0x20 + b6 * 0x40 + b7 * 0x80) as u8 / 8)
            % 2 == b3,
        ((b0 + b1 * 2 + b2 * 4 + b3 * 8 + b4 * 0x10 + b5 * 0x20 + b6 * 0x40 + b7 * 0x80) as u8
            / 0x10) % 2 == b4,
        ((b0 + b1 * 2 + b2 * 4 + b3 * 8 + b4 * 0x10 + b5 * 0x20 + b6 * 0x40 + b7 * 0x80) as u8
            / 0x20) % 2 == b5,
        ((b0 + b1 * 2 + b2 * 4 + b3 * 8 + b4 * 0x10 + b5 * 0x20 + b6 * 0x40 + b7 * 0x80) as u8
            / 0x40) % 2 == b6,
        (b0 + b1 * 2 + b2 * 4 + b3 * 8 + b4 * 0x10 + b5 * 0x20 + b6 * 0x40 + b7 * 0x80) as u8
            / 0x80 == b7,
{
}

/// Law: unpacking the packed byte of any interrupt enable view recovers
/// every field of the view.
#[verifier::rlimit(60)]
pub proof fn lemma_ier_roundtrip(v: Ier)
    ensures
        Ier::from_byte_spec(v.to_byte_spec()) == v,
{
    lemma_ier_bits(
        flag_bit(v.cts),
        flag_bit(v.rts),
        flag_bit(v.x_off),
        flag_bit(v.sleep),
        flag_bit(v.modem_status),
        flag_bit(v.receive_line_status),
        flag_bit(v.transmit_holding_register),
        flag_bit(v.receive_holding_register),
    );
}

/// Law: unpacking the packed byte of any modem control view recovers the
/// prescaler selection.
pub proof fn lemma_modem_control_roundtrip(v: ModemControl)
    ensures
        ModemControl::from_byte_spec(v.to_byte_spec()) == v,
{
}

proof fn lemma_iir_bits(e: u8, code: u8, p: u8)
    by (bit_vector)
    requires
        e < 4,
        code < 0x20,
        p < 2,
    ensures
        (e + code * 4 + p * 0x80) as u8 % 4 == e,
        ((e + code * 4 + p * 0x80) as u8 / 4) % 0x20 == code,
        (e + code * 4 + p * 0x80) as u8 / 0x80 == p,
{
}

/// Law: unpacking the packed byte of any well-formed interrupt
/// identification view recovers every field of the view.
pub proof fn lemma_iir_roundtrip(v: Iir)
    requires
        v.wf(),
    ensures
        Iir::from_byte_spec(v.to_byte_spec()) == Some(v),
{
    lemma_iir_bits(v.fcr_msb, source_code(v.source), flag_bit(v.pending));
}

} // verus!
