//! Initialization protocol.
//!
//! Bringing a channel up is a strictly ordered register sequence: enable and
//! reset the FIFOs, enter divisor-latch mode, read the modem control
//! register to learn the prescaler, program the two divisor bytes while the
//! latch is still enabled, then leave latch mode with the fixed 8-N-1 word
//! format.  [`InitMachine`] is that sequence as a step machine: each phase
//! names one bus transaction, and advancing with the transaction's outcome
//! yields the next phase.  The unverified shell only performs the
//! transactions and feeds back the bytes it read.

use vstd::prelude::*;

use crate::baud::{compute_divisor, divisor_spec, prescaler_from_mcr, prescaler_spec};
use crate::bus::{
    is_fifo_enable_write, is_level_read, read_frame, read_frame_spec, write_frame,
    write_frame_spec, BusOp, BusOpModel,
};
use crate::codec::{control_byte_spec, Channel, Direction, DLH, DLL, FCR, LCR, MCR, RXLVL, TXLVL};
use crate::regview::{lemma_fifo_control_roundtrip, FifoControl, RxFifoTrigger, TxFifoTrigger};

verus! {

/// The FIFO control value the initialization sequence writes first: FIFOs
/// enabled and both FIFOs reset, triggers at their boot defaults.
pub open spec fn init_fcr() -> FifoControl {
    FifoControl {
        rx_trigger: RxFifoTrigger::_8,
        tx_trigger: TxFifoTrigger::_8,
        reset_tx: true,
        reset_rx: true,
        enable: true,
    }
}

/// The line control byte that ends initialization: divisor latch disabled,
/// 8 data bits, no parity, one stop bit.
pub const LCR_WORD_8N1: u8 = 0x03;

/// One phase of the initialization sequence; each phase before `Done` names
/// exactly one bus transaction.
#[derive(Clone, Copy, Debug, PartialEq, Eq, Structural)]
pub enum InitPhase {
    /// Write the FIFO control register: reset both FIFOs and enable them.
    WriteFcr,
    /// Read the current line control register.
    ReadLcr,
    /// Write the line control register back with the divisor latch enabled.
    WriteLcrLatch { lcr: u8 },
    /// Read the modem control register to learn the prescaler.
    ReadMcr,
    /// Write the low divisor byte while the latch is enabled.
    WriteDll { divisor: u16 },
    /// Write the high divisor byte while the latch is enabled.
    WriteDlh { divisor: u16 },
    /// Leave divisor-latch mode and fix the 8-N-1 word format.
    WriteLcrFinal,
    /// The channel is configured for stream traffic.
    Done,
}

/// The initialization sequence for one channel as a step machine.
#[derive(Clone, Copy, Debug, PartialEq, Eq, Structural)]
pub struct InitMachine {
    pub channel: Channel,
    pub baud_rate: u32,
    pub crystal_freq: u32,
    pub phase: InitPhase,
}

/// The byte a read transaction handed back, or zero for a write.
pub open spec fn resp_byte(response: Option<u8>) -> u8 {
    match response {
        Some(b) => b,
        None => 0,
    }
}

impl InitMachine {
    /// The baud rate must be positive and small enough that sixteen times it
    /// fits the divisor arithmetic.
    pub open spec fn wf(self) -> bool {
        1 <= self.baud_rate <= 0x0FFF_FFFF
    }

    /// Whether the current phase's transaction is a read, so that advancing
    /// needs the byte it returned.
    pub open spec fn expects_response_spec(self) -> bool {
        self.phase is ReadLcr || self.phase is ReadMcr
    }

    /// The bus transaction of the current phase, `None` once done.
    pub open spec fn step_op_spec(self) -> Option<BusOpModel> {
        match self.phase {
            InitPhase::WriteFcr => Some(
                BusOpModel::Write(write_frame_spec(FCR, self.channel, init_fcr().to_byte_spec())),
            ),
            InitPhase::ReadLcr => Some(BusOpModel::Exchange(read_frame_spec(LCR, self.channel))),
            InitPhase::WriteLcrLatch { lcr } => Some(
                BusOpModel::Write(write_frame_spec(LCR, self.channel, lcr | 0x80)),
            ),
            InitPhase::ReadMcr => Some(BusOpModel::Exchange(read_frame_spec(MCR, self.channel))),
            InitPhase::WriteDll { divisor } => Some(
                BusOpModel::Write(write_frame_spec(DLL, self.channel, (divisor % 256) as u8)),
            ),
            InitPhase::WriteDlh { divisor } => Some(
                BusOpModel::Write(write_frame_spec(DLH, self.channel, (divisor / 256) as u8)),
            ),
            InitPhase::WriteLcrFinal => Some(
                BusOpModel::Write(write_frame_spec(LCR, self.channel, LCR_WORD_8N1)),
            ),
            InitPhase::Done => None,
        }
    }

    /// The machine after the current phase's transaction completed with
    /// `response` (the byte read back, for the two read phases).
    pub open spec fn step_next_spec(self, response: Option<u8>) -> InitMachine {
        let phase = match self.phase {
            InitPhase::WriteFcr => InitPhase::ReadLcr,
            InitPhase::ReadLcr => InitPhase::WriteLcrLatch { lcr: resp_byte(response) },
            InitPhase::WriteLcrLatch { .. } => InitPhase::ReadMcr,
            InitPhase::ReadMcr => InitPhase::WriteDll {
                divisor: divisor_spec(
                    self.crystal_freq,
                    prescaler_spec(resp_byte(response)),
                    self.baud_rate,
                ),
            },
            InitPhase::WriteDll { divisor } => InitPhase::WriteDlh { divisor },
            InitPhase::WriteDlh { .. } => InitPhase::WriteLcrFinal,
            InitPhase::WriteLcrFinal => InitPhase::Done,
            InitPhase::Done => InitPhase::Done,
        };
        InitMachine { phase, ..self }
    }

    /// Starts the initialization sequence for one channel.
    pub fn new(channel: Channel, baud_rate: u32, crystal_freq: u32) -> (r: InitMachine)
        requires
            1 <= baud_rate <= 0x0FFF_FFFF,
        ensures
            r == (InitMachine { channel, baud_rate, crystal_freq, phase: InitPhase::WriteFcr }),
            r.wf(),
    {
        InitMachine { channel, baud_rate, crystal_freq, phase: InitPhase::WriteFcr }
    }

    /// Whether the current phase's transaction is a read.
    pub fn expects_response(&self) -> (r: bool)
        ensures
            r == self.expects_response_spec(),
    {
        match self.phase {
            InitPhase::ReadLcr => true,
            InitPhase::ReadMcr => true,
            _ => false,
        }
    }

    /// Whether the sequence has finished.
    pub fn is_done(&self) -> (r: bool)
        ensures
            r == (self.phase is Done),
    {
        match self.phase {
            InitPhase::Done => true,
            _ => false,
        }
    }

    /// The bus transaction to perform in the current phase, `None` once the
    /// sequence has finished.
    pub fn current_op(&self) -> (r: Option<BusOp>)
        ensures
            match r {
                Some(op) => self.step_op_spec() == Some(op@),
                None => self.step_op_spec() is None,
            },
    {
        match self.phase {
            InitPhase::WriteFcr => {
                let fcr = FifoControl::new().with_enable(true).with_reset_tx(true).with_reset_rx(
                    true,
                );
                Some(BusOp::Write(write_frame(FCR, self.channel, fcr.to_byte())))
            },
            InitPhase::ReadLcr => Some(BusOp::Exchange(read_frame(LCR, self.channel))),
            InitPhase::WriteLcrLatch { lcr } => Some(
                BusOp::Write(write_frame(LCR, self.channel, lcr | 0x80)),
            ),
            InitPhase::ReadMcr => Some(BusOp::Exchange(read_frame(MCR, self.channel))),
            InitPhase::WriteDll { divisor } => Some(
                BusOp::Write(write_frame(DLL, self.channel, (divisor % 256) as u8)),
            ),
            InitPhase::WriteDlh { divisor } => Some(
                BusOp::Write(write_frame(DLH, self.channel, (divisor / 256) as u8)),
            ),
            InitPhase::WriteLcrFinal => Some(
                BusOp::Write(write_frame(LCR, self.channel, LCR_WORD_8N1)),
            ),
            InitPhase::Done => None,
        }
    }

    /// Advances past the current phase once its transaction completed;
    /// `response` carries the byte a read handed back.
    pub fn advance(self, response: Option<u8>) -> (r: InitMachine)
        requires
            self.wf(),
            self.expects_response_spec() <==> response is Some,
        ensures
            r == self.step_next_spec(response),
            r.wf(),
    {
        let phase = match self.phase {
            InitPhase::WriteFcr => InitPhase::ReadLcr,
            InitPhase::ReadLcr => InitPhase::WriteLcrLatch { lcr: response.unwrap() },
            InitPhase::WriteLcrLatch { .. } => InitPhase::ReadMcr,
            InitPhase::ReadMcr => {
                let prescaler = prescaler_from_mcr(response.unwrap());
                InitPhase::WriteDll {
                    divisor: compute_divisor(self.crystal_freq, prescaler, self.baud_rate),
                }
            },
            InitPhase::WriteDll { divisor } => InitPhase::WriteDlh { divisor },
            InitPhase::WriteDlh { .. } => InitPhase::WriteLcrFinal,
            InitPhase::WriteLcrFinal => InitPhase::Done,
            InitPhase::Done => InitPhase::Done,
        };
        InitMachine { phase, ..self }
    }
}

/// The full initialization transaction sequence for one channel, given the
/// bytes the two reads return: `lcr` from the line control read and `mcr`
/// from the modem control read.
pub open spec fn init_trace_spec(
    c: Channel,
    baud_rate: u32,
    crystal_freq: u32,
    lcr: u8,
    mcr: u8,
) -> Seq<BusOpModel> {
    let divisor = divisor_spec(crystal_freq, prescaler_spec(mcr), baud_rate);
    seq![
        BusOpModel::Write(write_frame_spec(FCR, c, init_fcr().to_byte_spec())),
        BusOpModel::Exchange(read_frame_spec(LCR, c)),
        BusOpModel::Write(write_frame_spec(LCR, c, lcr | 0x80)),
        BusOpModel::Exchange(read_frame_spec(MCR, c)),
        BusOpModel::Write(write_frame_spec(DLL, c, (divisor % 256) as u8)),
        BusOpModel::Write(write_frame_spec(DLH, c, (divisor / 256) as u8)),
        BusOpModel::Write(write_frame_spec(LCR, c, LCR_WORD_8N1)),
    ]
}

/// Law: a machine started for a channel and advanced through every phase,
/// with the line control read returning `lcr` and the modem control read
/// returning `mcr`, performs exactly the transactions of
/// [`init_trace_spec`], in order, and then reports itself done.
pub proof fn lemma_init_run_emits_trace(
    c: Channel,
    baud_rate: u32,
    crystal_freq: u32,
    lcr: u8,
    mcr: u8,
)
    requires
        1 <= baud_rate <= 0x0FFF_FFFF,
    ensures
        ({
            let trace = init_trace_spec(c, baud_rate, crystal_freq, lcr, mcr);
            let m0 = InitMachine { channel: c, baud_rate, crystal_freq, phase: InitPhase::WriteFcr };
            let m1 = m0.step_next_spec(None);
            let m2 = m1.step_next_spec(Some(lcr));
            let m3 = m2.step_next_spec(None);
            let m4 = m3.step_next_spec(Some(mcr));
            let m5 = m4.step_next_spec(None);
            let m6 = m5.step_next_spec(None);
            let m7 = m6.step_next_spec(None);
            &&& trace.len() == 7
            &&& m0.step_op_spec() == Some(trace[0])
            &&& m1.step_op_spec() == Some(trace[1])
            &&& m2.step_op_spec() == Some(trace[2])
            &&& m3.step_op_spec() == Some(trace[3])
            &&& m4.step_op_spec() == Some(trace[4])
            &&& m5.step_op_spec() == Some(trace[5])
            &&& m6.step_op_spec() == Some(trace[6])
            &&& m7.phase is Done
            &&& m7.step_op_spec() is None
        }),
{
}

/// Law: in a session trace — the initialization sequence followed by any
/// stream transactions — the FIFO-enable write is the very first
/// transaction, the initialization sequence itself never reads a FIFO level
/// register, and hence every level-register read of the session comes
/// strictly after the FIFO-enable write.
pub proof fn lemma_fifo_enable_precedes_level_reads(
    c: Channel,
    baud_rate: u32,
    crystal_freq: u32,
    lcr: u8,
    mcr: u8,
    tail: Seq<BusOpModel>,
)
    ensures
        ({
            let init = init_trace_spec(c, baud_rate, crystal_freq, lcr, mcr);
            let trace = init + tail;
            &&& is_fifo_enable_write(trace[0], c)
            &&& forall|i: int| 0 <= i < init.len() ==> !is_level_read(#[trigger] trace[i], c)
            &&& forall|i: int|
                0 <= i < trace.len() && #[trigger] is_level_read(trace[i], c) ==> 0 < i
        }),
{
    let init = init_trace_spec(c, baud_rate, crystal_freq, lcr, mcr);
    let trace = init + tail;
    lemma_fifo_control_roundtrip(init_fcr());
    assert(trace[0] == init[0]);
    assert(is_fifo_enable_write(trace[0], c));
    assert forall|i: int| 0 <= i < init.len() implies !is_level_read(#[trigger] trace[i], c) by {
        assert(trace[i] == init[i]);
        if i == 1 {
            assert(control_byte_spec(c, LCR, Direction::Read) != control_byte_spec(
                c,
                TXLVL,
                Direction::Read,
            ));
            assert(control_byte_spec(c, LCR, Direction::Read) != control_byte_spec(
                c,
                RXLVL,
                Direction::Read,
            ));
        } else if i == 3 {
            assert(control_byte_spec(c, MCR, Direction::Read) != control_byte_spec(
                c,
                TXLVL,
                Direction::Read,
            ));
            assert(control_byte_spec(c, MCR, Direction::Read) != control_byte_spec(
                c,
                RXLVL,
                Direction::Read,
            ));
        }
    }
}

} // verus!
