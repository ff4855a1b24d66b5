//! Verified protocol core of a driver for the SC16IS752 dual-channel
//! SPI-to-UART bridge.
//!
//! The chip is reached over a synchronous serial bus; every register access
//! starts with a single control byte that encodes the channel, the register
//! address and the transfer direction.  This crate contains the pure protocol
//! logic of the driver: the control-byte codec, bit-accurate views of the
//! configuration registers, the baud-rate divisor computation, the ordered
//! initialization sequence, and the FIFO-level-aware planning of stream reads
//! and writes.  An unverified shell performs the actual bus transactions and
//! interrupt waits that the planners here prescribe.

use vstd::prelude::*;

pub mod baud;
pub mod bus;
pub mod codec;
pub mod init;
pub mod regview;
pub mod stream;

verus! {

/// Error surfaced by every driver operation: the bus transport failed.
/// The transport's own error value is carried through unchanged.
#[derive(Debug)]
pub enum Error<SpiErr> {
    Spi(SpiErr),
}

} // verus!
