//! Baud-rate divisor computation.
//!
//! The chip derives its bit clock from the crystal through an optional
//! prescaler (divide by one or by four, selected in the modem control
//! register) and a programmable 16-bit divisor:
//! `divisor = (crystal_freq / prescaler) / (16 * baud_rate)`, truncating.

use vstd::prelude::*;

verus! {

/// The prescaler in force for a raw modem control byte: a chip whose modem
/// control register still reads zero boots with no prescaler division (1);
/// any configured value selects divide-by-four.
pub open spec fn prescaler_spec(mcr: u8) -> u32 {
    if mcr == 0 {
        1
    } else {
        4
    }
}

/// Decides the prescaler factor from the modem control register read-back.
pub fn prescaler_from_mcr(mcr: u8) -> (r: u32)
    ensures
        r == prescaler_spec(mcr),
{
    if mcr == 0 {
        1
    } else {
        4
    }
}

/// The 16-bit baud-rate divisor: the prescaled crystal frequency divided by
/// sixteen times the baud rate, truncated to the low 16 bits.
pub open spec fn divisor_spec(crystal_freq: u32, prescaler: u32, baud_rate: u32) -> u16
    recommends
        prescaler > 0,
        baud_rate > 0,
{
    (((crystal_freq as int / prescaler as int) / (16 * baud_rate as int)) % 0x10000) as u16
}

/// Computes the baud-rate divisor to program into the divisor latch.
pub fn compute_divisor(crystal_freq: u32, prescaler: u32, baud_rate: u32) -> (r: u16)
    requires
        prescaler == 1 || prescaler == 4,
        1 <= baud_rate <= 0x0FFF_FFFF,
    ensures
        r == divisor_spec(crystal_freq, prescaler, baud_rate),
{
    (((crystal_freq / prescaler) / (16 * baud_rate)) % 0x10000) as u16
}

/// Splits a divisor into the (high, low) bytes programmed into the divisor
/// latch registers.
pub fn divisor_bytes(divisor: u16) -> (r: (u8, u8))
    ensures
        r.0 == divisor / 256,
        r.1 == divisor % 256,
{
    ((divisor / 256) as u8, (divisor % 256) as u8)
}

} // verus!
