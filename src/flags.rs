//! Bits of the 6502 status register P.
use vstd::prelude::*;

verus! {

/// C: carry out of the ALU.
pub const FLAG_CARRY: u8 = 0x01;

/// Z: the result was zero.
pub const FLAG_ZERO: u8 = 0x02;

/// I: maskable interrupts are off.
pub const FLAG_INTERRUPT_DISABLE: u8 = 0x04;

/// D: decimal mode; stored, but the 2A03 has no decimal arithmetic.
pub const FLAG_DECIMAL: u8 = 0x08;

/// B: set in the copy of P that BRK and PHP push.
pub const FLAG_BREAK: u8 = 0x10;

/// U: always set when P is pushed.
pub const FLAG_UNUSED: u8 = 0x20;

/// V: signed overflow.
pub const FLAG_OVERFLOW: u8 = 0x40;

/// N: bit 7 of the result.
pub const FLAG_NEGATIVE: u8 = 0x80;

} // verus!
