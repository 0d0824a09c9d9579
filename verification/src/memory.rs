//! The memory interface shared by every device on the bus.
//!
//! Each device exposes 32-bit reads and writes over its register window, and
//! 8/16-bit variants. Register-file devices reject accesses at offsets that
//! are not word-aligned with [`MemExceptionKind::Misaligned`] and otherwise
//! forward to the 32-bit access, truncating; byte-addressed memory (RAM)
//! implements the narrow widths natively.

use vstd::prelude::*;

use crate::exception::MemResult;

verus! {

/// Common memory trait used throughout the emulator.
///
/// The trait itself fixes no behavior: every implementation states its own
/// exact contract, and calls resolve to those statically.
pub trait Memory {
    /// The device's internal well-formedness condition, established by its
    /// constructor and preserved by every access.
    spec fn inv(&self) -> bool;

    /// Read a 32 bit value at a given offset.
    fn r32(&mut self, offset: u32) -> (r: MemResult<u32>)
        requires
            old(self).inv(),
        ensures
            final(self).inv(),
    ;

    /// Write a 32 bit value to the given offset.
    fn w32(&mut self, offset: u32, val: u32) -> (r: MemResult<()>)
        requires
            old(self).inv(),
        ensures
            final(self).inv(),
    ;

    /// Read a 8 bit value at a given offset.
    fn r8(&mut self, offset: u32) -> (r: MemResult<u8>)
        requires
            old(self).inv(),
        ensures
            final(self).inv(),
    ;

    /// Read a 16 bit value at a given offset.
    fn r16(&mut self, offset: u32) -> (r: MemResult<u16>)
        requires
            old(self).inv(),
        ensures
            final(self).inv(),
    ;

    /// Write a 8 bit value to the given offset.
    fn w8(&mut self, offset: u32, val: u8) -> (r: MemResult<()>)
        requires
            old(self).inv(),
        ensures
            final(self).inv(),
    ;

    /// Write a 16 bit value to the given offset.
    fn w16(&mut self, offset: u32, val: u16) -> (r: MemResult<()>)
        requires
            old(self).inv(),
        ensures
            final(self).inv(),
    ;
}

/// The low byte of a 32-bit value.
pub open spec fn byte0(val: u32) -> u8 {
    (val % 0x100) as u8
}

/// The second-lowest byte of a 32-bit value.
pub open spec fn byte1(val: u32) -> u8 {
    ((val / 0x100) % 0x100) as u8
}

/// The third byte of a 32-bit value.
pub open spec fn byte2(val: u32) -> u8 {
    ((val / 0x1_0000) % 0x100) as u8
}

/// The high byte of a 32-bit value.
pub open spec fn byte3(val: u32) -> u8 {
    ((val / 0x100_0000) % 0x100) as u8
}

} // verus!
