//! TS-7200 VIC interrupt sources.
//!
//! Each source has a fixed global index; sources with index below 32 live in
//! VIC bank 1, the rest in bank 2, at the bit given by the index modulo 32.

use vstd::prelude::*;

verus! {

/// TS-7200 VIC interrupt sources, as enumerated in the EP93xx user's guide.
#[derive(Clone, Copy, Debug, PartialEq, Eq, Structural)]
pub enum Interrupt {
    Tc1Ui,
    Tc2Ui,
    Uart1RxIntr1,
    Uart1TxIntr1,
    Uart2RxIntr2,
    Uart2TxIntr2,
    Uart3RxIntr3,
    Uart3TxIntr3,
    Tc3Ui,
    IntUart1,
    IntUart2,
    IntUart3,
}

impl Interrupt {
    /// The source's index in the flat 64-entry interrupt table.
    pub open spec fn spec_overall_index(self) -> u8 {
        match self {
            Interrupt::Tc1Ui => 4,
            Interrupt::Tc2Ui => 5,
            Interrupt::Uart1RxIntr1 => 23,
            Interrupt::Uart1TxIntr1 => 24,
            Interrupt::Uart2RxIntr2 => 25,
            Interrupt::Uart2TxIntr2 => 26,
            Interrupt::Uart3RxIntr3 => 27,
            Interrupt::Uart3TxIntr3 => 28,
            Interrupt::Tc3Ui => 51,
            Interrupt::IntUart1 => 52,
            Interrupt::IntUart2 => 54,
            Interrupt::IntUart3 => 55,
        }
    }

    /// The VIC bank that hosts this source: 1 for global indices below 32,
    /// else 2.
    pub open spec fn spec_bank(self) -> u8 {
        if self.spec_overall_index() < 32 {
            1
        } else {
            2
        }
    }

    /// The bit position of this source within its bank.
    pub open spec fn spec_index(self) -> u8 {
        if self.spec_overall_index() < 32 {
            self.spec_overall_index()
        } else {
            (self.spec_overall_index() - 32) as u8
        }
    }

    /// The source's index in the flat 64-entry interrupt table.
    pub fn overall_index(self) -> (r: u8)
        ensures
            r == self.spec_overall_index(),
    {
        match self {
            Interrupt::Tc1Ui => 4,
            Interrupt::Tc2Ui => 5,
            Interrupt::Uart1RxIntr1 => 23,
            Interrupt::Uart1TxIntr1 => 24,
            Interrupt::Uart2RxIntr2 => 25,
            Interrupt::Uart2TxIntr2 => 26,
            Interrupt::Uart3RxIntr3 => 27,
            Interrupt::Uart3TxIntr3 => 28,
            Interrupt::Tc3Ui => 51,
            Interrupt::IntUart1 => 52,
            Interrupt::IntUart2 => 54,
            Interrupt::IntUart3 => 55,
        }
    }

    /// Get the VIC bank associated with the interrupt.
    pub fn bank(self) -> (r: u8)
        ensures
            r == self.spec_bank(),
    {
        if self.overall_index() < 32 {
            1
        } else {
            2
        }
    }

    /// Return the interrupt's bit index within its VIC bank.
    pub fn index(self) -> (r: u8)
        ensures
            r == self.spec_index(),
            r < 32,
    {
        let oi = self.overall_index();
        if oi < 32 {
            oi
        } else {
            oi - 32
        }
    }
}

} // verus!
