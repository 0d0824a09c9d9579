//! The pair of daisy-chained VIC banks.
//!
//! Interrupt sources with a global index below 32 live in bank 1, the rest
//! in bank 2. The manager exposes one flat window: offsets below `0x10000`
//! reach bank 1, the rest bank 2 — except `VectAddr` (`0x30`), where the
//! daisy chain decides: bank 1's vector if bank 1 has a pending IRQ, else
//! bank 2's, else bank 1's default vector address.

use vstd::prelude::*;

use crate::device::{Device, Probe};
use crate::exception::{res_matches, MemException, MemExceptionKind, MemResult};
use crate::interrupts::Interrupt;
use crate::memory::Memory;
use crate::vic::{vic_ident, w32_rel, Vic};

verus! {

/// The two VIC banks of the EP9302 and their daisy-chain logic.
pub struct VicManager {
    /// Bank 1: interrupt sources 0..31.
    pub vic1: Vic,
    /// Bank 2: interrupt sources 32..63.
    pub vic2: Vic,
}

impl VicManager {
    /// Both banks well-formed.
    pub open spec fn wf(&self) -> bool {
        self.vic1.wf() && self.vic2.wf()
    }

    /// What the daisy-chained `VectAddr` read at the manager window returns:
    /// bank 1's vector address if bank 1 has a pending IRQ, else bank 2's if
    /// bank 2 has, else bank 1's default vector address.
    pub open spec fn vect_addr_spec(self) -> u32 {
        if self.vic1.irq_spec() {
            self.vic1.isr_address_spec()
        } else if self.vic2.irq_spec() {
            self.vic2.isr_address_spec()
        } else {
            self.vic1.default_isr
        }
    }

    /// Create a new manager with two freshly cleared banks.
    pub fn new() -> (r: VicManager)
        ensures
            r.wf(),
            r.vic1.label@ == "vic1"@ && r.vic2.label@ == "vic2"@,
            r.vic1.status == 0 && r.vic1.enabled == 0 && r.vic1.select == 0
                && r.vic1.software_status == 0 && r.vic1.default_isr == 0,
            r.vic2.status == 0 && r.vic2.enabled == 0 && r.vic2.select == 0
                && r.vic2.software_status == 0 && r.vic2.default_isr == 0,
            forall|i: int| 0 <= i < 16 ==> !r.vic1.vector_entries@[i].enabled,
            forall|i: int| 0 <= i < 16 ==> !r.vic2.vector_entries@[i].enabled,
    {
        VicManager { vic1: Vic::new("vic1"), vic2: Vic::new("vic2") }
    }

    /// Check if an FIQ should be requested.
    pub fn fiq(&self) -> (r: bool)
        ensures
            r == (self.vic1.fiq_spec() || self.vic2.fiq_spec()),
    {
        self.vic1.fiq() || self.vic2.fiq()
    }

    /// Check if an IRQ should be requested.
    pub fn irq(&self) -> (r: bool)
        ensures
            r == (self.vic1.irq_spec() || self.vic2.irq_spec()),
    {
        self.vic1.irq() || self.vic2.irq()
    }

    /// Request an interrupt from a hardware source.
    pub fn assert_interrupt(&mut self, intr: Interrupt)
        ensures
            intr.spec_bank() == 1 ==> *final(self) == (VicManager {
                vic1: Vic {
                    status: old(self).vic1.status | (1u32 << intr.spec_index() as u32),
                    ..old(self).vic1
                },
                ..*old(self)
            }),
            intr.spec_bank() == 2 ==> *final(self) == (VicManager {
                vic2: Vic {
                    status: old(self).vic2.status | (1u32 << intr.spec_index() as u32),
                    ..old(self).vic2
                },
                ..*old(self)
            }),
    {
        if intr.bank() == 1 {
            self.vic1.assert_interrupt(intr.index());
        } else {
            self.vic2.assert_interrupt(intr.index());
        }
    }

    /// Clear an interrupt from a hardware source.
    pub fn clear_interrupt(&mut self, intr: Interrupt)
        ensures
            intr.spec_bank() == 1 ==> *final(self) == (VicManager {
                vic1: Vic {
                    status: old(self).vic1.status & !(1u32 << intr.spec_index() as u32),
                    ..old(self).vic1
                },
                ..*old(self)
            }),
            intr.spec_bank() == 2 ==> *final(self) == (VicManager {
                vic2: Vic {
                    status: old(self).vic2.status & !(1u32 << intr.spec_index() as u32),
                    ..old(self).vic2
                },
                ..*old(self)
            }),
    {
        if intr.bank() == 1 {
            self.vic1.clear_interrupt(intr.index());
        } else {
            self.vic2.clear_interrupt(intr.index());
        }
    }
}

/// The full effect of a 32-bit read on the manager window: `post` is the
/// state it leaves, `r` its result.
pub open spec fn vm_r32_rel(pre: VicManager, post: VicManager, offset: u32, r: MemResult<u32>) -> bool {
    &&& (offset == 0x30 ==> post == pre && (r matches Ok(v) && v == pre.vect_addr_spec()))
    &&& (offset != 0x30 && offset < 0x10000 ==> ({
        let (v1, abs) = pre.vic1.read32_abs(offset);
        post == (VicManager { vic1: v1, ..pre }) && res_matches(r, abs, offset, vic_ident(pre.vic1.label))
    }))
    &&& (offset >= 0x10000 ==> ({
        let (v2, abs) = pre.vic2.read32_abs((offset - 0x10000) as u32);
        post == (VicManager { vic2: v2, ..pre }) && res_matches(r, abs, (offset - 0x10000) as u32, vic_ident(pre.vic2.label))
    }))
}

/// The full effect of a 32-bit write on the manager window.
pub open spec fn vm_w32_rel(pre: VicManager, post: VicManager, offset: u32, val: u32, r: MemResult<()>) -> bool {
    &&& (offset < 0x10000 ==> w32_rel(pre.vic1, post.vic1, offset, val, r) && post.vic2 == pre.vic2)
    &&& (offset >= 0x10000 ==> w32_rel(pre.vic2, post.vic2, (offset - 0x10000) as u32, val, r) && post.vic1 == pre.vic1)
}

impl Device for VicManager {
    fn kind(&self) -> (r: &'static str)
        ensures
            r@ == "VicManager"@,
    {
        "VicManager"
    }

    /// Probe by recursive descent: name the bank that owns the offset and let
    /// it name its register.
    fn probe(&self, offset: u32) -> (r: Probe)
        ensures
            offset < 0x10000 ==> (r matches Probe::Device { kind, label, next } && kind@
                == "VIC"@ && label == Some(self.vic1.label) && (crate::vic::vic_reg_name(offset)
                matches Some(n) ==> (*next matches Probe::Register(s) && s@ == n)) && (
            crate::vic::vic_reg_name(offset) is None ==> *next is Unmapped)),
            offset >= 0x10000 ==> (r matches Probe::Device { kind, label, next } && kind@
                == "VIC"@ && label == Some(self.vic2.label) && (crate::vic::vic_reg_name(
                (offset - 0x10000) as u32,
            ) matches Some(n) ==> (*next matches Probe::Register(s) && s@ == n)) && (
            crate::vic::vic_reg_name((offset - 0x10000) as u32) is None ==> *next is Unmapped)),
    {
        if offset < 0x10000 {
            Probe::Device {
                kind: self.vic1.kind(),
                label: self.vic1.label(),
                next: Box::new(self.vic1.probe(offset)),
            }
        } else {
            Probe::Device {
                kind: self.vic2.kind(),
                label: self.vic2.label(),
                next: Box::new(self.vic2.probe(offset - 0x10000)),
            }
        }
    }
}

impl Memory for VicManager {
    open spec fn inv(&self) -> bool {
        self.wf()
    }

    fn r32(&mut self, offset: u32) -> (r: MemResult<u32>)
        ensures
            vm_r32_rel(*old(self), *final(self), offset, r),
    {
        if offset == 0x30 {
            // daisy chain the VectAddr register
            if self.vic1.irq() {
                self.vic1.r32(0x30)
            } else if self.vic2.irq() {
                self.vic2.r32(0x30)
            } else {
                // neither bank has a pending IRQ: bank 1's default vector
                self.vic1.r32(0x34)
            }
        } else {
            if offset < 0x10000 {
                self.vic1.r32(offset)
            } else {
                self.vic2.r32(offset - 0x10000)
            }
        }
    }

    fn w32(&mut self, offset: u32, val: u32) -> (r: MemResult<()>)
        ensures
            vm_w32_rel(*old(self), *final(self), offset, val, r),
    {
        if offset < 0x10000 {
            self.vic1.w32(offset, val)
        } else {
            self.vic2.w32(offset - 0x10000, val)
        }
    }

    fn r8(&mut self, offset: u32) -> (r: MemResult<u8>)
        ensures
            offset % 4 != 0 ==> *final(self) == *old(self) && res_matches(
                crate::exception::widen_res8(r),
                Err::<u32, _>(MemExceptionKind::Misaligned),
                offset,
                "VicManager"@,
            ),
    {
        if offset % 4 != 0 {
            return Err(
                MemException::new(
                    String::from_str("VicManager"),
                    offset,
                    MemExceptionKind::Misaligned,
                ),
            );
        }
        match self.r32(offset) {
            Ok(v) => Ok((v % 0x100) as u8),
            Err(e) => Err(e),
        }
    }

    fn r16(&mut self, offset: u32) -> (r: MemResult<u16>)
        ensures
            offset % 4 != 0 ==> *final(self) == *old(self) && res_matches(
                crate::exception::widen_res16(r),
                Err::<u32, _>(MemExceptionKind::Misaligned),
                offset,
                "VicManager"@,
            ),
    {
        if offset % 4 != 0 {
            return Err(
                MemException::new(
                    String::from_str("VicManager"),
                    offset,
                    MemExceptionKind::Misaligned,
                ),
            );
        }
        match self.r32(offset) {
            Ok(v) => Ok((v % 0x1_0000) as u16),
            Err(e) => Err(e),
        }
    }

    fn w8(&mut self, offset: u32, val: u8) -> (r: MemResult<()>)
        ensures
            offset % 4 != 0 ==> *final(self) == *old(self) && res_matches(
                r,
                Err::<(), _>(MemExceptionKind::Misaligned),
                offset,
                "VicManager"@,
            ),
            offset % 4 == 0 ==> vm_w32_rel(*old(self), *final(self), offset, val as u32, r),
    {
        if offset % 4 != 0 {
            return Err(
                MemException::new(
                    String::from_str("VicManager"),
                    offset,
                    MemExceptionKind::Misaligned,
                ),
            );
        }
        self.w32(offset, val as u32)
    }

    fn w16(&mut self, offset: u32, val: u16) -> (r: MemResult<()>)
        ensures
            offset % 4 != 0 ==> *final(self) == *old(self) && res_matches(
                r,
                Err::<(), _>(MemExceptionKind::Misaligned),
                offset,
                "VicManager"@,
            ),
            offset % 4 == 0 ==> vm_w32_rel(*old(self), *final(self), offset, val as u32, r),
    {
        if offset % 4 != 0 {
            return Err(
                MemException::new(
                    String::from_str("VicManager"),
                    offset,
                    MemExceptionKind::Misaligned,
                ),
            );
        }
        self.w32(offset, val as u32)
    }
}

/// Daisy chain: a manager-level `VectAddr` read returns bank 1's vector
/// address exactly when bank 1 has a pending IRQ; else bank 2's exactly when
/// bank 2 has; else bank 1's default vector address.
pub proof fn lemma_vicmanager_daisy_chain(m: VicManager)
    ensures
        m.vic1.irq_spec() ==> m.vect_addr_spec() == m.vic1.isr_address_spec(),
        !m.vic1.irq_spec() && m.vic2.irq_spec() ==> m.vect_addr_spec()
            == m.vic2.isr_address_spec(),
        !m.vic1.irq_spec() && !m.vic2.irq_spec() ==> m.vect_addr_spec() == m.vic1.default_isr,
{
}

} // verus!
