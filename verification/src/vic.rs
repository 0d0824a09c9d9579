//! Vectored interrupt controller: one 32-source bank.
//!
//! A bank tracks hardware-asserted sources (`status`), software-asserted
//! sources (`software_status`), an enable mask, and a per-source FIQ/IRQ
//! selection. Sixteen vector entries map sources to ISR addresses; a read of
//! `VectAddr` returns the ISR address of the lowest-index enabled entry whose
//! source has a pending IRQ, falling back to `default_isr`.

use vstd::prelude::*;
use vstd::string::StringExecFns;

use crate::device::{Device, Probe};
use crate::exception::{res_matches, MemException, MemExceptionKind, MemResult};
use crate::memory::Memory;

verus! {

/// One vectored-interrupt slot: a source index, the address of its service
/// routine, and whether the slot takes part in vectored dispatch.
#[derive(Clone, Copy, Debug, PartialEq, Eq, Structural)]
pub struct VectorEntry {
    /// Interrupt source this vector serves (0..31).
    pub source: u8,
    /// Address of the interrupt service routine.
    pub isr_addr: u32,
    /// Whether this vector entry participates in dispatch.
    pub enabled: bool,
}

/// VIC module: one bank of 32 interrupt sources.
pub struct Vic {
    /// Instance tag (`vic1` or `vic2`).
    pub label: &'static str,
    /// Interrupts currently hardware-asserted.
    pub status: u32,
    /// Enabled interrupts.
    pub enabled: u32,
    /// FIQ-mode interrupts.
    pub select: u32,
    /// Software-asserted interrupts.
    pub software_status: u32,
    /// ISR address returned when no vector entry matches.
    pub default_isr: u32,
    /// The sixteen vector entries.
    pub vector_entries: Vec<VectorEntry>,
}

/// The identifier a VIC bank stamps on its faults.
pub open spec fn vic_ident(label: &'static str) -> Seq<char> {
    "VIC"@ + ":"@ + label@
}

/// The ISR address of the first (lowest-index) entry from position `i` on
/// that is enabled and whose source bit is set in `irqs`.
pub open spec fn find_isr(entries: Seq<VectorEntry>, irqs: u32, i: int) -> Option<u32>
    decreases entries.len() - i,
{
    if i < 0 || i >= entries.len() {
        None
    } else if entries[i].enabled && irqs & (1u32 << entries[i].source as u32) != 0 {
        Some(entries[i].isr_addr)
    } else {
        find_isr(entries, irqs, i + 1)
    }
}

/// The name of the VIC register at `offset`, if one is mapped there.
pub open spec fn vic_reg_name(offset: u32) -> Option<Seq<char>> {
    if offset == 0x00 {
        Some("IRQStatus"@)
    } else if offset == 0x04 {
        Some("FIQStatus"@)
    } else if offset == 0x08 {
        Some("RawIntr"@)
    } else if offset == 0x0c {
        Some("IntSelect"@)
    } else if offset == 0x10 {
        Some("IntEnable"@)
    } else if offset == 0x14 {
        Some("IntEnClear"@)
    } else if offset == 0x18 {
        Some("SoftInt"@)
    } else if offset == 0x1c {
        Some("SoftIntClear"@)
    } else if offset == 0x20 {
        Some("Protection"@)
    } else if offset == 0x30 {
        Some("VectAddr"@)
    } else if offset == 0x34 {
        Some("DefVectAddr"@)
    } else if 0x100 <= offset <= 0x13c {
        Some("VectAddrN"@)
    } else if 0x200 <= offset <= 0x23c {
        Some("VectCntlN"@)
    } else if offset == 0xfe0 {
        Some("PeriphID0"@)
    } else if offset == 0xfe4 {
        Some("PeriphID1"@)
    } else if offset == 0xfe8 {
        Some("PeriphID2"@)
    } else if offset == 0xfec {
        Some("PeriphID3"@)
    } else {
        None
    }
}

impl Vic {
    /// Well-formedness: sixteen vector entries, each source below 32.
    pub open spec fn wf(&self) -> bool {
        self.vector_entries@.len() == 16 && forall|i: int|
            0 <= i < 16 ==> self.vector_entries@[i].source < 32
    }

    /// All pending sources: hardware- or software-asserted.
    pub open spec fn rawstatus_spec(self) -> u32 {
        self.software_status | self.status
    }

    /// Pending sources that are also enabled.
    pub open spec fn active_spec(self) -> u32 {
        self.rawstatus_spec() & self.enabled
    }

    /// Whether the bank requests a normal interrupt.
    pub open spec fn irq_spec(self) -> bool {
        self.active_spec() & !self.select != 0
    }

    /// Whether the bank requests a fast interrupt.
    pub open spec fn fiq_spec(self) -> bool {
        self.active_spec() & self.select != 0
    }

    /// What a `VectAddr` read returns: `default_isr` when a FIQ is pending or
    /// no IRQ is, else the lowest-index matching vector entry's ISR address,
    /// else `default_isr`.
    pub open spec fn isr_address_spec(self) -> u32 {
        if self.fiq_spec() || !self.irq_spec() {
            self.default_isr
        } else {
            match find_isr(self.vector_entries@, self.active_spec() & !self.select, 0) {
                Some(a) => a,
                None => self.default_isr,
            }
        }
    }

    /// What a 32-bit read at `offset` returns, and the state it leaves.
    pub open spec fn read32_abs(self, offset: u32) -> (Vic, Result<u32, MemExceptionKind>) {
        if offset == 0x00 {
            (self, Ok(self.active_spec() & !self.select))
        } else if offset == 0x04 {
            (self, Ok(self.active_spec() & self.select))
        } else if offset == 0x08 {
            (self, Ok(self.rawstatus_spec()))
        } else if offset == 0x0c {
            (self, Ok(self.select))
        } else if offset == 0x10 {
            (self, Ok(self.enabled))
        } else if offset == 0x14 || offset == 0x1c {
            (self, Err(MemExceptionKind::InvalidAccess))
        } else if offset == 0x18 {
            (self, Ok(self.software_status))
        } else if offset == 0x20 {
            (self, Err(MemExceptionKind::StubRead(0)))
        } else if offset == 0x30 {
            (self, Ok(self.isr_address_spec()))
        } else if offset == 0x34 {
            (self, Ok(self.default_isr))
        } else if 0x100 <= offset <= 0x13c {
            (self, Ok(self.vector_entries@[((offset - 0x100) / 4) as int].isr_addr))
        } else if 0x200 <= offset <= 0x23c {
            let entry = self.vector_entries@[((offset - 0x200) / 4) as int];
            (
                self,
                Ok(
                    (((if entry.enabled {
                        0x20u32
                    } else {
                        0u32
                    }) + entry.source) as u32),
                ),
            )
        } else if offset == 0xfe0 {
            (self, Ok(0x90u32))
        } else if offset == 0xfe4 {
            (self, Ok(0x11u32))
        } else if offset == 0xfe8 {
            (self, Ok(0x04u32))
        } else if offset == 0xfec {
            (self, Ok(0x00u32))
        } else {
            (self, Err(MemExceptionKind::Unexpected))
        }
    }

    /// Whether `offset` addresses one of the sixteen `VectAddrN` slots.
    pub open spec fn vector_addr_offset(offset: u32) -> bool {
        0x100 <= offset <= 0x13c
    }

    /// Whether `offset` addresses one of the sixteen `VectCntlN` slots.
    pub open spec fn vector_cntl_offset(offset: u32) -> bool {
        0x200 <= offset <= 0x23c
    }

    /// All fields of the bank except the vector entries, unchanged.
    pub open spec fn same_but_entries(self, other: Vic) -> bool {
        self.label == other.label && self.status == other.status && self.enabled == other.enabled
            && self.select == other.select && self.software_status == other.software_status
            && self.default_isr == other.default_isr
    }

    /// What a 32-bit write of `val` at `offset` does, for every offset
    /// outside the vector-entry ranges (those update one entry in place and
    /// are stated on `w32` directly).
    pub open spec fn write32_abs(self, offset: u32, val: u32) -> (
        Vic,
        Result<(), MemExceptionKind>,
    ) {
        if offset == 0x00 || offset == 0x04 || offset == 0x08 {
            (self, Err(MemExceptionKind::InvalidAccess))
        } else if offset == 0x0c {
            (Vic { select: val, ..self }, Ok(()))
        } else if offset == 0x10 {
            (Vic { enabled: val, ..self }, Ok(()))
        } else if offset == 0x14 {
            (Vic { enabled: self.enabled & !val, ..self }, Ok(()))
        } else if offset == 0x18 {
            (Vic { software_status: self.software_status | val, ..self }, Ok(()))
        } else if offset == 0x1c {
            (Vic { software_status: self.software_status & !val, ..self }, Ok(()))
        } else if offset == 0x20 {
            (self, Err(MemExceptionKind::StubWrite))
        } else if offset == 0x30 {
            // end-of-interrupt acknowledgement: a no-op in this model
            (self, Ok(()))
        } else if offset == 0x34 {
            (Vic { default_isr: val, ..self }, Ok(()))
        } else if offset == 0xfe0 || offset == 0xfe4 || offset == 0xfe8 || offset == 0xfec {
            (self, Err(MemExceptionKind::InvalidAccess))
        } else {
            (self, Err(MemExceptionKind::Unexpected))
        }
    }

    /// Create a new VIC bank with nothing pending, nothing enabled, and all
    /// vector entries cleared.
    pub fn new(label: &'static str) -> (r: Vic)
        ensures
            r.wf(),
            r.label == label,
            r.status == 0,
            r.enabled == 0,
            r.select == 0,
            r.software_status == 0,
            r.default_isr == 0,
            forall|i: int|
                0 <= i < 16 ==> r.vector_entries@[i] == (VectorEntry {
                    source: 0,
                    isr_addr: 0,
                    enabled: false,
                }),
    {
        let mut vector_entries: Vec<VectorEntry> = Vec::new();
        let mut i: usize = 0;
        while i < 16
            invariant
                i <= 16,
                vector_entries@.len() == i,
                forall|j: int|
                    0 <= j < i ==> vector_entries@[j] == (VectorEntry {
                        source: 0,
                        isr_addr: 0,
                        enabled: false,
                    }),
            decreases 16 - i,
        {
            vector_entries.push(VectorEntry { source: 0, isr_addr: 0, enabled: false });
            i = i + 1;
        }
        Vic {
            label,
            status: 0,
            enabled: 0,
            select: 0,
            software_status: 0,
            default_isr: 0,
            vector_entries,
        }
    }

    /// All pending sources: hardware- or software-asserted.
    pub fn rawstatus(&self) -> (r: u32)
        ensures
            r == self.rawstatus_spec(),
    {
        self.software_status | self.status
    }

    /// Pending sources that are also enabled.
    pub fn enabled_active_interrupts(&self) -> (r: u32)
        ensures
            r == self.active_spec(),
    {
        self.rawstatus() & self.enabled
    }

    /// Check if an IRQ should be requested.
    pub fn irq(&self) -> (r: bool)
        ensures
            r == self.irq_spec(),
    {
        (self.enabled_active_interrupts() & !self.select) != 0
    }

    /// Check if an FIQ should be requested.
    pub fn fiq(&self) -> (r: bool)
        ensures
            r == self.fiq_spec(),
    {
        (self.enabled_active_interrupts() & self.select) != 0
    }

    /// The address a `VectAddr` read returns.
    pub fn isr_address(&self) -> (r: u32)
        requires
            self.wf(),
        ensures
            r == self.isr_address_spec(),
    {
        if self.fiq() || !self.irq() {
            self.default_isr
        } else {
            let irqs = self.enabled_active_interrupts() & !self.select;
            let mut i: usize = 0;
            while i < 16
                invariant
                    self.wf(),
                    i <= 16,
                    !self.fiq_spec(),
                    self.irq_spec(),
                    irqs == self.active_spec() & !self.select,
                    find_isr(self.vector_entries@, irqs, 0) == find_isr(
                        self.vector_entries@,
                        irqs,
                        i as int,
                    ),
                decreases 16 - i,
            {
                let entry = self.vector_entries[i];
                if entry.enabled && (irqs & (1u32 << entry.source as u32)) != 0 {
                    proof {
                        assert(find_isr(self.vector_entries@, irqs, i as int) == Some(
                            entry.isr_addr,
                        ));
                    }
                    return entry.isr_addr;
                }
                i = i + 1;
            }
            self.default_isr
        }
    }

    /// Request an interrupt from a hardware source.
    pub fn assert_interrupt(&mut self, source: u8)
        requires
            source < 32,
        ensures
            *final(self) == (Vic { status: old(self).status | (1u32 << source as u32), ..*old(self) }),
    {
        self.status = self.status | (1u32 << source as u32);
    }

    /// Clear an interrupt from a hardware source.
    pub fn clear_interrupt(&mut self, source: u8)
        requires
            source < 32,
        ensures
            *final(self) == (Vic { status: old(self).status & !(1u32 << source as u32), ..*old(self) }),
    {
        self.status = self.status & !(1u32 << source as u32);
    }

    /// The identifier this bank stamps on its faults.
    fn ident(&self) -> (r: String)
        ensures
            r@ == vic_ident(self.label),
    {
        let mut s = String::from_str("VIC");
        s.append(":");
        s.append(self.label);
        s
    }
}

/// The full effect of a 32-bit write on a bank: `post` is the state it
/// leaves, `r` its result.
pub open spec fn w32_rel(pre: Vic, post: Vic, offset: u32, val: u32, r: MemResult<()>) -> bool {
    if !Vic::vector_addr_offset(offset) && !Vic::vector_cntl_offset(offset) {
        let (s2, abs) = pre.write32_abs(offset, val);
        post == s2 && res_matches(r, abs, offset, vic_ident(pre.label))
    } else if Vic::vector_addr_offset(offset) {
        r is Ok && pre.same_but_entries(post) && post.vector_entries@ == pre.vector_entries@.update(
            ((offset - 0x100) / 4) as int,
            (VectorEntry { isr_addr: val, ..pre.vector_entries@[((offset - 0x100) / 4) as int] }),
        )
    } else {
        r is Ok && pre.same_but_entries(post) && post.vector_entries@ == pre.vector_entries@.update(
            ((offset - 0x200) / 4) as int,
            (VectorEntry {
                enabled: val & 0x20 != 0,
                source: (val % 0x20) as u8,
                ..pre.vector_entries@[((offset - 0x200) / 4) as int]
            }),
        )
    }
}

impl Device for Vic {
    fn kind(&self) -> (r: &'static str)
        ensures
            r@ == "VIC"@,
    {
        "VIC"
    }

    fn label(&self) -> (r: Option<&'static str>)
        ensures
            r == Some(self.label),
    {
        Some(self.label)
    }

    /// Names the register at `offset` exactly when the bank maps one there.
    fn probe(&self, offset: u32) -> (r: Probe)
        ensures
            vic_reg_name(offset) matches Some(n) ==> r matches Probe::Register(s) && s@ == n,
            vic_reg_name(offset) is None ==> r is Unmapped,
    {
        if offset == 0x00 {
            Probe::Register("IRQStatus")
        } else if offset == 0x04 {
            Probe::Register("FIQStatus")
        } else if offset == 0x08 {
            Probe::Register("RawIntr")
        } else if offset == 0x0c {
            Probe::Register("IntSelect")
        } else if offset == 0x10 {
            Probe::Register("IntEnable")
        } else if offset == 0x14 {
            Probe::Register("IntEnClear")
        } else if offset == 0x18 {
            Probe::Register("SoftInt")
        } else if offset == 0x1c {
            Probe::Register("SoftIntClear")
        } else if offset == 0x20 {
            Probe::Register("Protection")
        } else if offset == 0x30 {
            Probe::Register("VectAddr")
        } else if offset == 0x34 {
            Probe::Register("DefVectAddr")
        } else if 0x100 <= offset && offset <= 0x13c {
            Probe::Register("VectAddrN")
        } else if 0x200 <= offset && offset <= 0x23c {
            Probe::Register("VectCntlN")
        } else if offset == 0xfe0 {
            Probe::Register("PeriphID0")
        } else if offset == 0xfe4 {
            Probe::Register("PeriphID1")
        } else if offset == 0xfe8 {
            Probe::Register("PeriphID2")
        } else if offset == 0xfec {
            Probe::Register("PeriphID3")
        } else {
            Probe::Unmapped
        }
    }
}

impl Memory for Vic {
    open spec fn inv(&self) -> bool {
        self.wf()
    }

    fn r32(&mut self, offset: u32) -> (r: MemResult<u32>)
        ensures
            ({
                let (s2, abs) = old(self).read32_abs(offset);
                *final(self) == s2 && res_matches(r, abs, offset, vic_ident(old(self).label))
            }),
    {
        if offset == 0x00 {
            Ok(self.enabled_active_interrupts() & !self.select)
        } else if offset == 0x04 {
            Ok(self.enabled_active_interrupts() & self.select)
        } else if offset == 0x08 {
            Ok(self.rawstatus())
        } else if offset == 0x0c {
            Ok(self.select)
        } else if offset == 0x10 {
            Ok(self.enabled)
        } else if offset == 0x14 || offset == 0x1c {
            Err(MemException::new(self.ident(), offset, MemExceptionKind::InvalidAccess))
        } else if offset == 0x18 {
            Ok(self.software_status)
        } else if offset == 0x20 {
            Err(MemException::new(self.ident(), offset, MemExceptionKind::StubRead(0)))
        } else if offset == 0x30 {
            Ok(self.isr_address())
        } else if offset == 0x34 {
            Ok(self.default_isr)
        } else if 0x100 <= offset && offset <= 0x13c {
            let index = ((offset - 0x100) / 4) as usize;
            Ok(self.vector_entries[index].isr_addr)
        } else if 0x200 <= offset && offset <= 0x23c {
            let index = ((offset - 0x200) / 4) as usize;
            let entry = self.vector_entries[index];
            let result = (if entry.enabled {
                0x20u32
            } else {
                0u32
            }) + entry.source as u32;
            Ok(result)
        } else if offset == 0xfe0 {
            Ok(0x90)
        } else if offset == 0xfe4 {
            Ok(0x11)
        } else if offset == 0xfe8 {
            Ok(0x04)
        } else if offset == 0xfec {
            Ok(0x00)
        } else {
            Err(MemException::new(self.ident(), offset, MemExceptionKind::Unexpected))
        }
    }

    fn w32(&mut self, offset: u32, val: u32) -> (r: MemResult<()>)
        ensures
            w32_rel(*old(self), *final(self), offset, val, r),
    {
        if offset == 0x00 || offset == 0x04 || offset == 0x08 {
            Err(MemException::new(self.ident(), offset, MemExceptionKind::InvalidAccess))
        } else if offset == 0x0c {
            self.select = val;
            Ok(())
        } else if offset == 0x10 {
            self.enabled = val;
            Ok(())
        } else if offset == 0x14 {
            self.enabled = self.enabled & !val;
            Ok(())
        } else if offset == 0x18 {
            self.software_status = self.software_status | val;
            Ok(())
        } else if offset == 0x1c {
            self.software_status = self.software_status & !val;
            Ok(())
        } else if offset == 0x20 {
            Err(MemException::new(self.ident(), offset, MemExceptionKind::StubWrite))
        } else if offset == 0x30 {
            // end-of-interrupt acknowledgement: a no-op in this model
            Ok(())
        } else if offset == 0x34 {
            self.default_isr = val;
            Ok(())
        } else if 0x100 <= offset && offset <= 0x13c {
            let index = ((offset - 0x100) / 4) as usize;
            let mut entry = self.vector_entries[index];
            entry.isr_addr = val;
            self.vector_entries.set(index, entry);
            Ok(())
        } else if 0x200 <= offset && offset <= 0x23c {
            let index = ((offset - 0x200) / 4) as usize;
            let mut entry = self.vector_entries[index];
            entry.enabled = val & 0x20 != 0;
            entry.source = (val % 0x20) as u8;
            self.vector_entries.set(index, entry);
            Ok(())
        } else if offset == 0xfe0 || offset == 0xfe4 || offset == 0xfe8 || offset == 0xfec {
            Err(MemException::new(self.ident(), offset, MemExceptionKind::InvalidAccess))
        } else {
            Err(MemException::new(self.ident(), offset, MemExceptionKind::Unexpected))
        }
    }

    fn r8(&mut self, offset: u32) -> (r: MemResult<u8>)
        ensures
            offset % 4 != 0 ==> *final(self) == *old(self) && res_matches(
                crate::exception::widen_res8(r),
                Err::<u32, _>(MemExceptionKind::Misaligned),
                offset,
                vic_ident(old(self).label),
            ),
            offset % 4 == 0 ==> ({
                let (s2, abs) = old(self).read32_abs(offset);
                *final(self) == s2 && (match abs {
                    Ok(w) => r matches Ok(v) && v == w % 0x100,
                    Err(k) => res_matches(
                        crate::exception::widen_res8(r),
                        Err::<u32, _>(k),
                        offset,
                        vic_ident(old(self).label),
                    ),
                })
            }),
    {
        if offset % 4 != 0 {
            return Err(MemException::new(self.ident(), offset, MemExceptionKind::Misaligned));
        }
        match self.r32(offset) {
            Ok(v) => Ok((v % 0x100) as u8),
            Err(e) => Err(e),
        }
    }

    fn r16(&mut self, offset: u32) -> (r: MemResult<u16>)
        ensures
            offset % 4 != 0 ==> *final(self) == *old(self) && res_matches(
                crate::exception::widen_res16(r),
                Err::<u32, _>(MemExceptionKind::Misaligned),
                offset,
                vic_ident(old(self).label),
            ),
            offset % 4 == 0 ==> ({
                let (s2, abs) = old(self).read32_abs(offset);
                *final(self) == s2 && (match abs {
                    Ok(w) => r matches Ok(v) && v == w % 0x1_0000,
                    Err(k) => res_matches(
                        crate::exception::widen_res16(r),
                        Err::<u32, _>(k),
                        offset,
                        vic_ident(old(self).label),
                    ),
                })
            }),
    {
        if offset % 4 != 0 {
            return Err(MemException::new(self.ident(), offset, MemExceptionKind::Misaligned));
        }
        match self.r32(offset) {
            Ok(v) => Ok((v % 0x1_0000) as u16),
            Err(e) => Err(e),
        }
    }

    fn w8(&mut self, offset: u32, val: u8) -> (r: MemResult<()>)
        ensures
            offset % 4 != 0 ==> *final(self) == *old(self) && res_matches(
                r,
                Err::<(), _>(MemExceptionKind::Misaligned),
                offset,
                vic_ident(old(self).label),
            ),
            offset % 4 == 0 ==> w32_rel(*old(self), *final(self), offset, val as u32, r),
    {
        if offset % 4 != 0 {
            return Err(MemException::new(self.ident(), offset, MemExceptionKind::Misaligned));
        }
        self.w32(offset, val as u32)
    }

    fn w16(&mut self, offset: u32, val: u16) -> (r: MemResult<()>)
        ensures
            offset % 4 != 0 ==> *final(self) == *old(self) && res_matches(
                r,
                Err::<(), _>(MemExceptionKind::Misaligned),
                offset,
                vic_ident(old(self).label),
            ),
            offset % 4 == 0 ==> w32_rel(*old(self), *final(self), offset, val as u32, r),
    {
        if offset % 4 != 0 {
            return Err(MemException::new(self.ident(), offset, MemExceptionKind::Misaligned));
        }
        self.w32(offset, val as u32)
    }
}

/// Whether vector entry `j` takes part in dispatch for the pending IRQ mask
/// `irqs`.
pub open spec fn vector_matches(entries: Seq<VectorEntry>, irqs: u32, j: int) -> bool {
    entries[j].enabled && irqs & (1u32 << entries[j].source as u32) != 0
}

/// `find_isr` returns the lowest-index match at or after `i`, and `None`
/// exactly when no entry from `i` on matches.
pub proof fn lemma_find_isr_first(entries: Seq<VectorEntry>, irqs: u32, i: int)
    requires
        0 <= i <= entries.len(),
    ensures
        find_isr(entries, irqs, i) matches Some(a) ==> exists|j: int|
            i <= j < entries.len() && vector_matches(entries, irqs, j) && a == entries[j].isr_addr
                && (forall|k: int| i <= k < j ==> !vector_matches(entries, irqs, k)),
        find_isr(entries, irqs, i) is None ==> forall|j: int|
            i <= j < entries.len() ==> !vector_matches(entries, irqs, j),
    decreases entries.len() - i,
{
    if i < entries.len() {
        lemma_find_isr_first(entries, irqs, i + 1);
        if !vector_matches(entries, irqs, i) {
            match find_isr(entries, irqs, i + 1) {
                Some(a) => {
                    let j = choose|j: int|
                        i + 1 <= j < entries.len() && vector_matches(entries, irqs, j) && a
                            == entries[j].isr_addr && (forall|k: int|
                            i + 1 <= k < j ==> !vector_matches(entries, irqs, k));
                    assert(forall|k: int| i <= k < j ==> !vector_matches(entries, irqs, k));
                },
                None => {},
            }
        }
    }
}

/// Vectored dispatch: a `VectAddr` read yields `default_isr` when a FIQ is
/// pending or no IRQ is; otherwise it yields the ISR address of the
/// lowest-index enabled vector entry whose source bit is set in
/// `active & !select`, or `default_isr` when no entry matches.
pub proof fn lemma_vic_vectored_dispatch(v: Vic)
    requires
        v.wf(),
    ensures
        v.fiq_spec() || !v.irq_spec() ==> v.isr_address_spec() == v.default_isr,
        !(v.fiq_spec() || !v.irq_spec()) ==> ({
            let irqs = v.active_spec() & !v.select;
            &&& (exists|j: int| 0 <= j < 16 && vector_matches(v.vector_entries@, irqs, j))
                ==> exists|j: int|
                {
                    &&& 0 <= j < 16
                    &&& vector_matches(v.vector_entries@, irqs, j)
                    &&& v.isr_address_spec() == v.vector_entries@[j].isr_addr
                    &&& forall|k: int| 0 <= k < j ==> !vector_matches(v.vector_entries@, irqs, k)
                }
            &&& (forall|j: int| 0 <= j < 16 ==> !vector_matches(v.vector_entries@, irqs, j))
                ==> v.isr_address_spec() == v.default_isr
        }),
{
    let irqs = v.active_spec() & !v.select;
    lemma_find_isr_first(v.vector_entries@, irqs, 0);
}

} // verus!
