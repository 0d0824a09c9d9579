//! The TS-7200 system: high-level-emulation boot, the CPU-facing infallible
//! memory adapter, watchpoint sniffing, fault classification, and the
//! per-step interrupt drain.
//!
//! The CPU core itself is an external collaborator: a runner owns it, drives
//! one instruction at a time through the adapter interface exposed here, and
//! consults [`Ts7200::finish_run_step`] for the step's outcome. Every
//! decision — what a faulting access returns to the CPU, which faults are
//! fatal, when the system halts or hits a watchpoint or breakpoint — is made
//! by the verified code in this module.

use vstd::prelude::*;
use vstd::string::StringExecFns;

use crate::bus::{bus_r16_rel, bus_r32_rel, bus_r8_rel, bus_w16_rel, bus_w32_rel, bus_w8_rel, Ts7200Bus};
use crate::chan::{chan_sender_clone, chan_try_recv, chan_unbounded};
use crate::device::Device;
use crate::exception::{AccessKind, MemException, MemExceptionKind, Severity};
use crate::interrupts::Interrupt;
use crate::memory::Memory;
use crate::ram::store32;
use crate::syscon::PowerState;
use crate::timer::TimerCmd;
use crate::vic::Vic;
use crate::vicmanager::VicManager;

verus! {

/// The supervisor-bank stack pointer the bootloader leaves behind.
pub const HLE_BOOTLOADER_SP: u32 = 0x01fd_cf34;

/// The bootloader return address: jumping here is a graceful exit.
pub const HLE_BOOTLOADER_LR: u32 = 0x0001_74c8;

/// The instruction pre-loaded into each interrupt-vector slot:
/// `ldr pc, [pc, #0x20]`.
pub const IVT_INSTRUCTION: u32 = 0xe59f_f018;

/// A value observed at a watched address, tagged with its access width.
#[derive(Clone, Copy, Debug, PartialEq, Eq, Structural)]
pub enum MemAccessVal {
    U8(u8),
    U16(u16),
    U32(u32),
}

/// One memory access, as recorded for watchpoints.
#[derive(Clone, Copy, Debug, PartialEq, Eq, Structural)]
pub struct MemAccess {
    /// Read or write.
    pub kind: AccessKind,
    /// The absolute address accessed.
    pub offset: u32,
    /// The value read or written.
    pub val: MemAccessVal,
}

/// Watches a list of addresses and records the most recent access to any of
/// them.
pub struct MemSniffer {
    /// The watched addresses.
    pub addrs: Vec<u32>,
    /// The most recent access to a watched address, if any.
    pub hit: Option<MemAccess>,
}

impl MemSniffer {
    /// Create a sniffer watching `addrs`.
    pub fn new(addrs: Vec<u32>) -> (r: MemSniffer)
        ensures
            r.addrs == addrs,
            r.hit is None,
    {
        MemSniffer { addrs, hit: None }
    }

    /// Record `access` when its address is watched.
    fn observe(&mut self, access: MemAccess)
        ensures
            old(self).addrs@.contains(access.offset) ==> *final(self) == (MemSniffer {
                hit: Some(access),
                ..*old(self)
            }),
            !old(self).addrs@.contains(access.offset) ==> *final(self) == *old(self),
    {
        let mut i: usize = 0;
        while i < self.addrs.len()
            invariant
                i <= self.addrs@.len(),
                *self == *old(self),
                forall|j: int| 0 <= j < i ==> self.addrs@[j] != access.offset,
            decreases self.addrs@.len() - i,
        {
            if self.addrs[i] == access.offset {
                self.hit = Some(access);
                return ;
            }
            i = i + 1;
        }
    }
}

/// Collects the fault of a CPU memory access so the access itself can
/// "succeed": the CPU core's interface is infallible, so the exception is
/// stored here, tagged with the absolute address, and drained once per step.
pub struct MemoryAdapter {
    /// The pending fault, with the absolute address it arose at.
    pub exception: Option<(u32, MemException)>,
}

impl MemoryAdapter {
    /// Create an adapter with an empty fault slot.
    pub fn new() -> (r: MemoryAdapter)
        ensures
            r.exception is None,
    {
        MemoryAdapter { exception: None }
    }

    /// Drain the pending fault, if any.
    pub fn take_exception(&mut self) -> (r: Option<(u32, MemException)>)
        ensures
            final(self).exception is None,
            r == old(self).exception,
    {
        self.exception.take()
    }
}

/// Why the system stopped fatally.
#[derive(Debug)]
pub enum FatalError {
    /// An unrecoverable memory exception.
    FatalMemException { addr: u32, in_mem_space_of: String, reason: MemException },
    /// A device contract was violated at `Error` severity.
    ContractViolation { in_mem_space_of: String, msg: String },
    /// A power state this model does not implement.
    UnimplementedPowerState(PowerState),
}

/// What a CPU step observed.
#[derive(Clone, Copy, Debug, PartialEq, Eq, Structural)]
pub enum Event {
    /// The CPU returned to the bootloader: graceful exit.
    Halted,
    /// The program counter reached a breakpoint.
    Break,
    /// A watched address was written.
    WatchWrite(u32),
    /// A watched address was read.
    WatchRead(u32),
}

/// Whether a halt-state step may block waiting for an interrupt.
#[derive(Clone, Copy, Debug, PartialEq, Eq, Structural)]
pub enum BlockMode {
    Blocking,
    NonBlocking,
}

/// One loadable piece of a kernel image: where it goes and what it holds.
pub struct KernelSection {
    /// Destination virtual address.
    pub vaddr: u32,
    /// The section's bytes.
    pub data: Vec<u8>,
    /// Whether the section occupies memory.
    pub is_alloc: bool,
    /// Whether the section has no bits in the image (e.g. zero-initialized).
    pub is_nobits: bool,
}

/// The abstract form of a kernel section.
pub struct SectionV {
    pub vaddr: u32,
    pub data: Seq<u8>,
    pub is_alloc: bool,
    pub is_nobits: bool,
}

impl View for KernelSection {
    type V = SectionV;

    open spec fn view(&self) -> SectionV {
        SectionV {
            vaddr: self.vaddr,
            data: self.data@,
            is_alloc: self.is_alloc,
            is_nobits: self.is_nobits,
        }
    }
}

/// Whether a section is copied into RAM: it must occupy memory and carry
/// bits in the image.
pub open spec fn section_loaded(s: SectionV) -> bool {
    s.is_alloc && !s.is_nobits
}

/// RAM contents after copying one section.
pub open spec fn apply_section(mem: Seq<u8>, init: Seq<bool>, s: SectionV) -> (Seq<u8>, Seq<bool>) {
    if section_loaded(s) {
        (
            Seq::new(
                mem.len(),
                |i: int|
                    if s.vaddr <= i < s.vaddr + s.data.len() {
                        s.data[i - s.vaddr]
                    } else {
                        mem[i]
                    },
            ),
            Seq::new(
                init.len(),
                |i: int|
                    if s.vaddr <= i < s.vaddr + s.data.len() {
                        true
                    } else {
                        init[i]
                    },
            ),
        )
    } else {
        (mem, init)
    }
}

/// RAM contents after copying the first `k` sections, in order.
pub open spec fn load_sections(mem: Seq<u8>, init: Seq<bool>, secs: Seq<SectionV>, k: int) -> (
    Seq<u8>,
    Seq<bool>,
)
    decreases k,
{
    if k <= 0 {
        (mem, init)
    } else {
        let (m, i) = load_sections(mem, init, secs, k - 1);
        apply_section(m, i, secs[k - 1])
    }
}

/// The register values the bootloader hands the CPU: execution starts at the
/// kernel's entry in supervisor mode with interrupts masked, and the
/// supervisor bank holds the bootloader's stack and return address.
#[derive(Clone, Copy, Debug, PartialEq, Eq, Structural)]
pub struct CpuInit {
    pub pc: u32,
    pub cpsr: u32,
    pub sp: u32,
    pub lr: u32,
}

/// The VIC manager after applying one `(interrupt, asserted)` message.
pub open spec fn apply_edge(v: VicManager, msg: (Interrupt, bool)) -> VicManager {
    let bit: u32 = 1u32 << msg.0.spec_index() as u32;
    if msg.0.spec_bank() == 1 {
        if msg.1 {
            VicManager { vic1: Vic { status: v.vic1.status | bit, ..v.vic1 }, ..v }
        } else {
            VicManager { vic1: Vic { status: v.vic1.status & !bit, ..v.vic1 }, ..v }
        }
    } else {
        if msg.1 {
            VicManager { vic2: Vic { status: v.vic2.status | bit, ..v.vic2 }, ..v }
        } else {
            VicManager { vic2: Vic { status: v.vic2.status & !bit, ..v.vic2 }, ..v }
        }
    }
}

/// The VIC manager after applying a sequence of interrupt messages in order.
pub open spec fn apply_edges(v: VicManager, msgs: Seq<(Interrupt, bool)>) -> VicManager
    decreases msgs.len(),
{
    if msgs.len() == 0 {
        v
    } else {
        apply_edges(apply_edge(v, msgs[0]), msgs.drop_first())
    }
}

/// How a fault classifies: `Misaligned`, `Unexpected` and `Unimplemented`
/// faults are fatal; stubbed accesses and invalid register accesses are
/// logged and swallowed; a contract violation is fatal exactly at `Error`
/// severity.
pub open spec fn fault_fatal(k: MemExceptionKind) -> bool {
    match k {
        MemExceptionKind::Misaligned => true,
        MemExceptionKind::Unexpected => true,
        MemExceptionKind::Unimplemented => true,
        MemExceptionKind::StubRead(_) => false,
        MemExceptionKind::StubWrite => false,
        MemExceptionKind::InvalidAccess => false,
        MemExceptionKind::ContractViolation { severity, .. } => severity == Severity::Error,
    }
}

/// The event a run-state step reports, given the step's observations: a
/// return to the bootloader halts; otherwise a watchpoint hit is reported,
/// then a breakpoint, then nothing.
pub open spec fn step_event(hle: bool, pc: u32, hit: Option<MemAccess>, breakpoints: Seq<u32>) -> Option<Event> {
    if hle && pc == HLE_BOOTLOADER_LR {
        Some(Event::Halted)
    } else {
        match hit {
            Some(a) => if a.kind == AccessKind::Read {
                Some(Event::WatchRead(a.offset))
            } else {
                Some(Event::WatchWrite(a.offset))
            },
            None => if breakpoints.contains(pc) {
                Some(Event::Break)
            } else {
                None
            },
        }
    }
}

/// The peripheral state high-level-emulation boot leaves: syscon locked and
/// running, timers disabled at their hardware widths, UARTs configured for
/// 115200 baud with fifos enabled, both VIC banks cleared, and no pending
/// timer commands.
pub open spec fn hle_peripherals(b: Ts7200Bus) -> bool {
    &&& b.syscon.is_locked && b.syscon.device_cfg == 0x0894_0d00u32 && b.syscon.power_state
        == PowerState::Run && b.syscon.scratch0 == 0 && b.syscon.scratch1 == 0
    &&& !b.timer1.enabled && b.timer1.wrapmask == 0xFFFFu32 && b.timer1.interrupt
        == Interrupt::Tc1Ui && b.timer1.loadval is None
    &&& !b.timer2.enabled && b.timer2.wrapmask == 0xFFFFu32 && b.timer2.interrupt
        == Interrupt::Tc2Ui && b.timer2.loadval is None
    &&& !b.timer3.enabled && b.timer3.wrapmask == 0xFFFF_FFFFu32 && b.timer3.interrupt
        == Interrupt::Tc3Ui && b.timer3.loadval is None
    &&& b.uart1@.fifo_size == 16 && b.uart1@.rx_buf == Seq::<u8>::empty() && b.uart1@.tx_buf_size
        == 0 && b.uart1@.interrupts == crate::uart::uart1_ints()
    &&& b.uart2@.fifo_size == 16 && b.uart2@.rx_buf == Seq::<u8>::empty() && b.uart2@.tx_buf_size
        == 0 && b.uart2@.interrupts == crate::uart::uart2_ints()
    &&& b.uart3_hack is None
    &&& b.vicmgr.vic1.status == 0 && b.vicmgr.vic1.enabled == 0 && b.vicmgr.vic1.select == 0
        && b.vicmgr.vic1.software_status == 0 && b.vicmgr.vic1.default_isr == 0
    &&& b.vicmgr.vic2.status == 0 && b.vicmgr.vic2.enabled == 0 && b.vicmgr.vic2.select == 0
        && b.vicmgr.vic2.software_status == 0 && b.vicmgr.vic2.default_isr == 0
    &&& b.timer_cmds@ == Seq::<(u8, TimerCmd)>::empty()
}

/// Whether a pending adapter fault is fatal.
pub open spec fn pending_fatal(x: Option<(u32, MemException)>) -> bool {
    match x {
        Some((a, e)) => fault_fatal(e.kind),
        None => false,
    }
}

/// A TS-7200 system: the bus and everything the step loop needs around it.
pub struct Ts7200 {
    /// Whether the system was booted by high-level emulation.
    pub hle: bool,
    /// A frozen system ignores all further steps (post-mortem mode).
    pub frozen: bool,
    /// The memory bus and its devices.
    pub bus: Ts7200Bus,
    /// Receiving half of the interrupt bus.
    pub interrupt_rx: crossbeam_channel::Receiver<(Interrupt, bool)>,
    /// Program-counter values that report [`Event::Break`].
    pub breakpoints: Vec<u32>,
    /// Watchpoint addresses and the most recent hit.
    pub sniffer: MemSniffer,
    /// The pending fault of the current CPU step.
    pub adapter: MemoryAdapter,
}

impl Ts7200 {
    /// The bus is well formed.
    pub open spec fn wf(&self) -> bool {
        self.bus.wf()
    }

    /// Build a TS-7200 using high-level emulation of the bootloader: the
    /// kernel's loadable sections are copied into SDRAM, the interrupt
    /// vector slots are pre-populated with `ldr pc, [pc, #0x20]`, and the
    /// returned register file starts execution at the kernel's entry.
    pub fn new_hle(entry: u32, sections: Vec<KernelSection>) -> (r: (Ts7200, CpuInit))
        requires
            forall|k: int|
                0 <= k < sections@.len() && section_loaded(#[trigger] sections@[k]@)
                    ==> sections@[k]@.vaddr + sections@[k]@.data.len() <= 0x0200_0000,
        ensures
            r.0.wf(),
            r.0.hle && !r.0.frozen,
            r.0.breakpoints@ == Seq::<u32>::empty(),
            r.0.sniffer.addrs@ == Seq::<u32>::empty(),
            r.0.sniffer.hit is None,
            r.0.adapter.exception is None,
            hle_peripherals(r.0.bus),
            r.1 == (CpuInit {
                pc: entry,
                cpsr: 0xd3,
                sp: HLE_BOOTLOADER_SP,
                lr: HLE_BOOTLOADER_LR,
            }),
            ({
                let (lm, li) = load_sections(
                    Seq::new(0x0200_0000, |i: int| 0x2du8),
                    Seq::new(0x0200_0000, |i: int| false),
                    sections@.map_values(|s: KernelSection| s@),
                    sections@.len() as int,
                );
                &&& r.0.bus.sdram.mem@.len() == 0x0200_0000
                &&& forall|i: int|
                    0x20 <= i < 0x0200_0000 ==> r.0.bus.sdram.mem@[i] == lm[i]
                        && r.0.bus.sdram.initialized@[i] == li[i]
                &&& forall|k: int|
                    #![trigger crate::ram::le_val(r.0.bus.sdram.mem@, 4 * k, 4)]
                    0 <= k < 8 ==> crate::ram::le_val(r.0.bus.sdram.mem@, 4 * k, 4)
                        == IVT_INSTRUCTION && crate::ram::init_range(
                        r.0.bus.sdram.initialized@,
                        4 * k,
                        4,
                    )
            }),
    {
        let (tx, rx) = chan_unbounded::<(Interrupt, bool)>();
        let mut bus = Ts7200Bus::new_hle(tx);
        let ghost m0 = bus.sdram.mem@;
        let ghost i0 = bus.sdram.initialized@;
        let ghost svs = sections@.map_values(|s: KernelSection| s@);
        proof {
            assert forall|i: int| 0 <= i < 0x0200_0000 implies m0[i] == 0x2du8 && !i0[i] by {}
            assert(m0 =~= Seq::new(0x0200_0000, |i: int| 0x2du8));
            assert(i0 =~= Seq::new(0x0200_0000, |i: int| false));
        }
        let mut k: usize = 0;
        while k < sections.len()
            invariant
                bus.wf(),
                k <= sections@.len(),
                svs == sections@.map_values(|s: KernelSection| s@),
                forall|j: int|
                    0 <= j < sections@.len() && section_loaded(#[trigger] sections@[j]@)
                        ==> sections@[j]@.vaddr + sections@[j]@.data.len() <= 0x0200_0000,
                bus.sdram.mem@.len() == 0x0200_0000,
                (bus.sdram.mem@, bus.sdram.initialized@) == load_sections(m0, i0, svs, k as int),
                hle_peripherals(bus),
            decreases sections@.len() - k,
        {
            let s = &sections[k];
            if s.is_alloc && !s.is_nobits {
                proof {
                    assert(section_loaded(sections@[k as int]@));
                    assert(sections@[k as int]@.vaddr + sections@[k as int]@.data.len()
                        <= 0x0200_0000);
                }
                bus.sdram.bulk_write(s.vaddr as usize, s.data.as_slice());
                proof {
                    let (pm, pi) = load_sections(m0, i0, svs, k as int);
                    let (am, ai) = apply_section(pm, pi, svs[k as int]);
                    assert(bus.sdram.mem@ =~= am);
                    assert(bus.sdram.initialized@ =~= ai);
                }
            } else {
                proof {
                    let (pm, pi) = load_sections(m0, i0, svs, k as int);
                    assert((bus.sdram.mem@, bus.sdram.initialized@) == apply_section(
                        pm,
                        pi,
                        svs[k as int],
                    ));
                }
            }
            k = k + 1;
        }
        // pre-populate the interrupt vector table so that vectoring through
        // the fixed pointer slots at +0x20 works
        let ghost lm = bus.sdram.mem@;
        let ghost li = bus.sdram.initialized@;
        let mut a: usize = 0;
        while a < 8
            invariant
                bus.wf(),
                a <= 8,
                bus.sdram.mem@.len() == 0x0200_0000,
                forall|i: int|
                    4 * a <= i < 0x0200_0000 ==> bus.sdram.mem@[i] == lm[i]
                        && bus.sdram.initialized@[i] == li[i],
                forall|kk: int|
                    #![trigger crate::ram::le_val(bus.sdram.mem@, 4 * kk, 4)]
                    0 <= kk < a ==> crate::ram::le_val(bus.sdram.mem@, 4 * kk, 4)
                        == IVT_INSTRUCTION && crate::ram::init_range(
                        bus.sdram.initialized@,
                        4 * kk,
                        4,
                    ),
                hle_peripherals(bus),
            decreases 8 - a,
        {
            let ghost pm = bus.sdram.mem@;
            let ghost pi = bus.sdram.initialized@;
            let res = bus.sdram.w32((4 * a) as u32, IVT_INSTRUCTION);
            proof {
                crate::ram::lemma_store32_le_val(pm, 4 * a as int, IVT_INSTRUCTION);
                crate::ram::lemma_mark_init(pi, 4 * a as int, 4);
                assert forall|kk: int|
                    #![trigger crate::ram::le_val(bus.sdram.mem@, 4 * kk, 4)]
                    0 <= kk < a + 1 implies crate::ram::le_val(bus.sdram.mem@, 4 * kk, 4)
                    == IVT_INSTRUCTION && crate::ram::init_range(
                    bus.sdram.initialized@,
                    4 * kk,
                    4,
                ) by {
                    if kk < a {
                        assert(crate::ram::le_val(pm, 4 * kk, 4) == IVT_INSTRUCTION);
                        assert(crate::ram::init_range(pi, 4 * kk, 4));
                        assert(bus.sdram.mem@[4 * kk] == pm[4 * kk] && bus.sdram.mem@[4 * kk + 1]
                            == pm[4 * kk + 1] && bus.sdram.mem@[4 * kk + 2] == pm[4 * kk + 2]
                            && bus.sdram.mem@[4 * kk + 3] == pm[4 * kk + 3]);
                        crate::ram::lemma_le_val_frame4(pm, bus.sdram.mem@, 4 * kk);
                    }
                    assert forall|j: int|
                        4 * kk <= j < 4 * kk + 4 implies bus.sdram.initialized@[j] by {
                        assert(bus.sdram.initialized@[j] == (4 * a <= j < 4 * a + 4 || pi[j]));
                        if !(4 * a <= j < 4 * a + 4) && kk < a {
                            assert(pi[j]);
                        }
                    }
                }
            }
            a = a + 1;
        }
        let sys = Ts7200 {
            hle: true,
            frozen: false,
            bus,
            interrupt_rx: rx,
            breakpoints: Vec::new(),
            sniffer: MemSniffer::new(Vec::new()),
            adapter: MemoryAdapter::new(),
        };
        let init = CpuInit { pc: entry, cpsr: 0xd3, sp: HLE_BOOTLOADER_SP, lr: HLE_BOOTLOADER_LR };
        (sys, init)
    }

    /// Another handle on the interrupt bus, for asynchronous producers such
    /// as timer interrupters.
    pub fn interrupt_sender(&self) -> crossbeam_channel::Sender<(Interrupt, bool)> {
        chan_sender_clone(&self.bus.interrupt_tx)
    }

    /// Freeze the system so that stepping becomes a no-op; used for
    /// post-mortem inspection. A frozen system cannot be thawed.
    pub fn freeze(&mut self)
        ensures
            *final(self) == (Ts7200 { frozen: true, ..*old(self) }),
    {
        self.frozen = true;
    }

    /// The devices on the bus.
    pub fn devices_mut(&mut self) -> &mut Ts7200Bus {
        &mut self.bus
    }

    /// Arm a breakpoint at `addr`.
    pub fn add_breakpoint(&mut self, addr: u32)
        ensures
            *final(self) == (Ts7200 { breakpoints: final(self).breakpoints, ..*old(self) }),
            final(self).breakpoints@ == old(self).breakpoints@.push(addr),
    {
        self.breakpoints.push(addr);
    }

    /// Arm a watchpoint at `addr`.
    pub fn add_watchpoint(&mut self, addr: u32)
        ensures
            *final(self) == (Ts7200 { sniffer: final(self).sniffer, ..*old(self) }),
            final(self).sniffer.addrs@ == old(self).sniffer.addrs@.push(addr),
            final(self).sniffer.hit == old(self).sniffer.hit,
    {
        self.sniffer.addrs.push(addr);
    }

    /// Begin a run-state step at monotonic time `now_ns`: the timers will
    /// update against it, and the step's watchpoint record starts empty.
    pub fn begin_step(&mut self, now_ns: u64)
        ensures
            *final(self) == (Ts7200 {
                bus: final(self).bus,
                sniffer: final(self).sniffer,
                ..*old(self)
            }),
            final(self).bus == (Ts7200Bus { now_ns, ..old(self).bus }),
            final(self).sniffer == (MemSniffer { hit: None, ..old(self).sniffer }),
    {
        self.bus.set_now(now_ns);
        self.sniffer.hit = None;
    }

    /// Drain pending interrupt messages into the VIC manager, applying each
    /// `(interrupt, asserted)` edge in arrival order. At most a bounded
    /// batch is drained per call; the runner calls this every step.
    pub fn drain_interrupts(&mut self) -> (msgs: Vec<(Interrupt, bool)>)
        ensures
            *final(self) == (Ts7200 { bus: final(self).bus, ..*old(self) }),
            final(self).bus == (Ts7200Bus { vicmgr: final(self).bus.vicmgr, ..old(self).bus }),
            final(self).bus.vicmgr == apply_edges(old(self).bus.vicmgr, msgs@),
    {
        let mut msgs: Vec<(Interrupt, bool)> = Vec::new();
        let mut budget: usize = 4096;
        while budget > 0
            invariant
                *self == (Ts7200 { bus: self.bus, ..*old(self) }),
                self.bus == (Ts7200Bus { vicmgr: self.bus.vicmgr, ..old(self).bus }),
                self.bus.vicmgr == apply_edges(old(self).bus.vicmgr, msgs@),
            decreases budget,
        {
            match chan_try_recv(&self.interrupt_rx) {
                Some(msg) => {
                    let ghost prev = self.bus.vicmgr;
                    let ghost prev_msgs = msgs@;
                    if msg.1 {
                        self.bus.vicmgr.assert_interrupt(msg.0);
                    } else {
                        self.bus.vicmgr.clear_interrupt(msg.0);
                    }
                    msgs.push(msg);
                    proof {
                        assert(self.bus.vicmgr == apply_edge(prev, msg));
                        lemma_apply_edges_snoc(old(self).bus.vicmgr, prev_msgs, msg);
                    }
                },
                None => {
                    return msgs;
                },
            }
            budget = budget - 1;
        }
        msgs
    }

    /// Classify the step's pending fault, if any: fatal faults surface as a
    /// [`FatalError`] carrying the probe path of the device they arose in;
    /// recoverable ones are swallowed.
    pub fn check_fault(&mut self) -> (r: Result<(), FatalError>)
        ensures
            *final(self) == (Ts7200 { adapter: MemoryAdapter { exception: None }, ..*old(self) }),
            old(self).adapter.exception is None ==> r is Ok,
            old(self).adapter.exception matches Some((a, e)) ==> ((fault_fatal(e.kind) <==> r
                is Err) && ((e.kind matches MemExceptionKind::ContractViolation {
                severity: Severity::Error,
                ..
            }) ==> (r matches Err(FatalError::ContractViolation { in_mem_space_of, msg }) && msg
                == e.msg)) && (fault_fatal(e.kind) && !(e.kind matches
            MemExceptionKind::ContractViolation { .. }) ==> (r matches Err(
                FatalError::FatalMemException { addr, in_mem_space_of, reason },
            ) && addr == a && reason == e))),
    {
        match self.adapter.take_exception() {
            None => Ok(()),
            Some((addr, e)) => {
                match e.kind {
                    MemExceptionKind::Unimplemented
                    | MemExceptionKind::Unexpected
                    | MemExceptionKind::Misaligned => {
                        let in_mem_space_of = self.bus.probe(addr).render();
                        Err(FatalError::FatalMemException { addr, in_mem_space_of, reason: e })
                    },
                    MemExceptionKind::StubRead(_)
                    | MemExceptionKind::StubWrite
                    | MemExceptionKind::InvalidAccess => Ok(()),
                    MemExceptionKind::ContractViolation { severity, .. } => {
                        if let Severity::Error = severity {
                            let in_mem_space_of = self.bus.probe(addr).render();
                            Err(FatalError::ContractViolation { in_mem_space_of, msg: e.msg })
                        } else {
                            Ok(())
                        }
                    },
                }
            },
        }
    }

    /// Finish a run-state step once the CPU has executed an instruction and
    /// its program counter reads `pc`: surface any fatal fault, drain the
    /// interrupt bus into the VIC manager, and report the step's event —
    /// a graceful halt when `pc` returned to the bootloader, else a
    /// watchpoint hit, else a breakpoint, else nothing. The runner applies
    /// IRQ/FIQ exceptions to the CPU afterwards if the VIC requests them.
    pub fn finish_run_step(&mut self, pc: u32) -> (r: Result<Option<Event>, FatalError>)
        ensures
            final(self).adapter.exception is None,
            pending_fatal(old(self).adapter.exception) ==> r is Err,
            !pending_fatal(old(self).adapter.exception) ==> r == Ok::<Option<Event>, FatalError>(
                step_event(old(self).hle, pc, old(self).sniffer.hit, old(self).breakpoints@),
            ),
            final(self).hle == old(self).hle,
            final(self).frozen == old(self).frozen,
            final(self).breakpoints == old(self).breakpoints,
            final(self).sniffer == old(self).sniffer,
    {
        match self.check_fault() {
            Ok(()) => {},
            Err(e) => {
                return Err(e);
            },
        }
        let _ = self.drain_interrupts();
        if self.hle && pc == HLE_BOOTLOADER_LR {
            return Ok(Some(Event::Halted));
        }
        match self.sniffer.hit {
            Some(access) => {
                return Ok(
                    Some(
                        match access.kind {
                            AccessKind::Read => Event::WatchRead(access.offset),
                            AccessKind::Write => Event::WatchWrite(access.offset),
                        },
                    ),
                );
            },
            None => {},
        }
        let mut i: usize = 0;
        while i < self.breakpoints.len()
            invariant
                i <= self.breakpoints@.len(),
                forall|j: int| 0 <= j < i ==> self.breakpoints@[j] != pc,
                self.hle == old(self).hle && self.frozen == old(self).frozen && self.breakpoints
                    == old(self).breakpoints && self.sniffer == old(self).sniffer,
                self.adapter.exception is None,
                !pending_fatal(old(self).adapter.exception),
                !(old(self).hle && pc == HLE_BOOTLOADER_LR),
                old(self).sniffer.hit is None,
            decreases self.breakpoints@.len() - i,
        {
            if self.breakpoints[i] == pc {
                proof {
                    assert(self.breakpoints@[i as int] == pc);
                    assert(old(self).breakpoints@.contains(pc));
                }
                return Ok(Some(Event::Break));
            }
            i = i + 1;
        }
        proof {
            assert(!old(self).breakpoints@.contains(pc));
        }
        Ok(None)
    }

    /// A halt-state step: drain the interrupt bus, and return to run mode
    /// exactly when the VIC requests an interrupt.
    pub fn halt_step(&mut self)
        ensures
            final(self).bus.vicmgr.vic1.irq_spec() || final(self).bus.vicmgr.vic2.irq_spec()
                || final(self).bus.vicmgr.vic1.fiq_spec() || final(self).bus.vicmgr.vic2.fiq_spec()
                ==> final(self).bus.syscon.power_state == PowerState::Run,
    {
        let _ = self.drain_interrupts();
        if self.bus.vicmgr.fiq() || self.bus.vicmgr.irq() {
            self.bus.syscon.set_run_mode();
        }
    }

    /// The CPU-facing 32-bit read: infallible. A fault is stored for
    /// [`Ts7200::finish_run_step`] and the CPU observes a stubbed value (the
    /// stub payload for a stubbed read, zero otherwise); a successful access
    /// to a watched address is recorded.
    pub fn cpu_r32(&mut self, addr: u32) -> (r: u32)
        requires
            old(self).wf(),
        ensures
            final(self).wf(),
            exists|m: crate::exception::MemResult<u32>|
                {
                    &&& #[trigger] bus_r32_rel(old(self).bus, final(self).bus, addr, m)
                    &&& match m {
                        Ok(v) => r == v && final(self).adapter == old(self).adapter && (old(self).sniffer.addrs@.contains(addr) ==> final(self).sniffer.hit == Some(
                            MemAccess {
                                kind: AccessKind::Read,
                                offset: addr,
                                val: MemAccessVal::U32(v),
                            },
                        )) && (!old(self).sniffer.addrs@.contains(addr) ==> final(self).sniffer
                            == old(self).sniffer),
                        Err(e) => final(self).adapter.exception == Some(
                            (addr, MemException { access_kind: Some(AccessKind::Read), ..e }),
                        ) && final(self).sniffer == old(self).sniffer && r == (match e.kind {
                            MemExceptionKind::StubRead(v) => v,
                            MemExceptionKind::ContractViolation { stub_val: Some(v), .. } => v,
                            _ => 0u32,
                        }),
                    }
                    &&& final(self).hle == old(self).hle && final(self).frozen == old(self).frozen
                        && final(self).breakpoints == old(self).breakpoints
                },
    {
        match self.bus.r32(addr) {
            Ok(v) => {
                self.sniffer.observe(
                    MemAccess { kind: AccessKind::Read, offset: addr, val: MemAccessVal::U32(v) },
                );
                v
            },
            Err(e) => {
                let stub = match e.kind {
                    MemExceptionKind::StubRead(v) => v,
                    MemExceptionKind::ContractViolation { stub_val: Some(v), .. } => v,
                    _ => 0,
                };
                self.adapter.exception = Some((addr, e.with_access_kind(AccessKind::Read)));
                stub
            },
        }
    }

    /// The CPU-facing 32-bit write: infallible, faults stored as in
    /// [`Ts7200::cpu_r32`].
    pub fn cpu_w32(&mut self, addr: u32, val: u32)
        requires
            old(self).wf(),
        ensures
            final(self).wf(),
            exists|m: crate::exception::MemResult<()>|
                {
                    &&& #[trigger] bus_w32_rel(old(self).bus, final(self).bus, addr, val, m)
                    &&& match m {
                        Ok(v) => final(self).adapter == old(self).adapter && (old(self).sniffer.addrs@.contains(addr) ==> final(self).sniffer.hit == Some(
                            MemAccess {
                                kind: AccessKind::Write,
                                offset: addr,
                                val: MemAccessVal::U32(val),
                            },
                        )) && (!old(self).sniffer.addrs@.contains(addr) ==> final(self).sniffer
                            == old(self).sniffer),
                        Err(e) => final(self).adapter.exception == Some(
                            (addr, MemException { access_kind: Some(AccessKind::Write), ..e }),
                        ) && final(self).sniffer == old(self).sniffer,
                    }
                    &&& final(self).hle == old(self).hle && final(self).frozen == old(self).frozen
                        && final(self).breakpoints == old(self).breakpoints
                },
    {
        match self.bus.w32(addr, val) {
            Ok(()) => {
                self.sniffer.observe(
                    MemAccess { kind: AccessKind::Write, offset: addr, val: MemAccessVal::U32(val) },
                );
            },
            Err(e) => {
                self.adapter.exception = Some((addr, e.with_access_kind(AccessKind::Write)));
            },
        }
    }

    /// The CPU-facing 8-bit read; see [`Ts7200::cpu_r32`].
    pub fn cpu_r8(&mut self, addr: u32) -> (r: u8)
        requires
            old(self).wf(),
        ensures
            final(self).wf(),
            exists|m: crate::exception::MemResult<u8>|
                {
                    &&& #[trigger] bus_r8_rel(old(self).bus, final(self).bus, addr, m)
                    &&& match m {
                        Ok(v) => r == v && final(self).adapter == old(self).adapter,
                        Err(e) => final(self).adapter.exception == Some(
                            (addr, MemException { access_kind: Some(AccessKind::Read), ..e }),
                        ) && r == (match e.kind {
                            MemExceptionKind::StubRead(v) => (v % 0x100) as u8,
                            MemExceptionKind::ContractViolation { stub_val: Some(v), .. } => (v
                                % 0x100) as u8,
                            _ => 0u8,
                        }),
                    }
                },
    {
        match self.bus.r8(addr) {
            Ok(v) => {
                self.sniffer.observe(
                    MemAccess { kind: AccessKind::Read, offset: addr, val: MemAccessVal::U8(v) },
                );
                v
            },
            Err(e) => {
                let stub = match e.kind {
                    MemExceptionKind::StubRead(v) => (v % 0x100) as u8,
                    MemExceptionKind::ContractViolation { stub_val: Some(v), .. } => (v
                        % 0x100) as u8,
                    _ => 0,
                };
                self.adapter.exception = Some((addr, e.with_access_kind(AccessKind::Read)));
                stub
            },
        }
    }

    /// The CPU-facing 16-bit read; see [`Ts7200::cpu_r32`].
    pub fn cpu_r16(&mut self, addr: u32) -> (r: u16)
        requires
            old(self).wf(),
        ensures
            final(self).wf(),
            exists|m: crate::exception::MemResult<u16>|
                {
                    &&& #[trigger] bus_r16_rel(old(self).bus, final(self).bus, addr, m)
                    &&& match m {
                        Ok(v) => r == v && final(self).adapter == old(self).adapter,
                        Err(e) => final(self).adapter.exception == Some(
                            (addr, MemException { access_kind: Some(AccessKind::Read), ..e }),
                        ) && r == (match e.kind {
                            MemExceptionKind::StubRead(v) => (v % 0x1_0000) as u16,
                            MemExceptionKind::ContractViolation { stub_val: Some(v), .. } => (v
                                % 0x1_0000) as u16,
                            _ => 0u16,
                        }),
                    }
                },
    {
        match self.bus.r16(addr) {
            Ok(v) => {
                self.sniffer.observe(
                    MemAccess { kind: AccessKind::Read, offset: addr, val: MemAccessVal::U16(v) },
                );
                v
            },
            Err(e) => {
                let stub = match e.kind {
                    MemExceptionKind::StubRead(v) => (v % 0x1_0000) as u16,
                    MemExceptionKind::ContractViolation { stub_val: Some(v), .. } => (v
                        % 0x1_0000) as u16,
                    _ => 0,
                };
                self.adapter.exception = Some((addr, e.with_access_kind(AccessKind::Read)));
                stub
            },
        }
    }

    /// The CPU-facing 8-bit write; see [`Ts7200::cpu_w32`].
    pub fn cpu_w8(&mut self, addr: u32, val: u8)
        requires
            old(self).wf(),
        ensures
            final(self).wf(),
            exists|m: crate::exception::MemResult<()>|
                {
                    &&& #[trigger] bus_w8_rel(old(self).bus, final(self).bus, addr, val, m)
                    &&& match m {
                        Ok(v) => final(self).adapter == old(self).adapter,
                        Err(e) => final(self).adapter.exception == Some(
                            (addr, MemException { access_kind: Some(AccessKind::Write), ..e }),
                        ),
                    }
                },
    {
        match self.bus.w8(addr, val) {
            Ok(()) => {
                self.sniffer.observe(
                    MemAccess { kind: AccessKind::Write, offset: addr, val: MemAccessVal::U8(val) },
                );
            },
            Err(e) => {
                self.adapter.exception = Some((addr, e.with_access_kind(AccessKind::Write)));
            },
        }
    }

    /// The CPU-facing 16-bit write; see [`Ts7200::cpu_w32`].
    pub fn cpu_w16(&mut self, addr: u32, val: u16)
        requires
            old(self).wf(),
        ensures
            final(self).wf(),
            exists|m: crate::exception::MemResult<()>|
                {
                    &&& #[trigger] bus_w16_rel(old(self).bus, final(self).bus, addr, val, m)
                    &&& match m {
                        Ok(v) => final(self).adapter == old(self).adapter,
                        Err(e) => final(self).adapter.exception == Some(
                            (addr, MemException { access_kind: Some(AccessKind::Write), ..e }),
                        ),
                    }
                },
    {
        match self.bus.w16(addr, val) {
            Ok(()) => {
                self.sniffer.observe(
                    MemAccess { kind: AccessKind::Write, offset: addr, val: MemAccessVal::U16(val) },
                );
            },
            Err(e) => {
                self.adapter.exception = Some((addr, e.with_access_kind(AccessKind::Write)));
            },
        }
    }
}

/// Applying one more message distributes over [`apply_edges`].
proof fn lemma_apply_edges_snoc(v: VicManager, msgs: Seq<(Interrupt, bool)>, msg: (Interrupt, bool))
    ensures
        apply_edges(v, msgs.push(msg)) == apply_edge(apply_edges(v, msgs), msg),
    decreases msgs.len(),
{
    if msgs.len() == 0 {
        assert(msgs.push(msg).drop_first() =~= msgs);
        assert(msgs.push(msg)[0] == msg);
        assert(apply_edges(v, msgs.push(msg)) == apply_edges(apply_edge(v, msg), msgs));
        assert(apply_edges(apply_edge(v, msg), msgs) == apply_edge(v, msg));
        assert(apply_edges(v, msgs) == v);
    } else {
        let m0 = msgs[0];
        assert(msgs.push(msg)[0] == m0);
        assert(msgs.push(msg).drop_first() =~= msgs.drop_first().push(msg));
        assert(apply_edges(v, msgs.push(msg)) == apply_edges(
            apply_edge(v, m0),
            msgs.drop_first().push(msg),
        ));
        lemma_apply_edges_snoc(apply_edge(v, m0), msgs.drop_first(), msg);
        assert(apply_edges(v, msgs) == apply_edges(apply_edge(v, m0), msgs.drop_first()));
    }
}

} // verus!
