//! The TS-7200 memory bus: a fixed interval map from CPU-visible addresses
//! to the board's devices.
//!
//! Accesses outside every window return `Unexpected`. The bus owns the
//! sending half of the interrupt bus and of each UART's outbound byte
//! channel; edges and bytes the devices emit are forwarded as part of the
//! access, and timer interrupter commands are queued in `timer_cmds` for the
//! runner to drain. Timers are brought up to date lazily against `now_ns`,
//! which the runner refreshes before each CPU step.

use vstd::prelude::*;
use vstd::string::StringExecFns;

use crate::chan::{chan_send, chan_unbounded};
use crate::device::{Device, Probe};
use crate::exception::{
    res_matches, widen_res16, widen_res8, MemException, MemExceptionKind, MemResult,
};
use crate::interrupts::Interrupt;
use crate::memory::Memory;
use crate::ram::{mark_init, read_abs, store16, store32, Ram};
use crate::syscon::Syscon;
use crate::timer::{timer_ident, Timer, TimerCmd};
use crate::uart::{uart1_ints_exec, uart2_ints_exec, uart3_ints_exec, uart1_ints, uart2_ints, uart3_ints, uart_ident, Uart};
use crate::vicmanager::{vm_r32_rel, vm_w32_rel, VicManager};

verus! {

/// The main TS-7200 memory bus: the board's devices and the channels they
/// publish on.
pub struct Ts7200Bus {
    /// 32 MiB of SDRAM at the bottom of the address space.
    pub sdram: Ram,
    /// System controller.
    pub syscon: Syscon,
    /// 16-bit timer.
    pub timer1: Timer,
    /// 16-bit timer.
    pub timer2: Timer,
    /// 32-bit timer.
    pub timer3: Timer,
    /// Serial port 1.
    pub uart1: Uart,
    /// Serial port 2.
    pub uart2: Uart,
    /// Serial port 3, only present when explicitly enabled.
    pub uart3_hack: Option<Uart>,
    /// The daisy-chained interrupt controllers.
    pub vicmgr: VicManager,
    /// The monotonic time, in nanoseconds, the lazy timers are updated to.
    pub now_ns: u64,
    /// Pending interrupter commands: which timer (1..3) issued which command.
    pub timer_cmds: Vec<(u8, TimerCmd)>,
    /// Sending half of the interrupt bus.
    pub interrupt_tx: crossbeam_channel::Sender<(Interrupt, bool)>,
    /// Outbound byte channels of the UARTs, sending halves.
    pub uart1_out_tx: crossbeam_channel::Sender<u8>,
    pub uart2_out_tx: crossbeam_channel::Sender<u8>,
    pub uart3_out_tx: Option<crossbeam_channel::Sender<u8>>,
    /// Receiving halves, held until the runner takes them.
    pub uart1_out_rx: Option<crossbeam_channel::Receiver<u8>>,
    pub uart2_out_rx: Option<crossbeam_channel::Receiver<u8>>,
    pub uart3_out_rx: Option<crossbeam_channel::Receiver<u8>>,
}

/// Forward interrupt edges to the interrupt bus, in order.
fn forward_edges(tx: &crossbeam_channel::Sender<(Interrupt, bool)>, edges: &Vec<(Interrupt, bool)>) {
    let mut i: usize = 0;
    while i < edges.len()
        decreases edges.len() - i,
    {
        let e = edges[i];
        chan_send(tx, e);
        i = i + 1;
    }
}

/// The full effect of a 32-bit read on the bus: `post` is the state it
/// leaves, `r` the result; accesses outside every window fail `Unexpected`.
pub open spec fn bus_r32_rel(pre: Ts7200Bus, post: Ts7200Bus, addr: u32, r: MemResult<u32>) -> bool {
    &&& (addr <= 0x01ff_ffff ==> post == pre && res_matches(r, read_abs(pre.sdram.mem@, pre.sdram.initialized@, addr, 4), addr, "Ram"@))
    &&& (0x800b_0000 <= addr <= 0x800c_ffff ==> post == (Ts7200Bus { vicmgr: post.vicmgr, ..pre }) && vm_r32_rel(pre.vicmgr, post.vicmgr, (addr - 0x800b_0000) as u32, r))
    &&& (0x8081_0000 <= addr <= 0x8081_001f ==> ({
        let (s2, abs) = pre.timer1.read32_abs(pre.now_ns, (addr - 0x8081_0000) as u32);
        post == (Ts7200Bus { timer1: s2, ..pre }) && res_matches(r, abs, (addr - 0x8081_0000) as u32, timer_ident(pre.timer1.label))
    }))
    &&& (0x8081_0020 <= addr <= 0x8081_003f ==> ({
        let (s2, abs) = pre.timer2.read32_abs(pre.now_ns, (addr - 0x8081_0020) as u32);
        post == (Ts7200Bus { timer2: s2, ..pre }) && res_matches(r, abs, (addr - 0x8081_0020) as u32, timer_ident(pre.timer2.label))
    }))
    &&& (0x8081_0080 <= addr <= 0x8081_009f ==> ({
        let (s2, abs) = pre.timer3.read32_abs(pre.now_ns, (addr - 0x8081_0080) as u32);
        post == (Ts7200Bus { timer3: s2, ..pre }) && res_matches(r, abs, (addr - 0x8081_0080) as u32, timer_ident(pre.timer3.label))
    }))
    &&& (0x808c_0000 <= addr <= 0x808c_ffff ==> ({
        let (s2, abs, es) = pre.uart1@.read32_abs((addr - 0x808c_0000) as u32);
        post == (Ts7200Bus { uart1: post.uart1, ..pre }) && post.uart1@ == s2 && post.uart1.label == pre.uart1.label && res_matches(r, abs, (addr - 0x808c_0000) as u32, uart_ident(pre.uart1.label))
    }))
    &&& (0x808d_0000 <= addr <= 0x808d_ffff ==> ({
        let (s2, abs, es) = pre.uart2@.read32_abs((addr - 0x808d_0000) as u32);
        post == (Ts7200Bus { uart2: post.uart2, ..pre }) && post.uart2@ == s2 && post.uart2.label == pre.uart2.label && res_matches(r, abs, (addr - 0x808d_0000) as u32, uart_ident(pre.uart2.label))
    }))
    &&& (0x808e_0000 <= addr <= 0x808e_ffff && pre.uart3_hack is None ==> post == pre && res_matches(r, Err::<u32, _>(MemExceptionKind::Unexpected), addr, "Ts7200"@))
    &&& (0x808e_0000 <= addr <= 0x808e_ffff ==> (pre.uart3_hack matches Some(u) ==> ({
        let (s2, abs, es) = u@.read32_abs((addr - 0x808e_0000) as u32);
        post == (Ts7200Bus { uart3_hack: post.uart3_hack, ..pre }) && (post.uart3_hack matches Some(u2) && u2@ == s2 && u2.label == u.label) && res_matches(r, abs, (addr - 0x808e_0000) as u32, uart_ident(u.label))
    })))
    &&& (0x8093_0000 <= addr <= 0x8093_ffff ==> ({
        let (s2, abs) = pre.syscon.read32_abs((addr - 0x8093_0000) as u32);
        post == (Ts7200Bus { syscon: s2, ..pre }) && res_matches(r, abs, (addr - 0x8093_0000) as u32, "System Controller"@)
    }))
    &&& (!(addr <= 0x01ff_ffff) && !(0x800b_0000 <= addr <= 0x800c_ffff) && !(0x8081_0000 <= addr <= 0x8081_001f) && !(0x8081_0020 <= addr <= 0x8081_003f) && !(0x8081_0080 <= addr <= 0x8081_009f) && !(0x808c_0000 <= addr <= 0x808c_ffff) && !(0x808d_0000 <= addr <= 0x808d_ffff) && !(0x808e_0000 <= addr <= 0x808e_ffff) && !(0x8093_0000 <= addr <= 0x8093_ffff) ==> post == pre && res_matches(r, Err::<u32, _>(MemExceptionKind::Unexpected), addr, "Ts7200"@))
}

/// The full effect of a 32-bit write on the bus: besides the device's own
/// state change, a timer write may queue an interrupter command.
pub open spec fn bus_w32_rel(pre: Ts7200Bus, post: Ts7200Bus, addr: u32, val: u32, r: MemResult<()>) -> bool {
    &&& (addr <= 0x01ff_ffff && addr + 4 <= pre.sdram.mem@.len() ==> r is Ok && post == (Ts7200Bus { sdram: post.sdram, ..pre }) && post.sdram.mem@ == store32(pre.sdram.mem@, addr as int, val) && post.sdram.initialized@ == mark_init(pre.sdram.initialized@, addr as int, 4))
    &&& (addr <= 0x01ff_ffff && addr + 4 > pre.sdram.mem@.len() ==> post == pre && res_matches(r, Err::<(), _>(MemExceptionKind::Unexpected), addr, "Ram"@))
    &&& (0x800b_0000 <= addr <= 0x800c_ffff ==> post == (Ts7200Bus { vicmgr: post.vicmgr, ..pre }) && vm_w32_rel(pre.vicmgr, post.vicmgr, (addr - 0x800b_0000) as u32, val, r))
    &&& (0x8081_0000 <= addr <= 0x8081_001f ==> ({
        let (s2, abs, cmd, edge) = pre.timer1.write32_abs(pre.now_ns, (addr - 0x8081_0000) as u32, val);
        post == (Ts7200Bus { timer1: s2, timer_cmds: post.timer_cmds, ..pre }) && res_matches(r, abs, (addr - 0x8081_0000) as u32, timer_ident(pre.timer1.label)) && post.timer_cmds@ == (match cmd {
            Some(cm) => pre.timer_cmds@.push((1u8, cm)),
            None => pre.timer_cmds@,
        })
    }))
    &&& (0x8081_0020 <= addr <= 0x8081_003f ==> ({
        let (s2, abs, cmd, edge) = pre.timer2.write32_abs(pre.now_ns, (addr - 0x8081_0020) as u32, val);
        post == (Ts7200Bus { timer2: s2, timer_cmds: post.timer_cmds, ..pre }) && res_matches(r, abs, (addr - 0x8081_0020) as u32, timer_ident(pre.timer2.label)) && post.timer_cmds@ == (match cmd {
            Some(cm) => pre.timer_cmds@.push((2u8, cm)),
            None => pre.timer_cmds@,
        })
    }))
    &&& (0x8081_0080 <= addr <= 0x8081_009f ==> ({
        let (s2, abs, cmd, edge) = pre.timer3.write32_abs(pre.now_ns, (addr - 0x8081_0080) as u32, val);
        post == (Ts7200Bus { timer3: s2, timer_cmds: post.timer_cmds, ..pre }) && res_matches(r, abs, (addr - 0x8081_0080) as u32, timer_ident(pre.timer3.label)) && post.timer_cmds@ == (match cmd {
            Some(cm) => pre.timer_cmds@.push((3u8, cm)),
            None => pre.timer_cmds@,
        })
    }))
    &&& (0x808c_0000 <= addr <= 0x808c_ffff ==> ({
        let (s2, abs, es, out) = pre.uart1@.write32_abs((addr - 0x808c_0000) as u32, val);
        post == (Ts7200Bus { uart1: post.uart1, ..pre }) && post.uart1@ == s2 && post.uart1.label == pre.uart1.label && res_matches(r, abs, (addr - 0x808c_0000) as u32, uart_ident(pre.uart1.label))
    }))
    &&& (0x808d_0000 <= addr <= 0x808d_ffff ==> ({
        let (s2, abs, es, out) = pre.uart2@.write32_abs((addr - 0x808d_0000) as u32, val);
        post == (Ts7200Bus { uart2: post.uart2, ..pre }) && post.uart2@ == s2 && post.uart2.label == pre.uart2.label && res_matches(r, abs, (addr - 0x808d_0000) as u32, uart_ident(pre.uart2.label))
    }))
    &&& (0x808e_0000 <= addr <= 0x808e_ffff && pre.uart3_hack is None ==> post == pre && res_matches(r, Err::<(), _>(MemExceptionKind::Unexpected), addr, "Ts7200"@))
    &&& (0x808e_0000 <= addr <= 0x808e_ffff ==> (pre.uart3_hack matches Some(u) ==> ({
        let (s2, abs, es, out) = u@.write32_abs((addr - 0x808e_0000) as u32, val);
        post == (Ts7200Bus { uart3_hack: post.uart3_hack, ..pre }) && (post.uart3_hack matches Some(u2) && u2@ == s2 && u2.label == u.label) && res_matches(r, abs, (addr - 0x808e_0000) as u32, uart_ident(u.label))
    })))
    &&& (0x8093_0000 <= addr <= 0x8093_ffff ==> ({
        let (s2, abs) = pre.syscon.write32_abs((addr - 0x8093_0000) as u32, val);
        post == (Ts7200Bus { syscon: s2, ..pre }) && res_matches(r, abs, (addr - 0x8093_0000) as u32, "System Controller"@)
    }))
    &&& (!(addr <= 0x01ff_ffff) && !(0x800b_0000 <= addr <= 0x800c_ffff) && !(0x8081_0000 <= addr <= 0x8081_001f) && !(0x8081_0020 <= addr <= 0x8081_003f) && !(0x8081_0080 <= addr <= 0x8081_009f) && !(0x808c_0000 <= addr <= 0x808c_ffff) && !(0x808d_0000 <= addr <= 0x808d_ffff) && !(0x808e_0000 <= addr <= 0x808e_ffff) && !(0x8093_0000 <= addr <= 0x8093_ffff) ==> post == pre && res_matches(r, Err::<(), _>(MemExceptionKind::Unexpected), addr, "Ts7200"@))
}

/// The full effect of a byte read on the bus: byte-granular against RAM,
/// rejected as `Misaligned` at unaligned register offsets, and otherwise the
/// 32-bit read truncated. (Aligned narrow reads of the interrupt controller
/// window are left unspecified beyond the controller's own contract.)
pub open spec fn bus_r8_rel(pre: Ts7200Bus, post: Ts7200Bus, addr: u32, r: MemResult<u8>) -> bool {
    &&& (addr <= 0x01ff_ffff ==> post == pre && res_matches(widen_res8(r), read_abs(pre.sdram.mem@, pre.sdram.initialized@, addr, 1), addr, "Ram"@))
    &&& (0x800b_0000 <= addr <= 0x800c_ffff && (addr - 0x800b_0000) as u32 % 4 != 0 ==> post == pre && res_matches(widen_res8(r), Err::<u32, _>(MemExceptionKind::Misaligned), (addr - 0x800b_0000) as u32, "VicManager"@))
    &&& (0x8081_0000 <= addr <= 0x8081_001f && (addr - 0x8081_0000) as u32 % 4 != 0 ==> post == pre && res_matches(widen_res8(r), Err::<u32, _>(MemExceptionKind::Misaligned), (addr - 0x8081_0000) as u32, timer_ident(pre.timer1.label)))
    &&& (0x8081_0000 <= addr <= 0x8081_001f && (addr - 0x8081_0000) as u32 % 4 == 0 ==> ({
        let (s2, abs) = pre.timer1.read32_abs(pre.now_ns, (addr - 0x8081_0000) as u32);
        post == (Ts7200Bus { timer1: s2, ..pre }) && (match abs {
            Ok(w) => r matches Ok(v) && v == w % 0x100,
            Err(k) => res_matches(widen_res8(r), Err::<u32, _>(k), (addr - 0x8081_0000) as u32, timer_ident(pre.timer1.label)),
        })
    }))
    &&& (0x8081_0020 <= addr <= 0x8081_003f && (addr - 0x8081_0020) as u32 % 4 != 0 ==> post == pre && res_matches(widen_res8(r), Err::<u32, _>(MemExceptionKind::Misaligned), (addr - 0x8081_0020) as u32, timer_ident(pre.timer2.label)))
    &&& (0x8081_0020 <= addr <= 0x8081_003f && (addr - 0x8081_0020) as u32 % 4 == 0 ==> ({
        let (s2, abs) = pre.timer2.read32_abs(pre.now_ns, (addr - 0x8081_0020) as u32);
        post == (Ts7200Bus { timer2: s2, ..pre }) && (match abs {
            Ok(w) => r matches Ok(v) && v == w % 0x100,
            Err(k) => res_matches(widen_res8(r), Err::<u32, _>(k), (addr - 0x8081_0020) as u32, timer_ident(pre.timer2.label)),
        })
    }))
    &&& (0x8081_0080 <= addr <= 0x8081_009f && (addr - 0x8081_0080) as u32 % 4 != 0 ==> post == pre && res_matches(widen_res8(r), Err::<u32, _>(MemExceptionKind::Misaligned), (addr - 0x8081_0080) as u32, timer_ident(pre.timer3.label)))
    &&& (0x8081_0080 <= addr <= 0x8081_009f && (addr - 0x8081_0080) as u32 % 4 == 0 ==> ({
        let (s2, abs) = pre.timer3.read32_abs(pre.now_ns, (addr - 0x8081_0080) as u32);
        post == (Ts7200Bus { timer3: s2, ..pre }) && (match abs {
            Ok(w) => r matches Ok(v) && v == w % 0x100,
            Err(k) => res_matches(widen_res8(r), Err::<u32, _>(k), (addr - 0x8081_0080) as u32, timer_ident(pre.timer3.label)),
        })
    }))
    &&& (0x808c_0000 <= addr <= 0x808c_ffff && (addr - 0x808c_0000) as u32 % 4 != 0 ==> post == pre && res_matches(widen_res8(r), Err::<u32, _>(MemExceptionKind::Misaligned), (addr - 0x808c_0000) as u32, uart_ident(pre.uart1.label)))
    &&& (0x808c_0000 <= addr <= 0x808c_ffff && (addr - 0x808c_0000) as u32 % 4 == 0 ==> ({
        let (s2, abs, es) = pre.uart1@.read32_abs((addr - 0x808c_0000) as u32);
        post == (Ts7200Bus { uart1: post.uart1, ..pre }) && post.uart1@ == s2 && post.uart1.label == pre.uart1.label && (match abs {
            Ok(w) => r matches Ok(v) && v == w % 0x100,
            Err(k) => res_matches(widen_res8(r), Err::<u32, _>(k), (addr - 0x808c_0000) as u32, uart_ident(pre.uart1.label)),
        })
    }))
    &&& (0x808d_0000 <= addr <= 0x808d_ffff && (addr - 0x808d_0000) as u32 % 4 != 0 ==> post == pre && res_matches(widen_res8(r), Err::<u32, _>(MemExceptionKind::Misaligned), (addr - 0x808d_0000) as u32, uart_ident(pre.uart2.label)))
    &&& (0x808d_0000 <= addr <= 0x808d_ffff && (addr - 0x808d_0000) as u32 % 4 == 0 ==> ({
        let (s2, abs, es) = pre.uart2@.read32_abs((addr - 0x808d_0000) as u32);
        post == (Ts7200Bus { uart2: post.uart2, ..pre }) && post.uart2@ == s2 && post.uart2.label == pre.uart2.label && (match abs {
            Ok(w) => r matches Ok(v) && v == w % 0x100,
            Err(k) => res_matches(widen_res8(r), Err::<u32, _>(k), (addr - 0x808d_0000) as u32, uart_ident(pre.uart2.label)),
        })
    }))
    &&& (0x808e_0000 <= addr <= 0x808e_ffff && pre.uart3_hack is None ==> post == pre && res_matches(widen_res8(r), Err::<u32, _>(MemExceptionKind::Unexpected), addr, "Ts7200"@))
    &&& (0x808e_0000 <= addr <= 0x808e_ffff && (addr - 0x808e_0000) as u32 % 4 != 0 ==> (pre.uart3_hack matches Some(u) ==> post == pre && res_matches(widen_res8(r), Err::<u32, _>(MemExceptionKind::Misaligned), (addr - 0x808e_0000) as u32, uart_ident(u.label))))
    &&& (0x808e_0000 <= addr <= 0x808e_ffff && (addr - 0x808e_0000) as u32 % 4 == 0 ==> (pre.uart3_hack matches Some(u) ==> ({
        let (s2, abs, es) = u@.read32_abs((addr - 0x808e_0000) as u32);
        post == (Ts7200Bus { uart3_hack: post.uart3_hack, ..pre }) && (post.uart3_hack matches Some(u2) && u2@ == s2 && u2.label == u.label) && (match abs {
            Ok(w) => r matches Ok(v) && v == w % 0x100,
            Err(k) => res_matches(widen_res8(r), Err::<u32, _>(k), (addr - 0x808e_0000) as u32, uart_ident(u.label)),
        })
    })))
    &&& (0x8093_0000 <= addr <= 0x8093_ffff && (addr - 0x8093_0000) as u32 % 4 != 0 ==> post == pre && res_matches(widen_res8(r), Err::<u32, _>(MemExceptionKind::Misaligned), (addr - 0x8093_0000) as u32, "System Controller"@))
    &&& (0x8093_0000 <= addr <= 0x8093_ffff && (addr - 0x8093_0000) as u32 % 4 == 0 ==> ({
        let (s2, abs) = pre.syscon.read32_abs((addr - 0x8093_0000) as u32);
        post == (Ts7200Bus { syscon: s2, ..pre }) && (match abs {
            Ok(w) => r matches Ok(v) && v == w % 0x100,
            Err(k) => res_matches(widen_res8(r), Err::<u32, _>(k), (addr - 0x8093_0000) as u32, "System Controller"@),
        })
    }))
    &&& (!(addr <= 0x01ff_ffff) && !(0x800b_0000 <= addr <= 0x800c_ffff) && !(0x8081_0000 <= addr <= 0x8081_001f) && !(0x8081_0020 <= addr <= 0x8081_003f) && !(0x8081_0080 <= addr <= 0x8081_009f) && !(0x808c_0000 <= addr <= 0x808c_ffff) && !(0x808d_0000 <= addr <= 0x808d_ffff) && !(0x808e_0000 <= addr <= 0x808e_ffff) && !(0x8093_0000 <= addr <= 0x8093_ffff) ==> post == pre && res_matches(widen_res8(r), Err::<u32, _>(MemExceptionKind::Unexpected), addr, "Ts7200"@))
}

/// The full effect of a halfword read on the bus: byte-granular against RAM,
/// rejected as `Misaligned` at unaligned register offsets, and otherwise the
/// 32-bit read truncated. (Aligned narrow reads of the interrupt controller
/// window are left unspecified beyond the controller's own contract.)
pub open spec fn bus_r16_rel(pre: Ts7200Bus, post: Ts7200Bus, addr: u32, r: MemResult<u16>) -> bool {
    &&& (addr <= 0x01ff_ffff ==> post == pre && res_matches(widen_res16(r), read_abs(pre.sdram.mem@, pre.sdram.initialized@, addr, 2), addr, "Ram"@))
    &&& (0x800b_0000 <= addr <= 0x800c_ffff && (addr - 0x800b_0000) as u32 % 4 != 0 ==> post == pre && res_matches(widen_res16(r), Err::<u32, _>(MemExceptionKind::Misaligned), (addr - 0x800b_0000) as u32, "VicManager"@))
    &&& (0x8081_0000 <= addr <= 0x8081_001f && (addr - 0x8081_0000) as u32 % 4 != 0 ==> post == pre && res_matches(widen_res16(r), Err::<u32, _>(MemExceptionKind::Misaligned), (addr - 0x8081_0000) as u32, timer_ident(pre.timer1.label)))
    &&& (0x8081_0000 <= addr <= 0x8081_001f && (addr - 0x8081_0000) as u32 % 4 == 0 ==> ({
        let (s2, abs) = pre.timer1.read32_abs(pre.now_ns, (addr - 0x8081_0000) as u32);
        post == (Ts7200Bus { timer1: s2, ..pre }) && (match abs {
            Ok(w) => r matches Ok(v) && v == w % 0x1_0000,
            Err(k) => res_matches(widen_res16(r), Err::<u32, _>(k), (addr - 0x8081_0000) as u32, timer_ident(pre.timer1.label)),
        })
    }))
    &&& (0x8081_0020 <= addr <= 0x8081_003f && (addr - 0x8081_0020) as u32 % 4 != 0 ==> post == pre && res_matches(widen_res16(r), Err::<u32, _>(MemExceptionKind::Misaligned), (addr - 0x8081_0020) as u32, timer_ident(pre.timer2.label)))
    &&& (0x8081_0020 <= addr <= 0x8081_003f && (addr - 0x8081_0020) as u32 % 4 == 0 ==> ({
        let (s2, abs) = pre.timer2.read32_abs(pre.now_ns, (addr - 0x8081_0020) as u32);
        post == (Ts7200Bus { timer2: s2, ..pre }) && (match abs {
            Ok(w) => r matches Ok(v) && v == w % 0x1_0000,
            Err(k) => res_matches(widen_res16(r), Err::<u32, _>(k), (addr - 0x8081_0020) as u32, timer_ident(pre.timer2.label)),
        })
    }))
    &&& (0x8081_0080 <= addr <= 0x8081_009f && (addr - 0x8081_0080) as u32 % 4 != 0 ==> post == pre && res_matches(widen_res16(r), Err::<u32, _>(MemExceptionKind::Misaligned), (addr - 0x8081_0080) as u32, timer_ident(pre.timer3.label)))
    &&& (0x8081_0080 <= addr <= 0x8081_009f && (addr - 0x8081_0080) as u32 % 4 == 0 ==> ({
        let (s2, abs) = pre.timer3.read32_abs(pre.now_ns, (addr - 0x8081_0080) as u32);
        post == (Ts7200Bus { timer3: s2, ..pre }) && (match abs {
            Ok(w) => r matches Ok(v) && v == w % 0x1_0000,
            Err(k) => res_matches(widen_res16(r), Err::<u32, _>(k), (addr - 0x8081_0080) as u32, timer_ident(pre.timer3.label)),
        })
    }))
    &&& (0x808c_0000 <= addr <= 0x808c_ffff && (addr - 0x808c_0000) as u32 % 4 != 0 ==> post == pre && res_matches(widen_res16(r), Err::<u32, _>(MemExceptionKind::Misaligned), (addr - 0x808c_0000) as u32, uart_ident(pre.uart1.label)))
    &&& (0x808c_0000 <= addr <= 0x808c_ffff && (addr - 0x808c_0000) as u32 % 4 == 0 ==> ({
        let (s2, abs, es) = pre.uart1@.read32_abs((addr - 0x808c_0000) as u32);
        post == (Ts7200Bus { uart1: post.uart1, ..pre }) && post.uart1@ == s2 && post.uart1.label == pre.uart1.label && (match abs {
            Ok(w) => r matches Ok(v) && v == w % 0x1_0000,
            Err(k) => res_matches(widen_res16(r), Err::<u32, _>(k), (addr - 0x808c_0000) as u32, uart_ident(pre.uart1.label)),
        })
    }))
    &&& (0x808d_0000 <= addr <= 0x808d_ffff && (addr - 0x808d_0000) as u32 % 4 != 0 ==> post == pre && res_matches(widen_res16(r), Err::<u32, _>(MemExceptionKind::Misaligned), (addr - 0x808d_0000) as u32, uart_ident(pre.uart2.label)))
    &&& (0x808d_0000 <= addr <= 0x808d_ffff && (addr - 0x808d_0000) as u32 % 4 == 0 ==> ({
        let (s2, abs, es) = pre.uart2@.read32_abs((addr - 0x808d_0000) as u32);
        post == (Ts7200Bus { uart2: post.uart2, ..pre }) && post.uart2@ == s2 && post.uart2.label == pre.uart2.label && (match abs {
            Ok(w) => r matches Ok(v) && v == w % 0x1_0000,
            Err(k) => res_matches(widen_res16(r), Err::<u32, _>(k), (addr - 0x808d_0000) as u32, uart_ident(pre.uart2.label)),
        })
    }))
    &&& (0x808e_0000 <= addr <= 0x808e_ffff && pre.uart3_hack is None ==> post == pre && res_matches(widen_res16(r), Err::<u32, _>(MemExceptionKind::Unexpected), addr, "Ts7200"@))
    &&& (0x808e_0000 <= addr <= 0x808e_ffff && (addr - 0x808e_0000) as u32 % 4 != 0 ==> (pre.uart3_hack matches Some(u) ==> post == pre && res_matches(widen_res16(r), Err::<u32, _>(MemExceptionKind::Misaligned), (addr - 0x808e_0000) as u32, uart_ident(u.label))))
    &&& (0x808e_0000 <= addr <= 0x808e_ffff && (addr - 0x808e_0000) as u32 % 4 == 0 ==> (pre.uart3_hack matches Some(u) ==> ({
        let (s2, abs, es) = u@.read32_abs((addr - 0x808e_0000) as u32);
        post == (Ts7200Bus { uart3_hack: post.uart3_hack, ..pre }) && (post.uart3_hack matches Some(u2) && u2@ == s2 && u2.label == u.label) && (match abs {
            Ok(w) => r matches Ok(v) && v == w % 0x1_0000,
            Err(k) => res_matches(widen_res16(r), Err::<u32, _>(k), (addr - 0x808e_0000) as u32, uart_ident(u.label)),
        })
    })))
    &&& (0x8093_0000 <= addr <= 0x8093_ffff && (addr - 0x8093_0000) as u32 % 4 != 0 ==> post == pre && res_matches(widen_res16(r), Err::<u32, _>(MemExceptionKind::Misaligned), (addr - 0x8093_0000) as u32, "System Controller"@))
    &&& (0x8093_0000 <= addr <= 0x8093_ffff && (addr - 0x8093_0000) as u32 % 4 == 0 ==> ({
        let (s2, abs) = pre.syscon.read32_abs((addr - 0x8093_0000) as u32);
        post == (Ts7200Bus { syscon: s2, ..pre }) && (match abs {
            Ok(w) => r matches Ok(v) && v == w % 0x1_0000,
            Err(k) => res_matches(widen_res16(r), Err::<u32, _>(k), (addr - 0x8093_0000) as u32, "System Controller"@),
        })
    }))
    &&& (!(addr <= 0x01ff_ffff) && !(0x800b_0000 <= addr <= 0x800c_ffff) && !(0x8081_0000 <= addr <= 0x8081_001f) && !(0x8081_0020 <= addr <= 0x8081_003f) && !(0x8081_0080 <= addr <= 0x8081_009f) && !(0x808c_0000 <= addr <= 0x808c_ffff) && !(0x808d_0000 <= addr <= 0x808d_ffff) && !(0x808e_0000 <= addr <= 0x808e_ffff) && !(0x8093_0000 <= addr <= 0x8093_ffff) ==> post == pre && res_matches(widen_res16(r), Err::<u32, _>(MemExceptionKind::Unexpected), addr, "Ts7200"@))
}

/// The full effect of a byte write on the bus: byte-granular against RAM,
/// rejected as `Misaligned` at unaligned register offsets, and otherwise the
/// value widened and forwarded to the 32-bit write.
pub open spec fn bus_w8_rel(pre: Ts7200Bus, post: Ts7200Bus, addr: u32, val: u8, r: MemResult<()>) -> bool {
    &&& (addr <= 0x01ff_ffff && addr + 1 <= pre.sdram.mem@.len() ==> r is Ok && post == (Ts7200Bus { sdram: post.sdram, ..pre }) && post.sdram.mem@ == pre.sdram.mem@.update(addr as int, val) && post.sdram.initialized@ == pre.sdram.initialized@.update(addr as int, true))
    &&& (addr <= 0x01ff_ffff && addr + 1 > pre.sdram.mem@.len() ==> post == pre && res_matches(r, Err::<(), _>(MemExceptionKind::Unexpected), addr, "Ram"@))
    &&& (0x800b_0000 <= addr <= 0x800c_ffff && (addr - 0x800b_0000) as u32 % 4 != 0 ==> post == pre && res_matches(r, Err::<(), _>(MemExceptionKind::Misaligned), (addr - 0x800b_0000) as u32, "VicManager"@))
    &&& (0x800b_0000 <= addr <= 0x800c_ffff && (addr - 0x800b_0000) as u32 % 4 == 0 ==> post == (Ts7200Bus { vicmgr: post.vicmgr, ..pre }) && vm_w32_rel(pre.vicmgr, post.vicmgr, (addr - 0x800b_0000) as u32, val as u32, r))
    &&& (0x8081_0000 <= addr <= 0x8081_001f && (addr - 0x8081_0000) as u32 % 4 != 0 ==> post == pre && res_matches(r, Err::<(), _>(MemExceptionKind::Misaligned), (addr - 0x8081_0000) as u32, timer_ident(pre.timer1.label)))
    &&& (0x8081_0000 <= addr <= 0x8081_001f && (addr - 0x8081_0000) as u32 % 4 == 0 ==> ({
        let (s2, abs, cmd, edge) = pre.timer1.write32_abs(pre.now_ns, (addr - 0x8081_0000) as u32, val as u32);
        post == (Ts7200Bus { timer1: s2, timer_cmds: post.timer_cmds, ..pre }) && res_matches(r, abs, (addr - 0x8081_0000) as u32, timer_ident(pre.timer1.label)) && post.timer_cmds@ == (match cmd {
            Some(cm) => pre.timer_cmds@.push((1u8, cm)),
            None => pre.timer_cmds@,
        })
    }))
    &&& (0x8081_0020 <= addr <= 0x8081_003f && (addr - 0x8081_0020) as u32 % 4 != 0 ==> post == pre && res_matches(r, Err::<(), _>(MemExceptionKind::Misaligned), (addr - 0x8081_0020) as u32, timer_ident(pre.timer2.label)))
    &&& (0x8081_0020 <= addr <= 0x8081_003f && (addr - 0x8081_0020) as u32 % 4 == 0 ==> ({
        let (s2, abs, cmd, edge) = pre.timer2.write32_abs(pre.now_ns, (addr - 0x8081_0020) as u32, val as u32);
        post == (Ts7200Bus { timer2: s2, timer_cmds: post.timer_cmds, ..pre }) && res_matches(r, abs, (addr - 0x8081_0020) as u32, timer_ident(pre.timer2.label)) && post.timer_cmds@ == (match cmd {
            Some(cm) => pre.timer_cmds@.push((2u8, cm)),
            None => pre.timer_cmds@,
        })
    }))
    &&& (0x8081_0080 <= addr <= 0x8081_009f && (addr - 0x8081_0080) as u32 % 4 != 0 ==> post == pre && res_matches(r, Err::<(), _>(MemExceptionKind::Misaligned), (addr - 0x8081_0080) as u32, timer_ident(pre.timer3.label)))
    &&& (0x8081_0080 <= addr <= 0x8081_009f && (addr - 0x8081_0080) as u32 % 4 == 0 ==> ({
        let (s2, abs, cmd, edge) = pre.timer3.write32_abs(pre.now_ns, (addr - 0x8081_0080) as u32, val as u32);
        post == (Ts7200Bus { timer3: s2, timer_cmds: post.timer_cmds, ..pre }) && res_matches(r, abs, (addr - 0x8081_0080) as u32, timer_ident(pre.timer3.label)) && post.timer_cmds@ == (match cmd {
            Some(cm) => pre.timer_cmds@.push((3u8, cm)),
            None => pre.timer_cmds@,
        })
    }))
    &&& (0x808c_0000 <= addr <= 0x808c_ffff && (addr - 0x808c_0000) as u32 % 4 != 0 ==> post == pre && res_matches(r, Err::<(), _>(MemExceptionKind::Misaligned), (addr - 0x808c_0000) as u32, uart_ident(pre.uart1.label)))
    &&& (0x808c_0000 <= addr <= 0x808c_ffff && (addr - 0x808c_0000) as u32 % 4 == 0 ==> ({
        let (s2, abs, es, out) = pre.uart1@.write32_abs((addr - 0x808c_0000) as u32, val as u32);
        post == (Ts7200Bus { uart1: post.uart1, ..pre }) && post.uart1@ == s2 && post.uart1.label == pre.uart1.label && res_matches(r, abs, (addr - 0x808c_0000) as u32, uart_ident(pre.uart1.label))
    }))
    &&& (0x808d_0000 <= addr <= 0x808d_ffff && (addr - 0x808d_0000) as u32 % 4 != 0 ==> post == pre && res_matches(r, Err::<(), _>(MemExceptionKind::Misaligned), (addr - 0x808d_0000) as u32, uart_ident(pre.uart2.label)))
    &&& (0x808d_0000 <= addr <= 0x808d_ffff && (addr - 0x808d_0000) as u32 % 4 == 0 ==> ({
        let (s2, abs, es, out) = pre.uart2@.write32_abs((addr - 0x808d_0000) as u32, val as u32);
        post == (Ts7200Bus { uart2: post.uart2, ..pre }) && post.uart2@ == s2 && post.uart2.label == pre.uart2.label && res_matches(r, abs, (addr - 0x808d_0000) as u32, uart_ident(pre.uart2.label))
    }))
    &&& (0x808e_0000 <= addr <= 0x808e_ffff && pre.uart3_hack is None ==> post == pre && res_matches(r, Err::<(), _>(MemExceptionKind::Unexpected), addr, "Ts7200"@))
    &&& (0x808e_0000 <= addr <= 0x808e_ffff && (addr - 0x808e_0000) as u32 % 4 != 0 ==> (pre.uart3_hack matches Some(u) ==> post == pre && res_matches(r, Err::<(), _>(MemExceptionKind::Misaligned), (addr - 0x808e_0000) as u32, uart_ident(u.label))))
    &&& (0x808e_0000 <= addr <= 0x808e_ffff && (addr - 0x808e_0000) as u32 % 4 == 0 ==> (pre.uart3_hack matches Some(u) ==> ({
        let (s2, abs, es, out) = u@.write32_abs((addr - 0x808e_0000) as u32, val as u32);
        post == (Ts7200Bus { uart3_hack: post.uart3_hack, ..pre }) && (post.uart3_hack matches Some(u2) && u2@ == s2 && u2.label == u.label) && res_matches(r, abs, (addr - 0x808e_0000) as u32, uart_ident(u.label))
    })))
    &&& (0x8093_0000 <= addr <= 0x8093_ffff && (addr - 0x8093_0000) as u32 % 4 != 0 ==> post == pre && res_matches(r, Err::<(), _>(MemExceptionKind::Misaligned), (addr - 0x8093_0000) as u32, "System Controller"@))
    &&& (0x8093_0000 <= addr <= 0x8093_ffff && (addr - 0x8093_0000) as u32 % 4 == 0 ==> ({
        let (s2, abs) = pre.syscon.write32_abs((addr - 0x8093_0000) as u32, val as u32);
        post == (Ts7200Bus { syscon: s2, ..pre }) && res_matches(r, abs, (addr - 0x8093_0000) as u32, "System Controller"@)
    }))
    &&& (!(addr <= 0x01ff_ffff) && !(0x800b_0000 <= addr <= 0x800c_ffff) && !(0x8081_0000 <= addr <= 0x8081_001f) && !(0x8081_0020 <= addr <= 0x8081_003f) && !(0x8081_0080 <= addr <= 0x8081_009f) && !(0x808c_0000 <= addr <= 0x808c_ffff) && !(0x808d_0000 <= addr <= 0x808d_ffff) && !(0x808e_0000 <= addr <= 0x808e_ffff) && !(0x8093_0000 <= addr <= 0x8093_ffff) ==> post == pre && res_matches(r, Err::<(), _>(MemExceptionKind::Unexpected), addr, "Ts7200"@))
}

/// The full effect of a halfword write on the bus: byte-granular against RAM,
/// rejected as `Misaligned` at unaligned register offsets, and otherwise the
/// value widened and forwarded to the 32-bit write.
pub open spec fn bus_w16_rel(pre: Ts7200Bus, post: Ts7200Bus, addr: u32, val: u16, r: MemResult<()>) -> bool {
    &&& (addr <= 0x01ff_ffff && addr + 2 <= pre.sdram.mem@.len() ==> r is Ok && post == (Ts7200Bus { sdram: post.sdram, ..pre }) && post.sdram.mem@ == store16(pre.sdram.mem@, addr as int, val) && post.sdram.initialized@ == mark_init(pre.sdram.initialized@, addr as int, 2))
    &&& (addr <= 0x01ff_ffff && addr + 2 > pre.sdram.mem@.len() ==> post == pre && res_matches(r, Err::<(), _>(MemExceptionKind::Unexpected), addr, "Ram"@))
    &&& (0x800b_0000 <= addr <= 0x800c_ffff && (addr - 0x800b_0000) as u32 % 4 != 0 ==> post == pre && res_matches(r, Err::<(), _>(MemExceptionKind::Misaligned), (addr - 0x800b_0000) as u32, "VicManager"@))
    &&& (0x800b_0000 <= addr <= 0x800c_ffff && (addr - 0x800b_0000) as u32 % 4 == 0 ==> post == (Ts7200Bus { vicmgr: post.vicmgr, ..pre }) && vm_w32_rel(pre.vicmgr, post.vicmgr, (addr - 0x800b_0000) as u32, val as u32, r))
    &&& (0x8081_0000 <= addr <= 0x8081_001f && (addr - 0x8081_0000) as u32 % 4 != 0 ==> post == pre && res_matches(r, Err::<(), _>(MemExceptionKind::Misaligned), (addr - 0x8081_0000) as u32, timer_ident(pre.timer1.label)))
    &&& (0x8081_0000 <= addr <= 0x8081_001f && (addr - 0x8081_0000) as u32 % 4 == 0 ==> ({
        let (s2, abs, cmd, edge) = pre.timer1.write32_abs(pre.now_ns, (addr - 0x8081_0000) as u32, val as u32);
        post == (Ts7200Bus { timer1: s2, timer_cmds: post.timer_cmds, ..pre }) && res_matches(r, abs, (addr - 0x8081_0000) as u32, timer_ident(pre.timer1.label)) && post.timer_cmds@ == (match cmd {
            Some(cm) => pre.timer_cmds@.push((1u8, cm)),
            None => pre.timer_cmds@,
        })
    }))
    &&& (0x8081_0020 <= addr <= 0x8081_003f && (addr - 0x8081_0020) as u32 % 4 != 0 ==> post == pre && res_matches(r, Err::<(), _>(MemExceptionKind::Misaligned), (addr - 0x8081_0020) as u32, timer_ident(pre.timer2.label)))
    &&& (0x8081_0020 <= addr <= 0x8081_003f && (addr - 0x8081_0020) as u32 % 4 == 0 ==> ({
        let (s2, abs, cmd, edge) = pre.timer2.write32_abs(pre.now_ns, (addr - 0x8081_0020) as u32, val as u32);
        post == (Ts7200Bus { timer2: s2, timer_cmds: post.timer_cmds, ..pre }) && res_matches(r, abs, (addr - 0x8081_0020) as u32, timer_ident(pre.timer2.label)) && post.timer_cmds@ == (match cmd {
            Some(cm) => pre.timer_cmds@.push((2u8, cm)),
            None => pre.timer_cmds@,
        })
    }))
    &&& (0x8081_0080 <= addr <= 0x8081_009f && (addr - 0x8081_0080) as u32 % 4 != 0 ==> post == pre && res_matches(r, Err::<(), _>(MemExceptionKind::Misaligned), (addr - 0x8081_0080) as u32, timer_ident(pre.timer3.label)))
    &&& (0x8081_0080 <= addr <= 0x8081_009f && (addr - 0x8081_0080) as u32 % 4 == 0 ==> ({
        let (s2, abs, cmd, edge) = pre.timer3.write32_abs(pre.now_ns, (addr - 0x8081_0080) as u32, val as u32);
        post == (Ts7200Bus { timer3: s2, timer_cmds: post.timer_cmds, ..pre }) && res_matches(r, abs, (addr - 0x8081_0080) as u32, timer_ident(pre.timer3.label)) && post.timer_cmds@ == (match cmd {
            Some(cm) => pre.timer_cmds@.push((3u8, cm)),
            None => pre.timer_cmds@,
        })
    }))
    &&& (0x808c_0000 <= addr <= 0x808c_ffff && (addr - 0x808c_0000) as u32 % 4 != 0 ==> post == pre && res_matches(r, Err::<(), _>(MemExceptionKind::Misaligned), (addr - 0x808c_0000) as u32, uart_ident(pre.uart1.label)))
    &&& (0x808c_0000 <= addr <= 0x808c_ffff && (addr - 0x808c_0000) as u32 % 4 == 0 ==> ({
        let (s2, abs, es, out) = pre.uart1@.write32_abs((addr - 0x808c_0000) as u32, val as u32);
        post == (Ts7200Bus { uart1: post.uart1, ..pre }) && post.uart1@ == s2 && post.uart1.label == pre.uart1.label && res_matches(r, abs, (addr - 0x808c_0000) as u32, uart_ident(pre.uart1.label))
    }))
    &&& (0x808d_0000 <= addr <= 0x808d_ffff && (addr - 0x808d_0000) as u32 % 4 != 0 ==> post == pre && res_matches(r, Err::<(), _>(MemExceptionKind::Misaligned), (addr - 0x808d_0000) as u32, uart_ident(pre.uart2.label)))
    &&& (0x808d_0000 <= addr <= 0x808d_ffff && (addr - 0x808d_0000) as u32 % 4 == 0 ==> ({
        let (s2, abs, es, out) = pre.uart2@.write32_abs((addr - 0x808d_0000) as u32, val as u32);
        post == (Ts7200Bus { uart2: post.uart2, ..pre }) && post.uart2@ == s2 && post.uart2.label == pre.uart2.label && res_matches(r, abs, (addr - 0x808d_0000) as u32, uart_ident(pre.uart2.label))
    }))
    &&& (0x808e_0000 <= addr <= 0x808e_ffff && pre.uart3_hack is None ==> post == pre && res_matches(r, Err::<(), _>(MemExceptionKind::Unexpected), addr, "Ts7200"@))
    &&& (0x808e_0000 <= addr <= 0x808e_ffff && (addr - 0x808e_0000) as u32 % 4 != 0 ==> (pre.uart3_hack matches Some(u) ==> post == pre && res_matches(r, Err::<(), _>(MemExceptionKind::Misaligned), (addr - 0x808e_0000) as u32, uart_ident(u.label))))
    &&& (0x808e_0000 <= addr <= 0x808e_ffff && (addr - 0x808e_0000) as u32 % 4 == 0 ==> (pre.uart3_hack matches Some(u) ==> ({
        let (s2, abs, es, out) = u@.write32_abs((addr - 0x808e_0000) as u32, val as u32);
        post == (Ts7200Bus { uart3_hack: post.uart3_hack, ..pre }) && (post.uart3_hack matches Some(u2) && u2@ == s2 && u2.label == u.label) && res_matches(r, abs, (addr - 0x808e_0000) as u32, uart_ident(u.label))
    })))
    &&& (0x8093_0000 <= addr <= 0x8093_ffff && (addr - 0x8093_0000) as u32 % 4 != 0 ==> post == pre && res_matches(r, Err::<(), _>(MemExceptionKind::Misaligned), (addr - 0x8093_0000) as u32, "System Controller"@))
    &&& (0x8093_0000 <= addr <= 0x8093_ffff && (addr - 0x8093_0000) as u32 % 4 == 0 ==> ({
        let (s2, abs) = pre.syscon.write32_abs((addr - 0x8093_0000) as u32, val as u32);
        post == (Ts7200Bus { syscon: s2, ..pre }) && res_matches(r, abs, (addr - 0x8093_0000) as u32, "System Controller"@)
    }))
    &&& (!(addr <= 0x01ff_ffff) && !(0x800b_0000 <= addr <= 0x800c_ffff) && !(0x8081_0000 <= addr <= 0x8081_001f) && !(0x8081_0020 <= addr <= 0x8081_003f) && !(0x8081_0080 <= addr <= 0x8081_009f) && !(0x808c_0000 <= addr <= 0x808c_ffff) && !(0x808d_0000 <= addr <= 0x808d_ffff) && !(0x808e_0000 <= addr <= 0x808e_ffff) && !(0x8093_0000 <= addr <= 0x8093_ffff) ==> post == pre && res_matches(r, Err::<(), _>(MemExceptionKind::Unexpected), addr, "Ts7200"@))
}

impl Ts7200Bus {
    /// Every device on the bus is well formed and the SDRAM spans exactly
    /// its 32 MiB window.
    pub open spec fn wf(&self) -> bool {
        &&& self.sdram.inv()
        &&& self.sdram.mem@.len() == 0x0200_0000
        &&& self.timer1.wf()
        &&& self.timer2.wf()
        &&& self.timer3.wf()
        &&& self.uart1.wf()
        &&& self.uart2.wf()
        &&& (self.uart3_hack matches Some(u) ==> u.wf())
        &&& self.vicmgr.wf()
    }

    /// Build the board's devices in the state the bootloader leaves them,
    /// publishing interrupt edges on `interrupt_tx`.
    pub fn new_hle(interrupt_tx: crossbeam_channel::Sender<(Interrupt, bool)>) -> (r: Ts7200Bus)
        ensures
            r.wf(),
            forall|i: int| 0 <= i < 0x0200_0000 ==> r.sdram.mem@[i] == 0x2du8,
            forall|i: int| 0 <= i < 0x0200_0000 ==> !r.sdram.initialized@[i],
            r.syscon.is_locked && r.syscon.device_cfg == 0x0894_0d00u32 && r.syscon.power_state
                == crate::syscon::PowerState::Run && r.syscon.scratch0 == 0 && r.syscon.scratch1
                == 0,
            !r.timer1.enabled && r.timer1.wrapmask == 0xFFFFu32 && r.timer1.interrupt
                == Interrupt::Tc1Ui && r.timer1.loadval is None,
            !r.timer2.enabled && r.timer2.wrapmask == 0xFFFFu32 && r.timer2.interrupt
                == Interrupt::Tc2Ui && r.timer2.loadval is None,
            !r.timer3.enabled && r.timer3.wrapmask == 0xFFFF_FFFFu32 && r.timer3.interrupt
                == Interrupt::Tc3Ui && r.timer3.loadval is None,
            r.uart1@.fifo_size == 16 && r.uart1@.rx_buf == Seq::<u8>::empty() && r.uart1@.tx_buf_size
                == 0 && r.uart1@.interrupts == uart1_ints(),
            r.uart2@.fifo_size == 16 && r.uart2@.rx_buf == Seq::<u8>::empty() && r.uart2@.tx_buf_size
                == 0 && r.uart2@.interrupts == uart2_ints(),
            r.uart3_hack is None,
            r.vicmgr.vic1.status == 0 && r.vicmgr.vic1.enabled == 0 && r.vicmgr.vic1.select == 0
                && r.vicmgr.vic1.software_status == 0 && r.vicmgr.vic1.default_isr == 0,
            r.vicmgr.vic2.status == 0 && r.vicmgr.vic2.enabled == 0 && r.vicmgr.vic2.select == 0
                && r.vicmgr.vic2.software_status == 0 && r.vicmgr.vic2.default_isr == 0,
            r.now_ns == 0,
            r.timer_cmds@ == Seq::<(u8, TimerCmd)>::empty(),
            r.uart1_out_rx is Some && r.uart2_out_rx is Some,
    {
        let (u1_tx, u1_rx) = chan_unbounded::<u8>();
        let (u2_tx, u2_rx) = chan_unbounded::<u8>();
        Ts7200Bus {
            sdram: Ram::new(0x0200_0000),
            syscon: Syscon::new_hle(),
            timer1: Timer::new("timer1", Interrupt::Tc1Ui, 16),
            timer2: Timer::new("timer2", Interrupt::Tc2Ui, 16),
            timer3: Timer::new("timer3", Interrupt::Tc3Ui, 32),
            uart1: Uart::new_hle("uart1", uart1_ints_exec()),
            uart2: Uart::new_hle("uart2", uart2_ints_exec()),
            uart3_hack: None,
            vicmgr: VicManager::new(),
            now_ns: 0,
            timer_cmds: Vec::new(),
            interrupt_tx,
            uart1_out_tx: u1_tx,
            uart2_out_tx: u2_tx,
            uart3_out_tx: None,
            uart1_out_rx: Some(u1_rx),
            uart2_out_rx: Some(u2_rx),
            uart3_out_rx: None,
        }
    }

    /// Bring the bus's notion of the current monotonic time forward; the
    /// lazy timers are updated against it on their next access.
    pub fn set_now(&mut self, now_ns: u64)
        ensures
            *final(self) == (Ts7200Bus { now_ns, ..*old(self) }),
    {
        self.now_ns = now_ns;
    }

    /// Drain the pending timer interrupter commands for the runner.
    pub fn take_timer_cmds(&mut self) -> (r: Vec<(u8, TimerCmd)>)
        ensures
            *final(self) == (Ts7200Bus { timer_cmds: final(self).timer_cmds, ..*old(self) }),
            final(self).timer_cmds@ == Seq::<(u8, TimerCmd)>::empty(),
            r@ == old(self).timer_cmds@,
    {
        let mut out: Vec<(u8, TimerCmd)> = Vec::new();
        core::mem::swap(&mut out, &mut self.timer_cmds);
        out
    }

    /// Hand the receiving half of UART1's outbound byte channel to the
    /// runner; available once.
    pub fn take_uart1_output(&mut self) -> (r: Option<crossbeam_channel::Receiver<u8>>)
        ensures
            *final(self) == (Ts7200Bus { uart1_out_rx: None, ..*old(self) }),
            r == old(self).uart1_out_rx,
    {
        self.uart1_out_rx.take()
    }

    /// Hand the receiving half of UART2's outbound byte channel to the
    /// runner; available once.
    pub fn take_uart2_output(&mut self) -> (r: Option<crossbeam_channel::Receiver<u8>>)
        ensures
            *final(self) == (Ts7200Bus { uart2_out_rx: None, ..*old(self) }),
            r == old(self).uart2_out_rx,
    {
        self.uart2_out_rx.take()
    }

    /// Hand the receiving half of UART3's outbound byte channel to the
    /// runner; available once UART3 has been enabled.
    pub fn take_uart3_output(&mut self) -> (r: Option<crossbeam_channel::Receiver<u8>>)
        ensures
            *final(self) == (Ts7200Bus { uart3_out_rx: None, ..*old(self) }),
            r == old(self).uart3_out_rx,
    {
        self.uart3_out_rx.take()
    }

    /// Populate the optional third UART.
    pub fn hack_uart3_enable(&mut self)
        requires
            old(self).wf(),
        ensures
            final(self).wf(),
            final(self).uart3_hack is Some,
            final(self).sdram == old(self).sdram && final(self).syscon == old(self).syscon
                && final(self).vicmgr == old(self).vicmgr && final(self).now_ns == old(self).now_ns,
    {
        let (u3_tx, u3_rx) = chan_unbounded::<u8>();
        self.uart3_hack = Some(Uart::new_hle("uart3_hack", uart3_ints_exec()));
        self.uart3_out_tx = Some(u3_tx);
        self.uart3_out_rx = Some(u3_rx);
    }

}

impl Device for Ts7200Bus {
    fn kind(&self) -> (r: &'static str)
        ensures
            r@ == "Ts7200"@,
    {
        "Ts7200"
    }

    /// Probe by recursive descent: the bus names itself, then the device
    /// that owns the address, and lets the device name its register.
    fn probe(&self, addr: u32) -> (r: Probe)
        ensures
            addr <= 0x01ff_ffff ==> (r matches Probe::Device { kind, label, next } && kind@
                == "Ts7200"@ && label is None && (*next matches Probe::Device {
                kind: k2,
                label: l2,
                next: n2,
            } && k2@ == "Ram"@ && l2 is None && *n2 is Unmapped)),
            0x8093_0000 <= addr <= 0x8093_ffff ==> (r matches Probe::Device { kind, label, next }
                && kind@ == "Ts7200"@ && (*next matches Probe::Device {
                kind: k2,
                label: l2,
                next: n2,
            } && k2@ == "System Controller"@ && (crate::syscon::syscon_reg_name(
                (addr - 0x8093_0000) as u32,
            ) matches Some(n) ==> (*n2 matches Probe::Register(s) && s@ == n)) && (
            crate::syscon::syscon_reg_name((addr - 0x8093_0000) as u32) is None ==> *n2
                is Unmapped))),
            !(addr <= 0x01ff_ffff) && !(0x800b_0000 <= addr <= 0x800c_ffff) && !(0x8081_0000 <= addr
                <= 0x8081_001f) && !(0x8081_0020 <= addr <= 0x8081_003f) && !(0x8081_0080 <= addr
                <= 0x8081_009f) && !(0x808c_0000 <= addr <= 0x808c_ffff) && !(0x808d_0000 <= addr
                <= 0x808d_ffff) && !(0x808e_0000 <= addr <= 0x808e_ffff) && !(0x8093_0000 <= addr
                <= 0x8093_ffff) ==> r is Unmapped,
    {
        let inner: Probe = if addr <= 0x01ff_ffff {
            Probe::Device {
                kind: self.sdram.kind(),
                label: None,
                next: Box::new(self.sdram.probe(addr)),
            }
        } else if 0x800b_0000 <= addr && addr <= 0x800c_ffff {
            Probe::Device {
                kind: self.vicmgr.kind(),
                label: None,
                next: Box::new(self.vicmgr.probe(addr - 0x800b_0000)),
            }
        } else if 0x8081_0000 <= addr && addr <= 0x8081_001f {
            Probe::Device {
                kind: self.timer1.kind(),
                label: self.timer1.label(),
                next: Box::new(self.timer1.probe(addr - 0x8081_0000)),
            }
        } else if 0x8081_0020 <= addr && addr <= 0x8081_003f {
            Probe::Device {
                kind: self.timer2.kind(),
                label: self.timer2.label(),
                next: Box::new(self.timer2.probe(addr - 0x8081_0020)),
            }
        } else if 0x8081_0080 <= addr && addr <= 0x8081_009f {
            Probe::Device {
                kind: self.timer3.kind(),
                label: self.timer3.label(),
                next: Box::new(self.timer3.probe(addr - 0x8081_0080)),
            }
        } else if 0x808c_0000 <= addr && addr <= 0x808c_ffff {
            Probe::Device {
                kind: self.uart1.kind(),
                label: self.uart1.label(),
                next: Box::new(self.uart1.probe(addr - 0x808c_0000)),
            }
        } else if 0x808d_0000 <= addr && addr <= 0x808d_ffff {
            Probe::Device {
                kind: self.uart2.kind(),
                label: self.uart2.label(),
                next: Box::new(self.uart2.probe(addr - 0x808d_0000)),
            }
        } else if 0x808e_0000 <= addr && addr <= 0x808e_ffff {
            match &self.uart3_hack {
                Some(u) => Probe::Device {
                    kind: u.kind(),
                    label: u.label(),
                    next: Box::new(u.probe(addr - 0x808e_0000)),
                },
                None => {
                    return Probe::Unmapped;
                },
            }
        } else if 0x8093_0000 <= addr && addr <= 0x8093_ffff {
            Probe::Device {
                kind: self.syscon.kind(),
                label: None,
                next: Box::new(self.syscon.probe(addr - 0x8093_0000)),
            }
        } else {
            return Probe::Unmapped;
        };
        Probe::Device { kind: "Ts7200", label: None, next: Box::new(inner) }
    }
}

impl Memory for Ts7200Bus {
    open spec fn inv(&self) -> bool {
        self.wf()
    }

    fn r32(&mut self, addr: u32) -> (r: MemResult<u32>)
        ensures
            bus_r32_rel(*old(self), *final(self), addr, r),
    {
        if addr <= 0x01ff_ffff {
            self.sdram.r32(addr)
        } else if 0x800b_0000 <= addr && addr <= 0x800c_ffff {
            self.vicmgr.r32(addr - 0x800b_0000)
        } else if 0x8081_0000 <= addr && addr <= 0x8081_001f {
            self.timer1.r32(self.now_ns, addr - 0x8081_0000)
        } else if 0x8081_0020 <= addr && addr <= 0x8081_003f {
            self.timer2.r32(self.now_ns, addr - 0x8081_0020)
        } else if 0x8081_0080 <= addr && addr <= 0x8081_009f {
            self.timer3.r32(self.now_ns, addr - 0x8081_0080)
        } else if 0x808c_0000 <= addr && addr <= 0x808c_ffff {
            let (res, edges) = self.uart1.r32(addr - 0x808c_0000);
            forward_edges(&self.interrupt_tx, &edges);
            res
        } else if 0x808d_0000 <= addr && addr <= 0x808d_ffff {
            let (res, edges) = self.uart2.r32(addr - 0x808d_0000);
            forward_edges(&self.interrupt_tx, &edges);
            res
        } else if 0x808e_0000 <= addr && addr <= 0x808e_ffff {
            if self.uart3_hack.is_some() {
                let mut u = self.uart3_hack.take().unwrap();
                let (res, edges) = u.r32(addr - 0x808e_0000);
                forward_edges(&self.interrupt_tx, &edges);
                self.uart3_hack = Some(u);
                res
            } else {
                Err(MemException::new(String::from_str("Ts7200"), addr, MemExceptionKind::Unexpected))
            }
        } else if 0x8093_0000 <= addr && addr <= 0x8093_ffff {
            self.syscon.r32(addr - 0x8093_0000)
        } else {
            Err(MemException::new(String::from_str("Ts7200"), addr, MemExceptionKind::Unexpected))
        }
    }

    fn w32(&mut self, addr: u32, val: u32) -> (r: MemResult<()>)
        ensures
            bus_w32_rel(*old(self), *final(self), addr, val, r),
    {
        if addr <= 0x01ff_ffff {
            self.sdram.w32(addr, val)
        } else if 0x800b_0000 <= addr && addr <= 0x800c_ffff {
            self.vicmgr.w32(addr - 0x800b_0000, val)
        } else if 0x8081_0000 <= addr && addr <= 0x8081_001f {
            let (res, cmd, edge) = self.timer1.w32(self.now_ns, addr - 0x8081_0000, val);
            match cmd {
                Some(c) => self.timer_cmds.push((1, c)),
                None => (),
            }
            match edge {
                Some(e) => chan_send(&self.interrupt_tx, e),
                None => (),
            }
            res
        } else if 0x8081_0020 <= addr && addr <= 0x8081_003f {
            let (res, cmd, edge) = self.timer2.w32(self.now_ns, addr - 0x8081_0020, val);
            match cmd {
                Some(c) => self.timer_cmds.push((2, c)),
                None => (),
            }
            match edge {
                Some(e) => chan_send(&self.interrupt_tx, e),
                None => (),
            }
            res
        } else if 0x8081_0080 <= addr && addr <= 0x8081_009f {
            let (res, cmd, edge) = self.timer3.w32(self.now_ns, addr - 0x8081_0080, val);
            match cmd {
                Some(c) => self.timer_cmds.push((3, c)),
                None => (),
            }
            match edge {
                Some(e) => chan_send(&self.interrupt_tx, e),
                None => (),
            }
            res
        } else if 0x808c_0000 <= addr && addr <= 0x808c_ffff {
            let (res, edges, out) = self.uart1.w32(addr - 0x808c_0000, val);
            forward_edges(&self.interrupt_tx, &edges);
            match out {
                Some(b) => chan_send(&self.uart1_out_tx, b),
                None => (),
            }
            res
        } else if 0x808d_0000 <= addr && addr <= 0x808d_ffff {
            let (res, edges, out) = self.uart2.w32(addr - 0x808d_0000, val);
            forward_edges(&self.interrupt_tx, &edges);
            match out {
                Some(b) => chan_send(&self.uart2_out_tx, b),
                None => (),
            }
            res
        } else if 0x808e_0000 <= addr && addr <= 0x808e_ffff {
            if self.uart3_hack.is_some() {
                let mut u = self.uart3_hack.take().unwrap();
                let (res, edges, out) = u.w32(addr - 0x808e_0000, val);
                forward_edges(&self.interrupt_tx, &edges);
                match (out, &self.uart3_out_tx) {
                    (Some(b), Some(tx)) => chan_send(tx, b),
                    _ => (),
                }
                self.uart3_hack = Some(u);
                res
            } else {
                Err(MemException::new(String::from_str("Ts7200"), addr, MemExceptionKind::Unexpected))
            }
        } else if 0x8093_0000 <= addr && addr <= 0x8093_ffff {
            self.syscon.w32(addr - 0x8093_0000, val)
        } else {
            Err(MemException::new(String::from_str("Ts7200"), addr, MemExceptionKind::Unexpected))
        }
    }

    fn r8(&mut self, addr: u32) -> (r: MemResult<u8>)
        ensures
            bus_r8_rel(*old(self), *final(self), addr, r),
    {
        if addr <= 0x01ff_ffff {
            self.sdram.r8(addr)
        } else if 0x800b_0000 <= addr && addr <= 0x800c_ffff {
            let sub = addr - 0x800b_0000;
            if sub % 4 != 0 {
                return Err(MemException::new(String::from_str("VicManager"), sub, MemExceptionKind::Misaligned));
            }
            match self.vicmgr.r32(sub) {
                Ok(v) => Ok((v % 0x100) as u8),
                Err(e) => Err(e),
            }
        } else if 0x8081_0000 <= addr && addr <= 0x8081_001f {
            let sub = addr - 0x8081_0000;
            if sub % 4 != 0 {
                return Err(MemException::new(self.timer1.ident(), sub, MemExceptionKind::Misaligned));
            }
            match self.timer1.r32(self.now_ns, sub) {
                Ok(v) => Ok((v % 0x100) as u8),
                Err(e) => Err(e),
            }
        } else if 0x8081_0020 <= addr && addr <= 0x8081_003f {
            let sub = addr - 0x8081_0020;
            if sub % 4 != 0 {
                return Err(MemException::new(self.timer2.ident(), sub, MemExceptionKind::Misaligned));
            }
            match self.timer2.r32(self.now_ns, sub) {
                Ok(v) => Ok((v % 0x100) as u8),
                Err(e) => Err(e),
            }
        } else if 0x8081_0080 <= addr && addr <= 0x8081_009f {
            let sub = addr - 0x8081_0080;
            if sub % 4 != 0 {
                return Err(MemException::new(self.timer3.ident(), sub, MemExceptionKind::Misaligned));
            }
            match self.timer3.r32(self.now_ns, sub) {
                Ok(v) => Ok((v % 0x100) as u8),
                Err(e) => Err(e),
            }
        } else if 0x808c_0000 <= addr && addr <= 0x808c_ffff {
            let sub = addr - 0x808c_0000;
            if sub % 4 != 0 {
                return Err(MemException::new(self.uart1.ident(), sub, MemExceptionKind::Misaligned));
            }
            let (res, edges) = self.uart1.r32(sub);
            forward_edges(&self.interrupt_tx, &edges);
            match res {
                Ok(v) => Ok((v % 0x100) as u8),
                Err(e) => Err(e),
            }
        } else if 0x808d_0000 <= addr && addr <= 0x808d_ffff {
            let sub = addr - 0x808d_0000;
            if sub % 4 != 0 {
                return Err(MemException::new(self.uart2.ident(), sub, MemExceptionKind::Misaligned));
            }
            let (res, edges) = self.uart2.r32(sub);
            forward_edges(&self.interrupt_tx, &edges);
            match res {
                Ok(v) => Ok((v % 0x100) as u8),
                Err(e) => Err(e),
            }
        } else if 0x808e_0000 <= addr && addr <= 0x808e_ffff {
            let sub = addr - 0x808e_0000;
            if self.uart3_hack.is_some() {
                let mut u = self.uart3_hack.take().unwrap();
                if sub % 4 != 0 {
                    let e = MemException::new(u.ident(), sub, MemExceptionKind::Misaligned);
                    self.uart3_hack = Some(u);
                    return Err(e);
                }
                let (res, edges) = u.r32(sub);
                forward_edges(&self.interrupt_tx, &edges);
                self.uart3_hack = Some(u);
                match res {
                    Ok(v) => Ok((v % 0x100) as u8),
                    Err(e) => Err(e),
                }
            } else {
                Err(MemException::new(String::from_str("Ts7200"), addr, MemExceptionKind::Unexpected))
            }
        } else if 0x8093_0000 <= addr && addr <= 0x8093_ffff {
            let sub = addr - 0x8093_0000;
            if sub % 4 != 0 {
                return Err(MemException::new(String::from_str("System Controller"), sub, MemExceptionKind::Misaligned));
            }
            match self.syscon.r32(sub) {
                Ok(v) => Ok((v % 0x100) as u8),
                Err(e) => Err(e),
            }
        } else {
            Err(MemException::new(String::from_str("Ts7200"), addr, MemExceptionKind::Unexpected))
        }
    }

    fn r16(&mut self, addr: u32) -> (r: MemResult<u16>)
        ensures
            bus_r16_rel(*old(self), *final(self), addr, r),
    {
        if addr <= 0x01ff_ffff {
            self.sdram.r16(addr)
        } else if 0x800b_0000 <= addr && addr <= 0x800c_ffff {
            let sub = addr - 0x800b_0000;
            if sub % 4 != 0 {
                return Err(MemException::new(String::from_str("VicManager"), sub, MemExceptionKind::Misaligned));
            }
            match self.vicmgr.r32(sub) {
                Ok(v) => Ok((v % 0x1_0000) as u16),
                Err(e) => Err(e),
            }
        } else if 0x8081_0000 <= addr && addr <= 0x8081_001f {
            let sub = addr - 0x8081_0000;
            if sub % 4 != 0 {
                return Err(MemException::new(self.timer1.ident(), sub, MemExceptionKind::Misaligned));
            }
            match self.timer1.r32(self.now_ns, sub) {
                Ok(v) => Ok((v % 0x1_0000) as u16),
                Err(e) => Err(e),
            }
        } else if 0x8081_0020 <= addr && addr <= 0x8081_003f {
            let sub = addr - 0x8081_0020;
            if sub % 4 != 0 {
                return Err(MemException::new(self.timer2.ident(), sub, MemExceptionKind::Misaligned));
            }
            match self.timer2.r32(self.now_ns, sub) {
                Ok(v) => Ok((v % 0x1_0000) as u16),
                Err(e) => Err(e),
            }
        } else if 0x8081_0080 <= addr && addr <= 0x8081_009f {
            let sub = addr - 0x8081_0080;
            if sub % 4 != 0 {
                return Err(MemException::new(self.timer3.ident(), sub, MemExceptionKind::Misaligned));
            }
            match self.timer3.r32(self.now_ns, sub) {
                Ok(v) => Ok((v % 0x1_0000) as u16),
                Err(e) => Err(e),
            }
        } else if 0x808c_0000 <= addr && addr <= 0x808c_ffff {
            let sub = addr - 0x808c_0000;
            if sub % 4 != 0 {
                return Err(MemException::new(self.uart1.ident(), sub, MemExceptionKind::Misaligned));
            }
            let (res, edges) = self.uart1.r32(sub);
            forward_edges(&self.interrupt_tx, &edges);
            match res {
                Ok(v) => Ok((v % 0x1_0000) as u16),
                Err(e) => Err(e),
            }
        } else if 0x808d_0000 <= addr && addr <= 0x808d_ffff {
            let sub = addr - 0x808d_0000;
            if sub % 4 != 0 {
                return Err(MemException::new(self.uart2.ident(), sub, MemExceptionKind::Misaligned));
            }
            let (res, edges) = self.uart2.r32(sub);
            forward_edges(&self.interrupt_tx, &edges);
            match res {
                Ok(v) => Ok((v % 0x1_0000) as u16),
                Err(e) => Err(e),
            }
        } else if 0x808e_0000 <= addr && addr <= 0x808e_ffff {
            let sub = addr - 0x808e_0000;
            if self.uart3_hack.is_some() {
                let mut u = self.uart3_hack.take().unwrap();
                if sub % 4 != 0 {
                    let e = MemException::new(u.ident(), sub, MemExceptionKind::Misaligned);
                    self.uart3_hack = Some(u);
                    return Err(e);
                }
                let (res, edges) = u.r32(sub);
                forward_edges(&self.interrupt_tx, &edges);
                self.uart3_hack = Some(u);
                match res {
                    Ok(v) => Ok((v % 0x1_0000) as u16),
                    Err(e) => Err(e),
                }
            } else {
                Err(MemException::new(String::from_str("Ts7200"), addr, MemExceptionKind::Unexpected))
            }
        } else if 0x8093_0000 <= addr && addr <= 0x8093_ffff {
            let sub = addr - 0x8093_0000;
            if sub % 4 != 0 {
                return Err(MemException::new(String::from_str("System Controller"), sub, MemExceptionKind::Misaligned));
            }
            match self.syscon.r32(sub) {
                Ok(v) => Ok((v % 0x1_0000) as u16),
                Err(e) => Err(e),
            }
        } else {
            Err(MemException::new(String::from_str("Ts7200"), addr, MemExceptionKind::Unexpected))
        }
    }

    fn w8(&mut self, addr: u32, val: u8) -> (r: MemResult<()>)
        ensures
            bus_w8_rel(*old(self), *final(self), addr, val, r),
    {
        if addr <= 0x01ff_ffff {
            self.sdram.w8(addr, val)
        } else if 0x800b_0000 <= addr && addr <= 0x800c_ffff {
            let sub = addr - 0x800b_0000;
            if sub % 4 != 0 {
                return Err(MemException::new(String::from_str("VicManager"), sub, MemExceptionKind::Misaligned));
            }
            self.vicmgr.w32(sub, val as u32)
        } else if 0x8081_0000 <= addr && addr <= 0x8081_001f {
            let sub = addr - 0x8081_0000;
            if sub % 4 != 0 {
                return Err(MemException::new(self.timer1.ident(), sub, MemExceptionKind::Misaligned));
            }
            let (res, cmd, edge) = self.timer1.w32(self.now_ns, sub, val as u32);
            match cmd {
                Some(c) => self.timer_cmds.push((1, c)),
                None => (),
            }
            match edge {
                Some(e) => chan_send(&self.interrupt_tx, e),
                None => (),
            }
            res
        } else if 0x8081_0020 <= addr && addr <= 0x8081_003f {
            let sub = addr - 0x8081_0020;
            if sub % 4 != 0 {
                return Err(MemException::new(self.timer2.ident(), sub, MemExceptionKind::Misaligned));
            }
            let (res, cmd, edge) = self.timer2.w32(self.now_ns, sub, val as u32);
            match cmd {
                Some(c) => self.timer_cmds.push((2, c)),
                None => (),
            }
            match edge {
                Some(e) => chan_send(&self.interrupt_tx, e),
                None => (),
            }
            res
        } else if 0x8081_0080 <= addr && addr <= 0x8081_009f {
            let sub = addr - 0x8081_0080;
            if sub % 4 != 0 {
                return Err(MemException::new(self.timer3.ident(), sub, MemExceptionKind::Misaligned));
            }
            let (res, cmd, edge) = self.timer3.w32(self.now_ns, sub, val as u32);
            match cmd {
                Some(c) => self.timer_cmds.push((3, c)),
                None => (),
            }
            match edge {
                Some(e) => chan_send(&self.interrupt_tx, e),
                None => (),
            }
            res
        } else if 0x808c_0000 <= addr && addr <= 0x808c_ffff {
            let sub = addr - 0x808c_0000;
            if sub % 4 != 0 {
                return Err(MemException::new(self.uart1.ident(), sub, MemExceptionKind::Misaligned));
            }
            let (res, edges, out) = self.uart1.w32(sub, val as u32);
            forward_edges(&self.interrupt_tx, &edges);
            match out {
                Some(b) => chan_send(&self.uart1_out_tx, b),
                None => (),
            }
            res
        } else if 0x808d_0000 <= addr && addr <= 0x808d_ffff {
            let sub = addr - 0x808d_0000;
            if sub % 4 != 0 {
                return Err(MemException::new(self.uart2.ident(), sub, MemExceptionKind::Misaligned));
            }
            let (res, edges, out) = self.uart2.w32(sub, val as u32);
            forward_edges(&self.interrupt_tx, &edges);
            match out {
                Some(b) => chan_send(&self.uart2_out_tx, b),
                None => (),
            }
            res
        } else if 0x808e_0000 <= addr && addr <= 0x808e_ffff {
            let sub = addr - 0x808e_0000;
            if self.uart3_hack.is_some() {
                let mut u = self.uart3_hack.take().unwrap();
                if sub % 4 != 0 {
                    let e = MemException::new(u.ident(), sub, MemExceptionKind::Misaligned);
                    self.uart3_hack = Some(u);
                    return Err(e);
                }
                let (res, edges, out) = u.w32(sub, val as u32);
                forward_edges(&self.interrupt_tx, &edges);
                match (out, &self.uart3_out_tx) {
                    (Some(b), Some(tx)) => chan_send(tx, b),
                    _ => (),
                }
                self.uart3_hack = Some(u);
                res
            } else {
                Err(MemException::new(String::from_str("Ts7200"), addr, MemExceptionKind::Unexpected))
            }
        } else if 0x8093_0000 <= addr && addr <= 0x8093_ffff {
            let sub = addr - 0x8093_0000;
            if sub % 4 != 0 {
                return Err(MemException::new(String::from_str("System Controller"), sub, MemExceptionKind::Misaligned));
            }
            self.syscon.w32(sub, val as u32)
        } else {
            Err(MemException::new(String::from_str("Ts7200"), addr, MemExceptionKind::Unexpected))
        }
    }

    fn w16(&mut self, addr: u32, val: u16) -> (r: MemResult<()>)
        ensures
            bus_w16_rel(*old(self), *final(self), addr, val, r),
    {
        if addr <= 0x01ff_ffff {
            self.sdram.w16(addr, val)
        } else if 0x800b_0000 <= addr && addr <= 0x800c_ffff {
            let sub = addr - 0x800b_0000;
            if sub % 4 != 0 {
                return Err(MemException::new(String::from_str("VicManager"), sub, MemExceptionKind::Misaligned));
            }
            self.vicmgr.w32(sub, val as u32)
        } else if 0x8081_0000 <= addr && addr <= 0x8081_001f {
            let sub = addr - 0x8081_0000;
            if sub % 4 != 0 {
                return Err(MemException::new(self.timer1.ident(), sub, MemExceptionKind::Misaligned));
            }
            let (res, cmd, edge) = self.timer1.w32(self.now_ns, sub, val as u32);
            match cmd {
                Some(c) => self.timer_cmds.push((1, c)),
                None => (),
            }
            match edge {
                Some(e) => chan_send(&self.interrupt_tx, e),
                None => (),
            }
            res
        } else if 0x8081_0020 <= addr && addr <= 0x8081_003f {
            let sub = addr - 0x8081_0020;
            if sub % 4 != 0 {
                return Err(MemException::new(self.timer2.ident(), sub, MemExceptionKind::Misaligned));
            }
            let (res, cmd, edge) = self.timer2.w32(self.now_ns, sub, val as u32);
            match cmd {
                Some(c) => self.timer_cmds.push((2, c)),
                None => (),
            }
            match edge {
                Some(e) => chan_send(&self.interrupt_tx, e),
                None => (),
            }
            res
        } else if 0x8081_0080 <= addr && addr <= 0x8081_009f {
            let sub = addr - 0x8081_0080;
            if sub % 4 != 0 {
                return Err(MemException::new(self.timer3.ident(), sub, MemExceptionKind::Misaligned));
            }
            let (res, cmd, edge) = self.timer3.w32(self.now_ns, sub, val as u32);
            match cmd {
                Some(c) => self.timer_cmds.push((3, c)),
                None => (),
            }
            match edge {
                Some(e) => chan_send(&self.interrupt_tx, e),
                None => (),
            }
            res
        } else if 0x808c_0000 <= addr && addr <= 0x808c_ffff {
            let sub = addr - 0x808c_0000;
            if sub % 4 != 0 {
                return Err(MemException::new(self.uart1.ident(), sub, MemExceptionKind::Misaligned));
            }
            let (res, edges, out) = self.uart1.w32(sub, val as u32);
            forward_edges(&self.interrupt_tx, &edges);
            match out {
                Some(b) => chan_send(&self.uart1_out_tx, b),
                None => (),
            }
            res
        } else if 0x808d_0000 <= addr && addr <= 0x808d_ffff {
            let sub = addr - 0x808d_0000;
            if sub % 4 != 0 {
                return Err(MemException::new(self.uart2.ident(), sub, MemExceptionKind::Misaligned));
            }
            let (res, edges, out) = self.uart2.w32(sub, val as u32);
            forward_edges(&self.interrupt_tx, &edges);
            match out {
                Some(b) => chan_send(&self.uart2_out_tx, b),
                None => (),
            }
            res
        } else if 0x808e_0000 <= addr && addr <= 0x808e_ffff {
            let sub = addr - 0x808e_0000;
            if self.uart3_hack.is_some() {
                let mut u = self.uart3_hack.take().unwrap();
                if sub % 4 != 0 {
                    let e = MemException::new(u.ident(), sub, MemExceptionKind::Misaligned);
                    self.uart3_hack = Some(u);
                    return Err(e);
                }
                let (res, edges, out) = u.w32(sub, val as u32);
                forward_edges(&self.interrupt_tx, &edges);
                match (out, &self.uart3_out_tx) {
                    (Some(b), Some(tx)) => chan_send(tx, b),
                    _ => (),
                }
                self.uart3_hack = Some(u);
                res
            } else {
                Err(MemException::new(String::from_str("Ts7200"), addr, MemExceptionKind::Unexpected))
            }
        } else if 0x8093_0000 <= addr && addr <= 0x8093_ffff {
            let sub = addr - 0x8093_0000;
            if sub % 4 != 0 {
                return Err(MemException::new(String::from_str("System Controller"), sub, MemExceptionKind::Misaligned));
            }
            self.syscon.w32(sub, val as u32)
        } else {
            Err(MemException::new(String::from_str("Ts7200"), addr, MemExceptionKind::Unexpected))
        }
    }

}

} // verus!
