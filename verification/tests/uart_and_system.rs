//! UART fifo and interrupt-edge behavior, the bus address map, probe
//! rendering, and the full system: kernel loading, stepping a real CPU core,
//! graceful halt and watchpoints.

use armv4t_emu::{reg, Cpu, Memory as ArmMemory, Mode};
use ts7200::exception::MemResultExt;
use ts7200::memory::Memory;
use ts7200::uart::{uart1_ints_exec, Uart};
use ts7200::{
    Device, Event, Interrupt, KernelSection, MemExceptionKind, Severity, Ts7200, Ts7200Bus,
    HLE_BOOTLOADER_LR,
};

fn kind_of<T>(r: Result<T, ts7200::MemException>) -> MemExceptionKind {
    r.err().expect("expected an error").kind()
}

#[test]
fn uart_tx_fifo_capacity() {
    // hle config: fifo size 16. writing 17 bytes back-to-back drops the last
    let mut u = Uart::new_hle("uart1", uart1_ints_exec());
    for i in 0..16 {
        let (r, _, out) = u.w32(0x00, i);
        r.unwrap();
        assert_eq!(out, Some(i as u8), "byte {} should be queued", i);
    }
    let (r, edges, out) = u.w32(0x00, 16);
    r.unwrap();
    assert_eq!(out, None, "the seventeenth byte is dropped");
    assert!(edges.is_empty());
}

#[test]
fn uart_rx_fifo_overrun() {
    let mut u = Uart::new_hle("uart2", uart1_ints_exec());
    for i in 0..16 {
        u.rx_deliver(i);
    }
    assert!(!u.overrun);
    u.rx_deliver(99);
    assert!(u.overrun, "a byte delivered to a full fifo sets overrun");
    // the dropped byte is not in the fifo: draining yields 0..16
    let (r, _) = u.r32(0x00);
    assert_eq!(r.unwrap(), 0);
    // RXSts reports the overrun; writing it clears
    let (r, _) = u.r32(0x04);
    assert_eq!(r.unwrap(), 8);
    let (r, _, _) = u.w32(0x04, 0);
    r.unwrap();
    let (r, _) = u.r32(0x04);
    assert_eq!(r.unwrap(), 0);
}

#[test]
fn uart_data_read_pops_fifo() {
    let mut u = Uart::new_hle("uart1", uart1_ints_exec());
    u.rx_deliver(0x41);
    u.rx_deliver(0x42);
    let (r, _) = u.r32(0x00);
    assert_eq!(r.unwrap(), 0x41);
    let (r, _) = u.r32(0x00);
    assert_eq!(r.unwrap(), 0x42);
    // empty fifo reads a dummy zero
    let (r, _) = u.r32(0x00);
    assert_eq!(r.unwrap(), 0);
}

#[test]
fn uart_linctrl_latching() {
    let mut u = Uart::new_hle("uart1", uart1_ints_exec());
    // staging mid/low marks the committed values stale
    let (r, _, _) = u.w32(0x0C, 0x12);
    r.unwrap();
    let e = u.r32(0x0C).0.err().expect("stale read must fail");
    assert!(matches!(
        e.kind(),
        MemExceptionKind::ContractViolation { severity: Severity::Warn, .. }
    ));
    assert!(u.r32(0x10).0.is_err());
    // committing via high adopts all three staged values
    let (r, _, _) = u.w32(0x10, 0x34);
    r.unwrap();
    let (r, _, _) = u.w32(0x08, 0x70);
    r.unwrap();
    assert_eq!(u.r32(0x08).0.unwrap(), 0x70);
    assert_eq!(u.r32(0x0C).0.unwrap(), 0x12);
    assert_eq!(u.r32(0x10).0.unwrap(), 0x34);
}

#[test]
fn uart_bittime_and_word_len() {
    // hle: bauddiv 3 -> 115200 baud -> 8680 ns/bit; 8N1 with fifo = 10 bits
    let u = Uart::new_hle("uart1", uart1_ints_exec());
    assert_eq!(u.bittime_ns, 8680);
    assert_eq!(u.word_len, 10);
    assert_eq!(u.fifo_size, 16);
    // two stop bits and parity lengthen the frame; fifo off shrinks it
    let mut u2 = Uart::new("uart2", uart1_ints_exec());
    let (r, _, _) = u2.w32(0x08, 0x8 | 0x2);
    r.unwrap();
    assert_eq!(u2.word_len, 12);
    assert_eq!(u2.fifo_size, 1);
}

#[test]
fn uart_interrupt_edges_once_per_change() {
    let mut u = Uart::new_hle("uart1", uart1_ints_exec());
    // enable all four interrupt sources (bits 3..6 of ctrl)
    let (r, edges, _) = u.w32(0x14, 0x78 | 1);
    r.unwrap();
    // tx fifo is empty: tx half-empty asserts, and so does the combined line
    assert_eq!(
        edges,
        vec![(Interrupt::Uart1TxIntr1, true), (Interrupt::IntUart1, true)]
    );
    // writing ctrl again with no state change emits nothing: stabilized
    let (r, edges, _) = u.w32(0x14, 0x78 | 1);
    r.unwrap();
    assert!(edges.is_empty(), "an unchanged assertion is not re-emitted");
    // a byte arriving makes the rx line rise once the fifo is half full
    for i in 0..8 {
        let es = u.rx_deliver(i);
        if i < 7 {
            assert!(es.is_empty());
        } else {
            assert_eq!(es, vec![(Interrupt::Uart1RxIntr1, true)]);
        }
    }
}

#[test]
fn uart_flag_register() {
    let mut u = Uart::new_hle("uart1", uart1_ints_exec());
    // idle: TXFE and RXFE set, CTS stubbed on
    assert_eq!(u.r32(0x18).0.unwrap(), 0x80 | 0x10 | 0x1);
    u.rx_deliver(1);
    assert_eq!(u.r32(0x18).0.unwrap(), 0x80 | 0x1);
    // busy transmitter drops CTS and sets BUSY
    let (r, _, _) = u.w32(0x00, 0x55);
    r.unwrap();
    u.tx_start();
    let flags = u.r32(0x18).0.unwrap();
    assert!(flags & 0x8 != 0);
    assert!(flags & 0x1 == 0);
    // completing the byte idles the transmitter again
    u.tx_complete();
    let flags = u.r32(0x18).0.unwrap();
    assert!(flags & 0x8 == 0 && flags & 0x80 != 0);
}

#[test]
fn uart_rx_timeout_flag() {
    let mut u = Uart::new_hle("uart1", uart1_ints_exec());
    u.rx_timeout();
    assert!(!u.timeout, "an empty fifo cannot time out");
    u.rx_deliver(7);
    u.rx_timeout();
    assert!(u.timeout);
    // draining the fifo clears the timeout
    let (r, _) = u.r32(0x00);
    assert_eq!(r.unwrap(), 7);
    assert!(!u.timeout);
}

#[test]
fn uart_flag_write_invalid_dma_unimplemented() {
    let mut u = Uart::new_hle("uart1", uart1_ints_exec());
    let (r, _, _) = u.w32(0x18, 0);
    assert!(matches!(kind_of(r), MemExceptionKind::InvalidAccess));
    assert!(matches!(kind_of(u.r32(0x28).0), MemExceptionKind::Unimplemented));
    assert!(matches!(kind_of(u.r32(0x2C).0), MemExceptionKind::Unexpected));
    assert!(matches!(kind_of(u.r8(0x01).0), MemExceptionKind::Misaligned));
}

fn fresh_bus() -> (Ts7200Bus, crossbeam_channel::Receiver<(Interrupt, bool)>) {
    let (tx, rx) = crossbeam_channel::unbounded();
    (Ts7200Bus::new_hle(tx), rx)
}

#[test]
fn bus_unmapped_is_unexpected() {
    let (mut bus, _rx) = fresh_bus();
    assert!(matches!(kind_of(bus.r32(0x0200_0000)), MemExceptionKind::Unexpected));
    assert!(matches!(kind_of(bus.w32(0x7000_0000, 1)), MemExceptionKind::Unexpected));
    assert!(matches!(kind_of(bus.r8(0x9000_0000)), MemExceptionKind::Unexpected));
    // uart3 window is unmapped until enabled
    assert!(matches!(kind_of(bus.r32(0x808e_0000)), MemExceptionKind::Unexpected));
    bus.hack_uart3_enable();
    assert!(bus.r32(0x808e_0014).is_ok());
}

#[test]
fn bus_routes_to_devices() {
    let (mut bus, rx) = fresh_bus();
    // sdram
    bus.w32(0x100, 0xCAFE_F00D).unwrap();
    assert_eq!(bus.r32(0x100).unwrap(), 0xCAFE_F00D);
    // syscon scratch
    bus.w32(0x8093_0040, 5).unwrap();
    assert_eq!(bus.r32(0x8093_0040).unwrap(), 5);
    // timer1 load/value
    bus.w32(0x8081_0000, 123).unwrap();
    assert_eq!(bus.r32(0x8081_0004).unwrap(), 123);
    // timer3 is 32-bit wide
    bus.w32(0x8081_0080, 0xFFFF_FFFF).unwrap();
    assert_eq!(bus.r32(0x8081_0080).unwrap(), 0xFFFF_FFFF);
    // vic manager raw status after a software assert on bank 1
    bus.w32(0x800b_0018, 0x10).unwrap();
    assert_eq!(bus.r32(0x800b_0008).unwrap(), 0x10);
    // uart1 data write lands on the outbound channel
    let mut bus = bus;
    let out = bus.take_uart1_output().expect("receiver available once");
    bus.w32(0x808c_0000, 0x5A).unwrap();
    assert_eq!(out.try_recv().unwrap(), 0x5A);
    assert!(bus.take_uart1_output().is_none());
    drop(rx);
}

#[test]
fn bus_timer_commands_queued() {
    let (mut bus, _rx) = fresh_bus();
    bus.w32(0x8081_0020, 254).unwrap(); // timer2 load
    bus.w32(0x8081_0028, 0xC8).unwrap(); // 508 kHz periodic enable
    let cmds = bus.take_timer_cmds();
    assert_eq!(cmds.len(), 1);
    assert_eq!(cmds[0].0, 2);
    assert!(matches!(
        cmds[0].1,
        ts7200::TimerCmd::Enabled { delay_ns: 500_000, period_ns: 500_000 }
    ));
    assert!(bus.take_timer_cmds().is_empty());
}

#[test]
fn bus_misaligned_register_access() {
    let (mut bus, _rx) = fresh_bus();
    assert!(matches!(kind_of(bus.r8(0x8093_0041)), MemExceptionKind::Misaligned));
    assert!(matches!(kind_of(bus.r16(0x8081_0002)), MemExceptionKind::Misaligned));
    assert!(matches!(kind_of(bus.w8(0x808c_0001, 0)), MemExceptionKind::Misaligned));
    assert!(matches!(kind_of(bus.w16(0x800b_0002, 0)), MemExceptionKind::Misaligned));
    // ram accepts unaligned narrow accesses
    bus.w8(0x101, 9).unwrap();
    assert_eq!(bus.r8(0x101).unwrap(), 9);
}

#[test]
fn probe_renders_device_paths() {
    let (mut bus, _rx) = fresh_bus();
    assert_eq!(
        bus.probe(0x808d_001c).render(),
        "Ts7200 > UART:uart2 > IntIDIntClr"
    );
    assert_eq!(bus.probe(0x8081_0024).render(), "Ts7200 > Timer:timer2 > Value");
    assert_eq!(
        bus.probe(0x8093_00c0).render(),
        "Ts7200 > System Controller > SysSWLock"
    );
    assert_eq!(
        bus.probe(0x800b_0030).render(),
        "Ts7200 > VicManager > VIC:vic1 > VectAddr"
    );
    assert_eq!(
        bus.probe(0x800c_0030).render(),
        "Ts7200 > VicManager > VIC:vic2 > VectAddr"
    );
    assert_eq!(bus.probe(0x1000).render(), "Ts7200 > Ram");
    assert_eq!(bus.probe(0x5000_0000).render(), "<unmapped>");
    // register offsets that no device maps probe as unmapped under the device
    assert_eq!(bus.probe(0x8081_0010).render(), "Ts7200 > Timer:timer1");
    let _ = bus.r32(0);
}

/// The CPU core's view of the system: every access goes through the
/// verified infallible adapter.
struct CpuBus<'a> {
    sys: &'a mut Ts7200,
}

impl<'a> ArmMemory for CpuBus<'a> {
    fn r8(&mut self, addr: u32) -> u8 {
        self.sys.cpu_r8(addr)
    }
    fn r16(&mut self, addr: u32) -> u16 {
        self.sys.cpu_r16(addr)
    }
    fn r32(&mut self, addr: u32) -> u32 {
        self.sys.cpu_r32(addr)
    }
    fn w8(&mut self, addr: u32, val: u8) {
        self.sys.cpu_w8(addr, val)
    }
    fn w16(&mut self, addr: u32, val: u16) {
        self.sys.cpu_w16(addr, val)
    }
    fn w32(&mut self, addr: u32, val: u32) {
        self.sys.cpu_w32(addr, val)
    }
}

fn boot(entry: u32, code: &[u8]) -> (Ts7200, Cpu) {
    let sections = vec![KernelSection {
        vaddr: entry,
        data: code.to_vec(),
        is_alloc: true,
        is_nobits: false,
    }];
    let (sys, init) = Ts7200::new_hle(entry, sections);
    let mut cpu = Cpu::new();
    cpu.reg_set(Mode::User, reg::PC, init.pc);
    cpu.reg_set(Mode::User, reg::CPSR, init.cpsr);
    cpu.reg_set(Mode::Supervisor, reg::LR, init.lr);
    cpu.reg_set(Mode::Supervisor, reg::SP, init.sp);
    (sys, cpu)
}

#[test]
fn hle_boot_populates_ivt() {
    let (mut sys, init) = Ts7200::new_hle(0x100, vec![]);
    assert_eq!(init.pc, 0x100);
    assert_eq!(init.cpsr, 0xd3);
    assert_eq!(init.sp, ts7200::HLE_BOOTLOADER_SP);
    assert_eq!(init.lr, HLE_BOOTLOADER_LR);
    for k in 0..8 {
        assert_eq!(sys.bus.r32(4 * k).unwrap(), 0xe59f_f018);
    }
}

#[test]
fn hle_exit_returns_halted() {
    // a kernel whose entry immediately branches to the bootloader return
    // address: `mov pc, lr`
    let code = 0xe1a0_f00eu32.to_le_bytes();
    let (mut sys, mut cpu) = boot(0x8000, &code);
    sys.begin_step(0);
    cpu.step(&mut CpuBus { sys: &mut sys });
    let pc = cpu.reg_get(Mode::User, reg::PC);
    assert_eq!(pc, HLE_BOOTLOADER_LR);
    let ev = sys.finish_run_step(pc).expect("no fatal error");
    assert_eq!(ev, Some(Event::Halted));
}

#[test]
fn watchpoint_reports_store() {
    // `str r0, [r1]` at the entry; r1 points at the watched address
    let code = 0xe581_0000u32.to_le_bytes();
    let (mut sys, mut cpu) = boot(0x8000, &code);
    cpu.reg_set(Mode::User, 0, 0x1234_5678);
    cpu.reg_set(Mode::User, 1, 0x0000_1000);
    sys.add_watchpoint(0x0000_1000);
    sys.begin_step(0);
    cpu.step(&mut CpuBus { sys: &mut sys });
    let pc = cpu.reg_get(Mode::User, reg::PC);
    let ev = sys.finish_run_step(pc).expect("no fatal error");
    assert_eq!(ev, Some(Event::WatchWrite(0x0000_1000)));
    // the store really landed
    assert_eq!(sys.bus.r32(0x0000_1000).unwrap(), 0x1234_5678);
}

#[test]
fn breakpoint_reported_after_step() {
    // two no-op-ish instructions: `mov r0, r0`
    let mut code = vec![];
    code.extend_from_slice(&0xe1a0_0000u32.to_le_bytes());
    code.extend_from_slice(&0xe1a0_0000u32.to_le_bytes());
    let (mut sys, mut cpu) = boot(0x8000, &code);
    sys.add_breakpoint(0x8004);
    sys.begin_step(0);
    cpu.step(&mut CpuBus { sys: &mut sys });
    let pc = cpu.reg_get(Mode::User, reg::PC);
    let ev = sys.finish_run_step(pc).expect("no fatal error");
    assert_eq!(ev, Some(Event::Break));
}

#[test]
fn fatal_fault_reports_probe_path() {
    // a load from an unimplemented syscon register is fatal and names the
    // device path
    let code = 0xe591_0000u32.to_le_bytes(); // ldr r0, [r1]
    let (mut sys, mut cpu) = boot(0x8000, &code);
    cpu.reg_set(Mode::User, 1, 0x8093_0000); // PwrSts: unimplemented
    sys.begin_step(0);
    cpu.step(&mut CpuBus { sys: &mut sys });
    let pc = cpu.reg_get(Mode::User, reg::PC);
    match sys.finish_run_step(pc) {
        Err(ts7200::FatalError::FatalMemException { addr, in_mem_space_of, reason }) => {
            assert_eq!(addr, 0x8093_0000);
            assert_eq!(in_mem_space_of, "Ts7200 > System Controller > PwrSts");
            assert!(matches!(reason.kind(), MemExceptionKind::Unimplemented));
        }
        other => panic!("expected a fatal memory exception, got {:?}", other.is_ok()),
    }
}

#[test]
fn uninitialized_ram_read_is_swallowed() {
    // reading uninitialized RAM is a warning-level violation: the CPU
    // continues with the raw bytes and the step reports no fatal error
    let code = 0xe591_0000u32.to_le_bytes(); // ldr r0, [r1]
    let (mut sys, mut cpu) = boot(0x8000, &code);
    cpu.reg_set(Mode::User, 1, 0x2000);
    sys.begin_step(0);
    cpu.step(&mut CpuBus { sys: &mut sys });
    assert_eq!(cpu.reg_get(Mode::User, 0), 0x2D2D_2D2D);
    let pc = cpu.reg_get(Mode::User, reg::PC);
    let ev = sys.finish_run_step(pc).expect("warning must be swallowed");
    assert_eq!(ev, None);
}

#[test]
fn interrupt_messages_reach_the_vic() {
    let (mut sys, _init) = Ts7200::new_hle(0x100, vec![]);
    // enable Tc1Ui in bank 1 via the bus
    sys.bus.w32(0x800b_0010, 1 << 4).unwrap();
    // an asynchronous producer (a timer interrupter thread in a full
    // emulator) asserts the edge on the interrupt bus
    let tx = sys.interrupt_sender();
    tx.send((Interrupt::Tc1Ui, true)).unwrap();
    sys.drain_interrupts();
    assert!(sys.bus.vicmgr.irq());
    // the timer's Clear register deasserts it through the same path
    sys.bus.w32(0x8081_000c, 1).unwrap();
    sys.drain_interrupts();
    assert!(!sys.bus.vicmgr.irq());
}

#[test]
fn halt_state_resumes_on_interrupt() {
    let (mut sys, _init) = Ts7200::new_hle(0x100, vec![]);
    // force the syscon into Halt (SHena must be set first)
    sys.bus.w32(0x8093_00c0, 0xAA).unwrap();
    sys.bus.w32(0x8093_0080, 0x0894_0d01).unwrap();
    sys.bus.r32(0x8093_0008).unwrap();
    assert_eq!(sys.bus.syscon.power_state(), ts7200::PowerState::Halt);
    // nothing pending: stays halted
    sys.halt_step();
    assert_eq!(sys.bus.syscon.power_state(), ts7200::PowerState::Halt);
    // an enabled interrupt wakes it
    sys.bus.w32(0x800b_0010, 1 << 4).unwrap();
    sys.interrupt_sender().send((Interrupt::Tc1Ui, true)).unwrap();
    sys.halt_step();
    assert_eq!(sys.bus.syscon.power_state(), ts7200::PowerState::Run);
}

#[test]
fn frozen_system_reports_nothing() {
    let (mut sys, _init) = Ts7200::new_hle(0x100, vec![]);
    sys.freeze();
    assert!(sys.frozen);
}

#[test]
fn exception_context_composition() {
    let e = ts7200::MemException::new("Load".to_string(), 4, MemExceptionKind::InvalidAccess);
    let r: ts7200::MemResult<u32> = Err(e);
    let r = r.mem_ctx(0x8081_0000, "Ts7200 > Timer:timer1");
    let e = r.err().unwrap();
    assert_eq!(e.identifier(), "Ts7200 > Timer:timer1 > Load");
    assert_eq!(e.addr(), 0x8081_0004);
    assert_eq!(e.offset(), 0x8081_0004);
    assert!(e.access_kind().is_none());
    let e = e.with_access_kind(ts7200::AccessKind::Write);
    assert_eq!(e.access_kind(), Some(ts7200::AccessKind::Write));
}
