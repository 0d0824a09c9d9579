//! Device-level behavior: RAM initialization tracking, the syscon lock
//! state machine, timer decrement math, and VIC vectored dispatch.

use ts7200::memory::Memory;
use ts7200::ram::Ram;
use ts7200::syscon::{PowerState, Syscon};
use ts7200::timer::{Timer, TimerCmd};
use ts7200::vic::Vic;
use ts7200::vicmanager::VicManager;
use ts7200::{Interrupt, MemExceptionKind, Severity};

fn kind_of<T>(r: Result<T, ts7200::MemException>) -> MemExceptionKind {
    r.err().expect("expected an error").kind()
}

#[test]
fn ram_round_trip_w32_r32() {
    let mut ram = Ram::new(1024);
    ram.w32(0, 0xAABB_CCDD).unwrap();
    assert_eq!(ram.r32(0).unwrap(), 0xAABB_CCDD);
    // little-endian layout: narrow reads see the right bytes
    assert_eq!(ram.r8(0).unwrap(), 0xDD);
    assert_eq!(ram.r8(3).unwrap(), 0xAA);
    assert_eq!(ram.r16(0).unwrap(), 0xCCDD);
    assert_eq!(ram.r16(2).unwrap(), 0xAABB);
}

#[test]
fn ram_round_trip_w8_w16() {
    let mut ram = Ram::new(64);
    ram.w8(5, 0x7F).unwrap();
    assert_eq!(ram.r8(5).unwrap(), 0x7F);
    ram.w16(10, 0xBEEF).unwrap();
    assert_eq!(ram.r16(10).unwrap(), 0xBEEF);
    assert_eq!(ram.r8(10).unwrap(), 0xEF);
    assert_eq!(ram.r8(11).unwrap(), 0xBE);
}

#[test]
fn ram_uninitialized_read_stub() {
    // fresh 1 KiB RAM: write one word, read the next one
    let mut ram = Ram::new(1024);
    ram.w32(0, 0xAABB_CCDD).unwrap();
    let e = ram.r32(4).err().expect("uninitialized read must fail");
    match e.kind() {
        MemExceptionKind::ContractViolation { severity, stub_val } => {
            assert_eq!(severity, Severity::Warn);
            // the backing store is filled with '-' (0x2d)
            assert_eq!(stub_val, Some(0x2D2D_2D2D));
        }
        k => panic!("wrong kind: {:?}", k),
    }
}

#[test]
fn ram_partially_initialized_read_stub() {
    let mut ram = Ram::new(64);
    ram.w8(1, 0x55).unwrap();
    // bytes 0,2,3 are uninitialized; the stub still carries the raw word
    let e = ram.r32(0).err().expect("partial read must fail");
    match e.kind() {
        MemExceptionKind::ContractViolation { severity, stub_val } => {
            assert_eq!(severity, Severity::Warn);
            assert_eq!(stub_val, Some(0x2D2D_552D));
        }
        k => panic!("wrong kind: {:?}", k),
    }
}

#[test]
fn ram_bulk_write_reads_back() {
    let mut ram = Ram::new(128);
    ram.bulk_write(16, &[1, 2, 3, 4]);
    assert_eq!(ram.r8(16).unwrap(), 1);
    assert_eq!(ram.r8(19).unwrap(), 4);
    assert_eq!(ram.r32(16).unwrap(), 0x0403_0201);
}

#[test]
fn ram_new_with_data() {
    let ram2 = Ram::new_with_data(32, &[9, 8, 7]);
    let mut ram2 = ram2;
    assert_eq!(ram2.r8(0).unwrap(), 9);
    assert_eq!(ram2.r8(2).unwrap(), 7);
    assert!(ram2.r8(3).is_err());
}

#[test]
fn ram_out_of_range_is_unexpected() {
    let mut ram = Ram::new(16);
    assert!(matches!(kind_of(ram.r32(13)), MemExceptionKind::Unexpected));
    assert!(matches!(kind_of(ram.w32(16, 0)), MemExceptionKind::Unexpected));
}

#[test]
fn syscon_misaligned_access() {
    let mut syscon = Syscon::new_hle();
    assert!(matches!(kind_of(syscon.r8(0x41)), MemExceptionKind::Misaligned));
    assert!(matches!(kind_of(syscon.r16(0x42)), MemExceptionKind::Misaligned));
    assert!(matches!(kind_of(syscon.w8(0x43, 1)), MemExceptionKind::Misaligned));
    assert!(matches!(kind_of(syscon.w16(0x41, 1)), MemExceptionKind::Misaligned));
}

#[test]
fn syscon_lock_sequence() {
    // from a fresh (locked) syscon: unlock, one locked-region write goes
    // through and re-locks, a second fails fatally
    let mut syscon = Syscon::new_hle();
    syscon.w32(0xC0, 0xAA).unwrap();
    assert_eq!(syscon.r32(0xC0).unwrap(), 0x01);
    syscon.w32(0x80, 0x1234_5678).unwrap();
    assert_eq!(syscon.r32(0x80).unwrap(), 0x1234_5678);
    assert_eq!(syscon.r32(0xC0).unwrap(), 0x00);
    let e = syscon.w32(0x88, 0).err().expect("locked write must fail");
    match e.kind() {
        MemExceptionKind::ContractViolation { severity, .. } => {
            assert_eq!(severity, Severity::Error)
        }
        k => panic!("wrong kind: {:?}", k),
    }
}

#[test]
fn syscon_bad_unlock_value() {
    let mut syscon = Syscon::new_hle();
    let e = syscon.w32(0xC0, 0xAB).err().expect("non-0xAA unlock must fail");
    assert!(matches!(
        e.kind(),
        MemExceptionKind::ContractViolation { severity: Severity::Error, .. }
    ));
    // state unchanged: still locked
    assert_eq!(syscon.r32(0xC0).unwrap(), 0x00);
}

#[test]
fn syscon_scratch_and_unimplemented() {
    let mut syscon = Syscon::new_hle();
    syscon.w32(0x40, 77).unwrap();
    syscon.w32(0x44, 88).unwrap();
    assert_eq!(syscon.r32(0x40).unwrap(), 77);
    assert_eq!(syscon.r32(0x44).unwrap(), 88);
    assert!(matches!(kind_of(syscon.r32(0x00)), MemExceptionKind::Unimplemented));
    assert!(matches!(kind_of(syscon.w32(0x18, 0)), MemExceptionKind::Unimplemented));
    assert!(matches!(kind_of(syscon.r32(0x100)), MemExceptionKind::Unexpected));
}

#[test]
fn syscon_halt_write_invalid() {
    let mut syscon = Syscon::new_hle();
    assert!(matches!(kind_of(syscon.w32(0x08, 0)), MemExceptionKind::InvalidAccess));
    assert!(matches!(kind_of(syscon.w32(0x0C, 0)), MemExceptionKind::InvalidAccess));
    assert_eq!(syscon.power_state(), PowerState::Run);
}

#[test]
fn syscon_halt_requires_shena() {
    // the hardware-validated DeviceCfg has bit 0 clear, so Halt is refused
    let mut syscon = Syscon::new_hle();
    assert!(matches!(
        kind_of(syscon.r32(0x08)),
        MemExceptionKind::ContractViolation { severity: Severity::Error, .. }
    ));
    // set SHena, then Halt works
    syscon.w32(0xC0, 0xAA).unwrap();
    syscon.w32(0x80, 0x0894_0d01).unwrap();
    syscon.r32(0x08).unwrap();
    assert_eq!(syscon.power_state(), PowerState::Halt);
    syscon.set_run_mode();
    assert_eq!(syscon.power_state(), PowerState::Run);
}

#[test]
fn timer_free_running_decrement() {
    let mut t = Timer::new("timer1", Interrupt::Tc1Ui, 16);
    // load 1000 while disabled, then enable free-running at 2 kHz
    let (r, cmd, edge) = t.w32(0, 0x00, 1000);
    r.unwrap();
    assert!(cmd.is_none() && edge.is_none());
    let (r, cmd, _) = t.w32(0, 0x08, 0x80);
    r.unwrap();
    assert!(cmd.is_none());
    // 2 kHz: one tick every 500_000 ns; after 2.25 ms, 4 ticks with carry
    assert_eq!(t.r32(2_250_000, 0x04).unwrap(), 996);
    assert_eq!(t.microticks, 500_000);
}

#[test]
fn timer_free_running_wraps() {
    let mut t = Timer::new("timer1", Interrupt::Tc1Ui, 16);
    let (r, _, _) = t.w32(0, 0x00, 2);
    r.unwrap();
    let (r, _, _) = t.w32(0, 0x08, 0x80);
    r.unwrap();
    // 3 ticks from 2 wraps a 16-bit timer to 0xFFFF
    assert_eq!(t.r32(1_500_000, 0x04).unwrap(), 0xFFFF);
}

#[test]
fn timer_load_write_while_enabled_rejected() {
    let mut t = Timer::new("timer3", Interrupt::Tc3Ui, 32);
    let (r, _, _) = t.w32(0, 0x00, 10);
    r.unwrap();
    let (r, _, _) = t.w32(0, 0x08, 0x80);
    r.unwrap();
    let (r, cmd, edge) = t.w32(1, 0x00, 20);
    assert!(matches!(
        kind_of(r),
        MemExceptionKind::ContractViolation { severity: Severity::Error, .. }
    ));
    assert!(cmd.is_none() && edge.is_none());
    // load value unchanged
    let (r, _, _) = t.w32(1, 0x08, 0x00);
    r.unwrap();
    assert_eq!(t.loadval, None); // disabling clears the load value
}

#[test]
fn timer_load_write_while_disabled_masks() {
    let mut t = Timer::new("timer1", Interrupt::Tc1Ui, 16);
    let (r, _, _) = t.w32(0, 0x00, 0x12345);
    r.unwrap();
    // masked to the 16-bit width, mirrored into Value
    assert_eq!(t.r32(0, 0x00).unwrap(), 0x2345);
    assert_eq!(t.r32(0, 0x04).unwrap(), 0x2345);
}

#[test]
fn timer_periodic_enable_without_load_rejected() {
    let mut t = Timer::new("timer1", Interrupt::Tc1Ui, 16);
    let (r, cmd, _) = t.w32(0, 0x08, 0xC0);
    assert!(matches!(
        kind_of(r),
        MemExceptionKind::ContractViolation { severity: Severity::Error, .. }
    ));
    assert!(cmd.is_none());
}

#[test]
fn timer_periodic_schedule_and_value() {
    // 508 kHz periodic with Load = 508: period is exactly 1 ms
    let mut t = Timer::new("timer1", Interrupt::Tc1Ui, 16);
    let (r, _, _) = t.w32(0, 0x00, 508);
    r.unwrap();
    let (r, cmd, _) = t.w32(0, 0x08, 0xC8);
    r.unwrap();
    assert_eq!(
        cmd,
        Some(TimerCmd::Enabled { delay_ns: 1_000_000, period_ns: 1_000_000 })
    );
    // after 5 ms (five whole periods) the lazy counter is back at the load
    assert_eq!(t.r32(5_000_000, 0x04).unwrap(), 508);
    // control reads back: clk 508 kHz, periodic, enabled
    assert_eq!(t.r32(5_000_000, 0x08).unwrap(), 0xC8);
}

#[test]
fn timer_disable_sends_disabled_and_clears_load() {
    let mut t = Timer::new("timer2", Interrupt::Tc2Ui, 16);
    let (r, _, _) = t.w32(0, 0x00, 100);
    r.unwrap();
    let (r, _, _) = t.w32(0, 0x08, 0x80);
    r.unwrap();
    let (r, cmd, _) = t.w32(1, 0x08, 0x00);
    r.unwrap();
    assert_eq!(cmd, Some(TimerCmd::Disabled));
    assert!(matches!(
        kind_of(t.r32(2, 0x00)),
        MemExceptionKind::ContractViolation { severity: Severity::Error, .. }
    ));
}

#[test]
fn timer_clear_emits_deassert_edge() {
    let mut t = Timer::new("timer1", Interrupt::Tc1Ui, 16);
    let (r, cmd, edge) = t.w32(0, 0x0C, 1);
    r.unwrap();
    assert!(cmd.is_none());
    assert_eq!(edge, Some((Interrupt::Tc1Ui, false)));
}

#[test]
fn timer_value_write_and_clear_read_invalid() {
    let mut t = Timer::new("timer1", Interrupt::Tc1Ui, 16);
    let (r, _, _) = t.w32(0, 0x04, 5);
    assert!(matches!(kind_of(r), MemExceptionKind::InvalidAccess));
    assert!(matches!(kind_of(t.r32(0, 0x0C)), MemExceptionKind::InvalidAccess));
    assert!(matches!(kind_of(t.r32(0, 0x10)), MemExceptionKind::Unexpected));
    assert!(matches!(kind_of(t.r8(0, 0x01)), MemExceptionKind::Misaligned));
}

#[test]
fn vic_status_and_masking() {
    let mut v = Vic::new("vic1");
    v.assert_interrupt(4);
    v.w32(0x18, 0x20).unwrap(); // software-assert source 5
    assert_eq!(v.r32(0x08).unwrap(), 0x30); // raw status
    assert_eq!(v.r32(0x00).unwrap(), 0x00); // nothing enabled yet
    assert!(!v.irq());
    v.w32(0x10, 0x10).unwrap(); // enable source 4
    assert_eq!(v.r32(0x00).unwrap(), 0x10);
    assert!(v.irq());
    assert!(!v.fiq());
    // select source 4 as FIQ: it leaves the IRQ status
    v.w32(0x0c, 0x10).unwrap();
    assert!(!v.irq());
    assert!(v.fiq());
    assert_eq!(v.r32(0x04).unwrap(), 0x10);
}

#[test]
fn vic_enable_clear_and_soft_clear() {
    let mut v = Vic::new("vic1");
    v.w32(0x10, 0xFF).unwrap();
    v.w32(0x14, 0x0F).unwrap(); // IntEnClear
    assert_eq!(v.r32(0x10).unwrap(), 0xF0);
    v.w32(0x18, 0x3).unwrap();
    v.w32(0x1c, 0x1).unwrap(); // SoftIntClear
    assert_eq!(v.r32(0x18).unwrap(), 0x2);
    assert!(matches!(kind_of(v.r32(0x14)), MemExceptionKind::InvalidAccess));
    assert!(matches!(kind_of(v.w32(0x00, 1)), MemExceptionKind::InvalidAccess));
}

#[test]
fn vic_vectored_dispatch_lowest_wins() {
    let mut v = Vic::new("vic1");
    v.w32(0x34, 0x1111).unwrap(); // default ISR
    // vector 0 serves source 7, vector 1 serves source 3
    v.w32(0x100, 0xAAAA).unwrap();
    v.w32(0x200, 0x20 | 7).unwrap();
    v.w32(0x104, 0xBBBB).unwrap();
    v.w32(0x204, 0x20 | 3).unwrap();
    // no pending irq: default
    assert_eq!(v.r32(0x30).unwrap(), 0x1111);
    v.w32(0x10, 0xFF).unwrap();
    v.assert_interrupt(3);
    assert_eq!(v.r32(0x30).unwrap(), 0xBBBB);
    // source 7 pending too: vector 0 is lower-index, it wins
    v.assert_interrupt(7);
    assert_eq!(v.r32(0x30).unwrap(), 0xAAAA);
    // disabled vector entries are skipped
    v.w32(0x200, 7).unwrap();
    assert_eq!(v.r32(0x30).unwrap(), 0xBBBB);
    // pending irq with no matching vector: default
    v.clear_interrupt(3);
    v.clear_interrupt(7);
    v.assert_interrupt(2);
    assert_eq!(v.r32(0x30).unwrap(), 0x1111);
}

#[test]
fn vic_fiq_suppresses_vectored_dispatch() {
    let mut v = Vic::new("vic1");
    v.w32(0x34, 0x2222).unwrap();
    v.w32(0x10, 0xFF).unwrap();
    v.w32(0x100, 0xAAAA).unwrap();
    v.w32(0x200, 0x20 | 1).unwrap();
    v.assert_interrupt(1);
    assert_eq!(v.r32(0x30).unwrap(), 0xAAAA);
    // make source 0 an FIQ and assert it: VectAddr falls back to default
    v.w32(0x0c, 0x1).unwrap();
    v.assert_interrupt(0);
    assert_eq!(v.r32(0x30).unwrap(), 0x2222);
}

#[test]
fn vic_vectcntl_and_periph_id() {
    let mut v = Vic::new("vic2");
    v.w32(0x208, 0x20 | 9).unwrap();
    assert_eq!(v.r32(0x208).unwrap(), 0x29);
    assert_eq!(v.r32(0xfe0).unwrap(), 0x90);
    assert_eq!(v.r32(0xfe4).unwrap(), 0x11);
    assert_eq!(v.r32(0xfe8).unwrap(), 0x04);
    assert_eq!(v.r32(0xfec).unwrap(), 0x00);
    assert!(matches!(kind_of(v.w32(0xfe0, 1)), MemExceptionKind::InvalidAccess));
    assert!(matches!(kind_of(v.r32(0x20)), MemExceptionKind::StubRead(0)));
    assert!(matches!(kind_of(v.w32(0x20, 0)), MemExceptionKind::StubWrite));
}

#[test]
fn interrupt_bank_and_index() {
    assert_eq!(Interrupt::Tc1Ui.bank(), 1);
    assert_eq!(Interrupt::Tc1Ui.index(), 4);
    assert_eq!(Interrupt::Uart2RxIntr2.bank(), 1);
    assert_eq!(Interrupt::Uart2RxIntr2.index(), 25);
    assert_eq!(Interrupt::Tc3Ui.bank(), 2);
    assert_eq!(Interrupt::Tc3Ui.index(), 19);
    assert_eq!(Interrupt::IntUart3.bank(), 2);
    assert_eq!(Interrupt::IntUart3.index(), 23);
}

#[test]
fn vicmanager_daisy_chain() {
    // assert a bank-2 source (the third UART's combined interrupt) with a
    // vector pointing at 0xDEAD_BEEF: the manager-level VectAddr read
    // returns it while bank 1 is idle
    let mut m = VicManager::new();
    let idx = Interrupt::IntUart3.index() as u32;
    assert_eq!(Interrupt::IntUart3.bank(), 2);
    m.w32(0x10000 + 0x100, 0xDEAD_BEEF).unwrap();
    m.w32(0x10000 + 0x200, 0x20 | idx).unwrap();
    m.w32(0x10000 + 0x10, 1 << idx).unwrap(); // enable in bank 2
    m.assert_interrupt(Interrupt::IntUart3);
    assert!(m.irq());
    assert!(!m.fiq());
    assert_eq!(m.r32(0x30).unwrap(), 0xDEAD_BEEF);
}

#[test]
fn vicmanager_daisy_chain_prefers_bank1() {
    let mut m = VicManager::new();
    // bank 1: vector for Tc1Ui at 0x100
    m.w32(0x100, 0x1000_0001).unwrap();
    m.w32(0x200, 0x20 | 4).unwrap();
    m.w32(0x10, 1 << 4).unwrap();
    // bank 2: vector for Tc3Ui
    m.w32(0x10000 + 0x100, 0x2000_0002).unwrap();
    m.w32(0x10000 + 0x200, 0x20 | 19).unwrap();
    m.w32(0x10000 + 0x10, 1 << 19).unwrap();
    m.assert_interrupt(Interrupt::Tc3Ui);
    assert_eq!(m.r32(0x30).unwrap(), 0x2000_0002);
    m.assert_interrupt(Interrupt::Tc1Ui);
    assert_eq!(m.r32(0x30).unwrap(), 0x1000_0001);
    // neither bank pending: bank 1's default vector address
    m.clear_interrupt(Interrupt::Tc1Ui);
    m.clear_interrupt(Interrupt::Tc3Ui);
    m.w32(0x34, 0x3333).unwrap();
    assert_eq!(m.r32(0x30).unwrap(), 0x3333);
}
