//! Emulation core for the TS-7200 single-board computer: the memory-mapped
//! peripheral fabric (RAM, system controller, timers, UARTs, vectored
//! interrupt controllers), the bus that routes CPU accesses to them, and the
//! fault-reporting machinery that surfaces precise diagnostics.

pub mod bus;
pub mod chan;
pub mod device;
pub mod exception;
pub mod interrupts;
pub mod memory;
pub mod ram;
pub mod syscon;
pub mod system;
pub mod timer;
pub mod uart;
pub mod vic;
pub mod vicmanager;

pub use bus::Ts7200Bus;
pub use device::{Device, Probe};
pub use exception::{AccessKind, MemException, MemExceptionKind, MemResult, Severity};
pub use interrupts::Interrupt;
pub use memory::Memory;
pub use ram::Ram;
pub use syscon::{PowerState, Syscon};
pub use system::{BlockMode, CpuInit, Event, FatalError, KernelSection, MemAccess, MemAccessVal, MemSniffer, MemoryAdapter, Ts7200, HLE_BOOTLOADER_LR, HLE_BOOTLOADER_SP};
pub use timer::{Clock, Mode, Timer, TimerCmd};
pub use uart::{Uart, UartInterrupts, UartV};
pub use vic::{VectorEntry, Vic};
pub use vicmanager::VicManager;
