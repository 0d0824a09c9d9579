//! Lazy-tick timer: a 16- or 32-bit decrementing counter.
//!
//! The counter is only brought up to date when a register is accessed: the
//! caller passes the current monotonic time in nanoseconds and the device
//! computes how many clock ticks elapsed, carrying the sub-tick remainder in
//! a `microticks` accumulator (nanosecond-kilohertz units, scaled by 10^6).
//! Enabling the timer in periodic mode yields a [`TimerCmd`] that schedules
//! the asynchronous interrupt edges; the `Clear` register deasserts the
//! timer's interrupt on the interrupt bus.

use vstd::arithmetic::div_mod::{lemma_mod_add_multiples_vanish, lemma_mod_mod, lemma_small_mod};
use vstd::prelude::*;
use vstd::string::StringExecFns;

use crate::device::{Device, Probe};
use crate::exception::{res_matches, MemException, MemExceptionKind, MemResult, Severity};
use crate::interrupts::Interrupt;

verus! {

/// Counting mode: wrap around freely, or reload from `Load` on underflow.
#[derive(Clone, Copy, Debug, PartialEq, Eq, Structural)]
pub enum Mode {
    FreeRunning,
    Periodic,
}

/// Input clock selection.
#[derive(Clone, Copy, Debug, PartialEq, Eq, Structural)]
pub enum Clock {
    Khz2,
    Khz508,
}

/// A scheduling command for the timer's asynchronous interrupter.
#[derive(Clone, Copy, Debug, PartialEq, Eq, Structural)]
pub enum TimerCmd {
    /// Fire first after `delay_ns` nanoseconds, then every `period_ns`.
    Enabled { delay_ns: u64, period_ns: u64 },
    /// Stop firing.
    Disabled,
}

impl Clock {
    /// The clock rate in kilohertz.
    pub open spec fn spec_khz(self) -> u64 {
        match self {
            Clock::Khz2 => 2,
            Clock::Khz508 => 508,
        }
    }

    /// The clock rate in kilohertz.
    pub fn khz(self) -> (r: u64)
        ensures
            r == self.spec_khz(),
    {
        match self {
            Clock::Khz2 => 2,
            Clock::Khz508 => 508,
        }
    }
}

/// The fatal contract-violation kind the timer reports for register misuse.
pub open spec fn timer_violation() -> MemExceptionKind {
    MemExceptionKind::ContractViolation { severity: Severity::Error, stub_val: None }
}

/// The identifier a timer stamps on its faults.
pub open spec fn timer_ident(label: &'static str) -> Seq<char> {
    "Timer"@ + ":"@ + label@
}

/// 32-bit timer device with a configurable wrap mask (so 16-bit timers can
/// be emulated as well).
pub struct Timer {
    /// Instance tag (`timer1`, `timer2`, `timer3`).
    pub label: &'static str,
    /// The last value written to `Load`, cleared when the timer is disabled.
    pub loadval: Option<u32>,
    /// The running counter value.
    pub val: u32,
    /// Whether the counter is running.
    pub enabled: bool,
    /// Counting mode.
    pub mode: Mode,
    /// Input clock.
    pub clksel: Clock,
    /// `0xFFFF` for 16-bit timers, `0xFFFF_FFFF` for 32-bit timers.
    pub wrapmask: u32,
    /// The monotonic time of the last register access, in nanoseconds.
    pub last_time_ns: u64,
    /// Sub-tick accumulator: nanoseconds times kilohertz, modulo 10^6.
    pub microticks: u32,
    /// The interrupt this timer raises.
    pub interrupt: Interrupt,
}

impl Timer {
    /// Well-formedness: the wrap mask is one of the two supported widths and
    /// the sub-tick carry is in range.
    pub open spec fn wf(&self) -> bool {
        (self.wrapmask == 0xFFFFu32 || self.wrapmask == 0xFFFF_FFFFu32) && self.microticks
            < 1_000_000
    }

    /// The state and result of bringing the counter up to date at `now_ns`:
    /// the elapsed wall time is converted to clock ticks (the sub-tick
    /// remainder carried in `microticks`), and the counter decrements by the
    /// tick count — wrapping in free-running mode, reloading from `Load` in
    /// periodic mode. Updating a periodic timer that has no load value is a
    /// fatal contract violation.
    pub open spec fn update_abs(self, now_ns: u64) -> (Timer, Result<(), MemExceptionKind>) {
        let dt = if now_ns >= self.last_time_ns {
            now_ns - self.last_time_ns
        } else {
            0
        };
        let s0 = Timer { last_time_ns: now_ns, ..self };
        if !self.enabled {
            (s0, Ok(()))
        } else {
            let micro = dt * self.clksel.spec_khz() + self.microticks;
            let ticks = ((micro / 1_000_000) % 0x1_0000_0000) as u32;
            let s1 = Timer { microticks: (micro % 1_000_000) as u32, ..s0 };
            match self.mode {
                Mode::FreeRunning => (
                    Timer { val: (((self.val - ticks) % (self.wrapmask + 1)) as u32), ..s1 },
                    Ok(()),
                ),
                Mode::Periodic => match self.loadval {
                    None => (s1, Err(timer_violation())),
                    Some(l) => {
                        let v = if l == 0 {
                            0u32
                        } else if self.val < ticks {
                            (l - ((ticks - self.val) % (l as int))) as u32
                        } else {
                            (self.val - ticks) as u32
                        };
                        (Timer { val: v, ..s1 }, Ok(()))
                    },
                },
            }
        }
    }

    /// What a 32-bit read at `offset` returns (after the lazy update), and
    /// the state it leaves.
    pub open spec fn read32_abs(self, now_ns: u64, offset: u32) -> (
        Timer,
        Result<u32, MemExceptionKind>,
    ) {
        let (s, u) = self.update_abs(now_ns);
        if u is Err {
            (s, Err(u->Err_0))
        } else if offset == 0x00 {
            match s.loadval {
                Some(v) => (s, Ok(v)),
                None => (s, Err(timer_violation())),
            }
        } else if offset == 0x04 {
            (s, Ok(s.val))
        } else if offset == 0x08 {
            (s, Ok(s.control_encoding()))
        } else if offset == 0x0C {
            (s, Err(MemExceptionKind::InvalidAccess))
        } else {
            (s, Err(MemExceptionKind::Unexpected))
        }
    }

    /// The `Control` register encoding: clock select in bit 3, mode in
    /// bit 6, enable in bit 7.
    pub open spec fn control_encoding(self) -> u32 {
        ((if self.clksel == Clock::Khz508 {
            8int
        } else {
            0int
        }) + (if self.mode == Mode::Periodic {
            64int
        } else {
            0int
        }) + (if self.enabled {
            128int
        } else {
            0int
        })) as u32
    }

    /// What a 32-bit write of `val` at `offset` does (after the lazy
    /// update): the state it leaves, its result, the command it issues to
    /// the interrupter, and the edge it emits on the interrupt bus.
    pub open spec fn write32_abs(self, now_ns: u64, offset: u32, val: u32) -> (
        Timer,
        Result<(), MemExceptionKind>,
        Option<TimerCmd>,
        Option<(Interrupt, bool)>,
    ) {
        let (s, u) = self.update_abs(now_ns);
        if u is Err {
            (s, Err(u->Err_0), None, None)
        } else if offset == 0x00 {
            if s.enabled {
                (s, Err(timer_violation()), None, None)
            } else {
                let masked = (((val as int) % (s.wrapmask + 1)) as u32);
                (Timer { loadval: Some(masked), val: masked, ..s }, Ok(()), None, None)
            }
        } else if offset == 0x04 {
            (s, Err(MemExceptionKind::InvalidAccess), None, None)
        } else if offset == 0x08 {
            let clksel = if val & 8 != 0 {
                Clock::Khz508
            } else {
                Clock::Khz2
            };
            let mode = if val & 64 != 0 {
                Mode::Periodic
            } else {
                Mode::FreeRunning
            };
            let enabled = val & 128 != 0;
            let s1 = Timer { clksel, mode, enabled, ..s };
            if enabled && !s.enabled {
                let s2 = Timer { microticks: 0, ..s1 };
                if mode == Mode::Periodic {
                    match s2.loadval {
                        None => (s2, Err(timer_violation()), None, None),
                        Some(l) => {
                            let period = ((l * 1_000_000) / (clksel.spec_khz() as int)) as u64;
                            (
                                s2,
                                Ok(()),
                                Some(TimerCmd::Enabled { delay_ns: period, period_ns: period }),
                                None,
                            )
                        },
                    }
                } else {
                    (s2, Ok(()), None, None)
                }
            } else if !enabled {
                (Timer { loadval: None, ..s1 }, Ok(()), Some(TimerCmd::Disabled), None)
            } else {
                (s1, Ok(()), None, None)
            }
        } else if offset == 0x0C {
            (s, Ok(()), None, Some((s.interrupt, false)))
        } else {
            (s, Err(MemExceptionKind::Unexpected), None, None)
        }
    }

    /// Create a new timer of the given width (16 or 32 bits).
    pub fn new(label: &'static str, interrupt: Interrupt, bits: usize) -> (r: Timer)
        requires
            bits == 16 || bits == 32,
        ensures
            r.wf(),
            r.label == label,
            r.interrupt == interrupt,
            r.loadval is None,
            r.val == 0,
            !r.enabled,
            r.mode == Mode::FreeRunning,
            r.clksel == Clock::Khz2,
            r.microticks == 0,
            bits == 16 ==> r.wrapmask == 0xFFFFu32,
            bits == 32 ==> r.wrapmask == 0xFFFF_FFFFu32,
    {
        Timer {
            label,
            loadval: None,
            val: 0,
            enabled: false,
            mode: Mode::FreeRunning,
            clksel: Clock::Khz2,
            wrapmask: if bits == 16 {
                0xFFFF
            } else {
                0xFFFF_FFFF
            },
            last_time_ns: 0,
            microticks: 0,
            interrupt,
        }
    }

    /// The identifier this timer stamps on its faults.
    pub(crate) fn ident(&self) -> (r: String)
        ensures
            r@ == timer_ident(self.label),
    {
        let mut s = String::from_str("Timer");
        s.append(":");
        s.append(self.label);
        s
    }

    /// Lazily bring the counter up to date at `now_ns`.
    pub fn update_regs(&mut self, now_ns: u64) -> (r: MemResult<()>)
        requires
            old(self).wf(),
        ensures
            final(self).wf(),
            ({
                let (s2, abs) = old(self).update_abs(now_ns);
                *final(self) == s2 && res_matches(r, abs, 0, timer_ident(old(self).label))
            }),
    {
        let dt: u64 = if now_ns >= self.last_time_ns {
            now_ns - self.last_time_ns
        } else {
            0
        };
        self.last_time_ns = now_ns;
        if !self.enabled {
            return Ok(());
        }
        let khz = self.clksel.khz();
        proof {
            assert(dt * khz <= 0xFFFF_FFFF_FFFF_FFFFu64 * 508) by (nonlinear_arith)
                requires
                    dt <= 0xFFFF_FFFF_FFFF_FFFFu64,
                    khz <= 508,
            ;
        }
        let micro: u128 = dt as u128 * khz as u128 + self.microticks as u128;
        let ticks: u32 = ((micro / 1_000_000) % 0x1_0000_0000) as u32;
        self.microticks = (micro % 1_000_000) as u32;
        match self.mode {
            Mode::FreeRunning => {
                let diff: u32 = if self.val >= ticks {
                    self.val - ticks
                } else {
                    self.val + (0xFFFF_FFFFu32 - ticks) + 1
                };
                proof {
                    let x = self.val - ticks;
                    if self.val >= ticks {
                        lemma_small_mod(x as nat, 0x1_0000_0000);
                    } else {
                        lemma_mod_add_multiples_vanish(x, 0x1_0000_0000);
                        lemma_small_mod((x + 0x1_0000_0000) as nat, 0x1_0000_0000);
                    }
                    assert(diff == x % 0x1_0000_0000);
                    if self.wrapmask == 0xFFFFu32 {
                        lemma_mod_mod(x, 0x10000, 0x10000);
                        assert(diff % 0x10000 == x % 0x10000);
                    } else {
                        lemma_mod_mod(x, 0x1_0000_0000, 1);
                        assert(diff as int % 0x1_0000_0000 == x % 0x1_0000_0000);
                        lemma_small_mod(diff as nat, 0x1_0000_0000);
                    }
                }
                let rem: u32 = (diff as u64 % (self.wrapmask as u64 + 1)) as u32;
                self.val = rem;
                Ok(())
            },
            Mode::Periodic => {
                match self.loadval {
                    None => Err(
                        MemException::new_with_msg(
                            self.ident(),
                            0,
                            MemExceptionKind::ContractViolation {
                                severity: Severity::Error,
                                stub_val: None,
                            },
                            String::from_str("periodic mode running without a Load value"),
                        ),
                    ),
                    Some(l) => {
                        if l == 0 {
                            self.val = 0;
                        } else if self.val < ticks {
                            let remaining = ticks - self.val;
                            self.val = l - (remaining % l);
                        } else {
                            self.val = self.val - ticks;
                        }
                        Ok(())
                    },
                }
            },
        }
    }

    /// Read a 32 bit value at a given offset, at time `now_ns`.
    pub fn r32(&mut self, now_ns: u64, offset: u32) -> (r: MemResult<u32>)
        requires
            old(self).wf(),
        ensures
            final(self).wf(),
            ({
                let (s2, abs) = old(self).read32_abs(now_ns, offset);
                *final(self) == s2 && res_matches(r, abs, offset, timer_ident(old(self).label))
            }),
    {
        match self.update_regs(now_ns) {
            Ok(()) => {},
            Err(e) => {
                return Err(MemException { offset, ..e });
            },
        }
        match offset {
            0x00 => match self.loadval {
                Some(v) => Ok(v),
                None => Err(
                    MemException::new_with_msg(
                        self.ident(),
                        offset,
                        MemExceptionKind::ContractViolation {
                            severity: Severity::Error,
                            stub_val: None,
                        },
                        String::from_str("cannot read the Load register before it has been set"),
                    ),
                ),
            },
            0x04 => Ok(self.val),
            0x08 => {
                let mut v: u32 = 0;
                if let Clock::Khz508 = self.clksel {
                    v = v + 8;
                }
                if let Mode::Periodic = self.mode {
                    v = v + 64;
                }
                if self.enabled {
                    v = v + 128;
                }
                Ok(v)
            },
            0x0C => Err(MemException::new(self.ident(), offset, MemExceptionKind::InvalidAccess)),
            _ => Err(MemException::new(self.ident(), offset, MemExceptionKind::Unexpected)),
        }
    }

    /// Write a 32 bit value to a given offset, at time `now_ns`. Besides the
    /// access result, returns the command for the timer's interrupter (when
    /// the enable state changed) and the edge to emit on the interrupt bus
    /// (when `Clear` was written).
    pub fn w32(&mut self, now_ns: u64, offset: u32, val: u32) -> (r: (
        MemResult<()>,
        Option<TimerCmd>,
        Option<(Interrupt, bool)>,
    ))
        requires
            old(self).wf(),
        ensures
            final(self).wf(),
            ({
                let (s2, abs, cmd, edge) = old(self).write32_abs(now_ns, offset, val);
                *final(self) == s2 && res_matches(r.0, abs, offset, timer_ident(old(self).label))
                    && r.1 == cmd && r.2 == edge
            }),
    {
        match self.update_regs(now_ns) {
            Ok(()) => {},
            Err(e) => {
                return (Err(MemException { offset, ..e }), None, None);
            },
        }
        match offset {
            0x00 => {
                // "The Load register should not be written after the Timer is
                // enabled because this causes the Timer Value register to be
                // updated with an undetermined value."
                if self.enabled {
                    return (
                        Err(
                            MemException::new_with_msg(
                                self.ident(),
                                offset,
                                MemExceptionKind::ContractViolation {
                                    severity: Severity::Error,
                                    stub_val: None,
                                },
                                String::from_str(
                                    "cannot write the Load register while the timer is enabled",
                                ),
                            ),
                        ),
                        None,
                        None,
                    );
                }
                let masked: u32 = ((val as u64) % (self.wrapmask as u64 + 1)) as u32;
                self.loadval = Some(masked);
                // the Value register follows the Load register immediately
                self.val = masked;
                (Ok(()), None, None)
            },
            0x04 => (
                Err(MemException::new(self.ident(), offset, MemExceptionKind::InvalidAccess)),
                None,
                None,
            ),
            0x08 => {
                self.clksel = if val & 8 != 0 {
                    Clock::Khz508
                } else {
                    Clock::Khz2
                };
                self.mode = if val & 64 != 0 {
                    Mode::Periodic
                } else {
                    Mode::FreeRunning
                };
                let previous_enabled = self.enabled;
                self.enabled = val & 128 != 0;
                if self.enabled && !previous_enabled {
                    self.microticks = 0;
                    if let Mode::Periodic = self.mode {
                        let l = match self.loadval {
                            Some(l) => l,
                            None => {
                                return (
                                    Err(
                                        MemException::new_with_msg(
                                            self.ident(),
                                            offset,
                                            MemExceptionKind::ContractViolation {
                                                severity: Severity::Error,
                                                stub_val: None,
                                            },
                                            String::from_str(
                                                "periodic mode enabled before setting a Load value",
                                            ),
                                        ),
                                    ),
                                    None,
                                    None,
                                );
                            },
                        };
                        let period: u64 = (l as u64) * 1_000_000 / self.clksel.khz();
                        return (
                            Ok(()),
                            Some(TimerCmd::Enabled { delay_ns: period, period_ns: period }),
                            None,
                        );
                    }
                    (Ok(()), None, None)
                } else if !self.enabled {
                    self.loadval = None;
                    (Ok(()), Some(TimerCmd::Disabled), None)
                } else {
                    (Ok(()), None, None)
                }
            },
            0x0C => (Ok(()), None, Some((self.interrupt, false))),
            _ => (
                Err(MemException::new(self.ident(), offset, MemExceptionKind::Unexpected)),
                None,
                None,
            ),
        }
    }

    /// Read an 8 bit value at a given offset, at time `now_ns`: misaligned
    /// offsets are rejected, aligned ones forward to the 32-bit read,
    /// truncating.
    pub fn r8(&mut self, now_ns: u64, offset: u32) -> (r: MemResult<u8>)
        requires
            old(self).wf(),
        ensures
            final(self).wf(),
            offset % 4 != 0 ==> *final(self) == *old(self) && res_matches(
                crate::exception::widen_res8(r),
                Err::<u32, _>(MemExceptionKind::Misaligned),
                offset,
                timer_ident(old(self).label),
            ),
            offset % 4 == 0 ==> ({
                let (s2, abs) = old(self).read32_abs(now_ns, offset);
                *final(self) == s2 && (match abs {
                    Ok(w) => r matches Ok(v) && v == w % 0x100,
                    Err(k) => res_matches(
                        crate::exception::widen_res8(r),
                        Err::<u32, _>(k),
                        offset,
                        timer_ident(old(self).label),
                    ),
                })
            }),
    {
        if offset % 4 != 0 {
            return Err(MemException::new(self.ident(), offset, MemExceptionKind::Misaligned));
        }
        match self.r32(now_ns, offset) {
            Ok(v) => Ok((v % 0x100) as u8),
            Err(e) => Err(e),
        }
    }

    /// Read a 16 bit value at a given offset, at time `now_ns`: misaligned
    /// offsets are rejected, aligned ones forward to the 32-bit read,
    /// truncating.
    pub fn r16(&mut self, now_ns: u64, offset: u32) -> (r: MemResult<u16>)
        requires
            old(self).wf(),
        ensures
            final(self).wf(),
            offset % 4 != 0 ==> *final(self) == *old(self) && res_matches(
                crate::exception::widen_res16(r),
                Err::<u32, _>(MemExceptionKind::Misaligned),
                offset,
                timer_ident(old(self).label),
            ),
            offset % 4 == 0 ==> ({
                let (s2, abs) = old(self).read32_abs(now_ns, offset);
                *final(self) == s2 && (match abs {
                    Ok(w) => r matches Ok(v) && v == w % 0x1_0000,
                    Err(k) => res_matches(
                        crate::exception::widen_res16(r),
                        Err::<u32, _>(k),
                        offset,
                        timer_ident(old(self).label),
                    ),
                })
            }),
    {
        if offset % 4 != 0 {
            return Err(MemException::new(self.ident(), offset, MemExceptionKind::Misaligned));
        }
        match self.r32(now_ns, offset) {
            Ok(v) => Ok((v % 0x1_0000) as u16),
            Err(e) => Err(e),
        }
    }

    /// Write an 8 bit value at a given offset, at time `now_ns`: misaligned
    /// offsets are rejected, aligned ones forward to the 32-bit write.
    pub fn w8(&mut self, now_ns: u64, offset: u32, val: u8) -> (r: (
        MemResult<()>,
        Option<TimerCmd>,
        Option<(Interrupt, bool)>,
    ))
        requires
            old(self).wf(),
        ensures
            final(self).wf(),
            offset % 4 != 0 ==> *final(self) == *old(self) && res_matches(
                r.0,
                Err::<(), _>(MemExceptionKind::Misaligned),
                offset,
                timer_ident(old(self).label),
            ) && r.1 is None && r.2 is None,
            offset % 4 == 0 ==> ({
                let (s2, abs, cmd, edge) = old(self).write32_abs(now_ns, offset, val as u32);
                *final(self) == s2 && res_matches(r.0, abs, offset, timer_ident(old(self).label))
                    && r.1 == cmd && r.2 == edge
            }),
    {
        if offset % 4 != 0 {
            return (
                Err(MemException::new(self.ident(), offset, MemExceptionKind::Misaligned)),
                None,
                None,
            );
        }
        self.w32(now_ns, offset, val as u32)
    }

    /// Write a 16 bit value at a given offset, at time `now_ns`: misaligned
    /// offsets are rejected, aligned ones forward to the 32-bit write.
    pub fn w16(&mut self, now_ns: u64, offset: u32, val: u16) -> (r: (
        MemResult<()>,
        Option<TimerCmd>,
        Option<(Interrupt, bool)>,
    ))
        requires
            old(self).wf(),
        ensures
            final(self).wf(),
            offset % 4 != 0 ==> *final(self) == *old(self) && res_matches(
                r.0,
                Err::<(), _>(MemExceptionKind::Misaligned),
                offset,
                timer_ident(old(self).label),
            ) && r.1 is None && r.2 is None,
            offset % 4 == 0 ==> ({
                let (s2, abs, cmd, edge) = old(self).write32_abs(now_ns, offset, val as u32);
                *final(self) == s2 && res_matches(r.0, abs, offset, timer_ident(old(self).label))
                    && r.1 == cmd && r.2 == edge
            }),
    {
        if offset % 4 != 0 {
            return (
                Err(MemException::new(self.ident(), offset, MemExceptionKind::Misaligned)),
                None,
                None,
            );
        }
        self.w32(now_ns, offset, val as u32)
    }
}

impl Device for Timer {
    fn kind(&self) -> (r: &'static str)
        ensures
            r@ == "Timer"@,
    {
        "Timer"
    }

    fn label(&self) -> (r: Option<&'static str>)
        ensures
            r == Some(self.label),
    {
        Some(self.label)
    }

    /// Names the register at `offset` exactly when the timer maps one there.
    fn probe(&self, offset: u32) -> (r: Probe)
        ensures
            offset == 0x00 ==> (r matches Probe::Register(s) && s@ == "Load"@),
            offset == 0x04 ==> (r matches Probe::Register(s) && s@ == "Value"@),
            offset == 0x08 ==> (r matches Probe::Register(s) && s@ == "Control"@),
            offset == 0x0C ==> (r matches Probe::Register(s) && s@ == "Clear"@),
            offset != 0x00 && offset != 0x04 && offset != 0x08 && offset != 0x0C ==> r is Unmapped,
    {
        match offset {
            0x00 => Probe::Register("Load"),
            0x04 => Probe::Register("Value"),
            0x08 => Probe::Register("Control"),
            0x0C => Probe::Register("Clear"),
            _ => Probe::Unmapped,
        }
    }
}

/// Free-running decrement (stated for elapsed times whose tick count fits
/// the counter): after wall time `dt` at clock rate `k` kHz starting from
/// counter `V` and carry `c`, the counter reads
/// `(V - (dt*k + c) / 10^6) mod (wrapmask + 1)` and the carry becomes
/// `(dt*k + c) mod 10^6`, which stays below `10^6`.
pub proof fn lemma_timer_free_running(t: Timer, now_ns: u64)
    requires
        t.wf(),
        t.enabled,
        t.mode == Mode::FreeRunning,
        now_ns >= t.last_time_ns,
        ((now_ns - t.last_time_ns) * t.clksel.spec_khz() + t.microticks) / 1_000_000
            < 0x1_0000_0000,
    ensures
        ({
            let micro = (now_ns - t.last_time_ns) * t.clksel.spec_khz() + t.microticks;
            let (t2, r) = t.update_abs(now_ns);
            r is Ok && t2.val == (t.val - micro / 1_000_000) % (t.wrapmask + 1)
                && t2.microticks == micro % 1_000_000 && t2.microticks < 1_000_000
        }),
{
}

/// Writing `Load` while the timer is enabled is a fatal contract violation;
/// the load value does not change.
pub proof fn lemma_timer_load_write_enabled(t: Timer, now_ns: u64, l: u32)
    requires
        t.wf(),
        t.enabled,
    ensures
        ({
            let (t2, r, cmd, edge) = t.write32_abs(now_ns, 0x00, l);
            r == Err::<(), _>(timer_violation()) && cmd is None && edge is None && t2.loadval
                == t.loadval
        }),
{
}

/// Writing `Load` while the timer is disabled stores `l` masked to the
/// timer's width in both the load value and the counter.
pub proof fn lemma_timer_load_write_disabled(t: Timer, now_ns: u64, l: u32)
    requires
        t.wf(),
        !t.enabled,
    ensures
        ({
            let (t2, r, cmd, edge) = t.write32_abs(now_ns, 0x00, l);
            r is Ok && cmd is None && edge is None && t2.loadval == Some(
                ((((l as int) % (t.wrapmask + 1))) as u32),
            ) && t2.val == ((l as int) % (t.wrapmask + 1)) as u32
        }),
{
}

/// Enabling the timer in periodic mode without a prior `Load` write is a
/// fatal contract violation, and no interrupter command is issued.
pub proof fn lemma_timer_periodic_enable_without_load(t: Timer, now_ns: u64, val: u32)
    requires
        t.wf(),
        !t.enabled,
        t.loadval is None,
        val & 128 != 0,
        val & 64 != 0,
    ensures
        ({
            let (t2, r, cmd, edge) = t.write32_abs(now_ns, 0x08, val);
            r == Err::<(), _>(timer_violation()) && cmd is None && edge is None
        }),
{
}

} // verus!
