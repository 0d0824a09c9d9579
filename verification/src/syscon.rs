//! System controller: register file with a software-lock state machine and a
//! power-state machine.
//!
//! Writes into the SW-locked region `0x80..=0x9C` are rejected while the
//! controller is locked; writing exactly `0xAA` to `SysSWLock` (`0xC0`)
//! unlocks it, and the lock re-engages after any single write into the
//! locked region. Reading `Halt` (`0x08`) or `Standby` (`0x0C`) moves the
//! power state accordingly, but only when bit 0 of `DeviceCfg` is set.

use vstd::prelude::*;
use vstd::string::StringExecFns;

use crate::device::{Device, Probe};
use crate::exception::{res_matches, MemException, MemExceptionKind, MemResult, Severity};
use crate::memory::Memory;

verus! {

/// EP9302 power states.
#[derive(Clone, Copy, Debug, PartialEq, Eq, Structural)]
pub enum PowerState {
    Run,
    Halt,
    Standby,
}

/// System controller module.
pub struct Syscon {
    /// ScratchReg0.
    pub scratch0: u32,
    /// ScratchReg1.
    pub scratch1: u32,
    /// DeviceCfg register.
    pub device_cfg: u32,
    /// Whether the SW-locked register region is currently locked.
    pub is_locked: bool,
    /// Current power state of the system.
    pub power_state: PowerState,
}

/// The fatal contract-violation kind the syscon reports for lock misuse and
/// for power-state transitions that `DeviceCfg` forbids.
pub open spec fn syscon_violation() -> MemExceptionKind {
    MemExceptionKind::ContractViolation { severity: Severity::Error, stub_val: None }
}

/// The name of the syscon register at `offset`, if one is mapped there.
pub open spec fn syscon_reg_name(offset: u32) -> Option<Seq<char>> {
    if offset == 0x00 {
        Some("PwrSts"@)
    } else if offset == 0x04 {
        Some("PwrCnt"@)
    } else if offset == 0x08 {
        Some("Halt"@)
    } else if offset == 0x0C {
        Some("Standby"@)
    } else if offset == 0x18 {
        Some("TEOI"@)
    } else if offset == 0x1C {
        Some("STFClr"@)
    } else if offset == 0x20 {
        Some("ClkSet1"@)
    } else if offset == 0x24 {
        Some("ClkSet2"@)
    } else if offset == 0x40 {
        Some("ScratchReg0"@)
    } else if offset == 0x44 {
        Some("ScratchReg1"@)
    } else if offset == 0x50 {
        Some("APBWait"@)
    } else if offset == 0x54 {
        Some("BusMstrArb"@)
    } else if offset == 0x58 {
        Some("BootModeClr"@)
    } else if offset == 0x80 {
        Some("DeviceCfg"@)
    } else if offset == 0x84 {
        Some("VidClkDiv"@)
    } else if offset == 0x88 {
        Some("MIRClkDiv"@)
    } else if offset == 0x8C {
        Some("I2SClkDiv"@)
    } else if offset == 0x90 {
        Some("KeyTchClkDiv"@)
    } else if offset == 0x94 {
        Some("ChipID"@)
    } else if offset == 0x9C {
        Some("SysCfg"@)
    } else if offset == 0xC0 {
        Some("SysSWLock"@)
    } else {
        None
    }
}

/// Whether `offset` names a syscon register that exists but has no modeled
/// behavior.
pub open spec fn syscon_unimplemented(offset: u32) -> bool {
    offset == 0x00 || offset == 0x04 || offset == 0x18 || offset == 0x1C || offset == 0x20
        || offset == 0x24 || offset == 0x50 || offset == 0x54 || offset == 0x58 || offset == 0x84
        || offset == 0x88 || offset == 0x8C || offset == 0x90 || offset == 0x94 || offset == 0x9C
}

impl Syscon {
    /// What a 32-bit read at `offset` returns, and the state it leaves.
    pub open spec fn read32_abs(self, offset: u32) -> (Syscon, Result<u32, MemExceptionKind>) {
        if syscon_unimplemented(offset) {
            (self, Err(MemExceptionKind::Unimplemented))
        } else if offset == 0x08 {
            if self.device_cfg % 2 == 1 {
                (Syscon { power_state: PowerState::Halt, ..self }, Ok(0u32))
            } else {
                (self, Err(syscon_violation()))
            }
        } else if offset == 0x0C {
            if self.device_cfg % 2 == 1 {
                (Syscon { power_state: PowerState::Standby, ..self }, Ok(0u32))
            } else {
                (self, Err(syscon_violation()))
            }
        } else if offset == 0x40 {
            (self, Ok(self.scratch0))
        } else if offset == 0x44 {
            (self, Ok(self.scratch1))
        } else if offset == 0x80 {
            (self, Ok(self.device_cfg))
        } else if offset == 0xC0 {
            (
                self,
                Ok(
                    if self.is_locked {
                        0u32
                    } else {
                        1u32
                    },
                ),
            )
        } else {
            (self, Err(MemExceptionKind::Unexpected))
        }
    }

    /// What a 32-bit write of `val` at `offset` does: the resulting state and
    /// result. A write into the locked region `0x80..=0x9C` fails while
    /// locked and re-engages the lock when it goes through.
    pub open spec fn write32_abs(self, offset: u32, val: u32) -> (
        Syscon,
        Result<(), MemExceptionKind>,
    ) {
        if 0x80 <= offset <= 0x9C && self.is_locked {
            (self, Err(syscon_violation()))
        } else {
            let s = if 0x80 <= offset <= 0x9C {
                Syscon { is_locked: true, ..self }
            } else {
                self
            };
            if syscon_unimplemented(offset) {
                (s, Err(MemExceptionKind::Unimplemented))
            } else if offset == 0x08 || offset == 0x0C {
                (s, Err(MemExceptionKind::InvalidAccess))
            } else if offset == 0x40 {
                (Syscon { scratch0: val, ..s }, Ok(()))
            } else if offset == 0x44 {
                (Syscon { scratch1: val, ..s }, Ok(()))
            } else if offset == 0x80 {
                (Syscon { device_cfg: val, ..s }, Ok(()))
            } else if offset == 0xC0 {
                if val == 0xAA {
                    (Syscon { is_locked: false, ..s }, Ok(()))
                } else {
                    (s, Err(syscon_violation()))
                }
            } else {
                (s, Err(MemExceptionKind::Unexpected))
            }
        }
    }

    /// Create a new system controller in the state the bootloader leaves it:
    /// locked, running, with the hardware-validated `DeviceCfg` value.
    pub fn new_hle() -> (r: Syscon)
        ensures
            r.scratch0 == 0,
            r.scratch1 == 0,
            r.device_cfg == 0x0894_0d00u32,
            r.is_locked,
            r.power_state == PowerState::Run,
    {
        Syscon {
            scratch0: 0,
            scratch1: 0,
            device_cfg: 0x0894_0d00,
            is_locked: true,
            power_state: PowerState::Run,
        }
    }

    /// Query the current power state of the system.
    pub fn power_state(&self) -> (r: PowerState)
        ensures
            r == self.power_state,
    {
        self.power_state
    }

    /// Set the power state of the system back to `Run`.
    pub fn set_run_mode(&mut self)
        ensures
            *final(self) == (Syscon { power_state: PowerState::Run, ..*old(self) }),
    {
        self.power_state = PowerState::Run;
    }
}

impl Device for Syscon {
    fn kind(&self) -> (r: &'static str)
        ensures
            r@ == "System Controller"@,
    {
        "System Controller"
    }

    /// Names the register at `offset` exactly when the controller maps one
    /// there.
    fn probe(&self, offset: u32) -> (r: Probe)
        ensures
            syscon_reg_name(offset) matches Some(n) ==> r matches Probe::Register(s) && s@ == n,
            syscon_reg_name(offset) is None ==> r is Unmapped,
    {
        match offset {
            0x00 => Probe::Register("PwrSts"),
            0x04 => Probe::Register("PwrCnt"),
            0x08 => Probe::Register("Halt"),
            0x0C => Probe::Register("Standby"),
            0x18 => Probe::Register("TEOI"),
            0x1C => Probe::Register("STFClr"),
            0x20 => Probe::Register("ClkSet1"),
            0x24 => Probe::Register("ClkSet2"),
            0x40 => Probe::Register("ScratchReg0"),
            0x44 => Probe::Register("ScratchReg1"),
            0x50 => Probe::Register("APBWait"),
            0x54 => Probe::Register("BusMstrArb"),
            0x58 => Probe::Register("BootModeClr"),
            0x80 => Probe::Register("DeviceCfg"),
            0x84 => Probe::Register("VidClkDiv"),
            0x88 => Probe::Register("MIRClkDiv"),
            0x8C => Probe::Register("I2SClkDiv"),
            0x90 => Probe::Register("KeyTchClkDiv"),
            0x94 => Probe::Register("ChipID"),
            0x9C => Probe::Register("SysCfg"),
            0xC0 => Probe::Register("SysSWLock"),
            _ => Probe::Unmapped,
        }
    }
}

impl Memory for Syscon {
    open spec fn inv(&self) -> bool {
        true
    }

    fn r32(&mut self, offset: u32) -> (r: MemResult<u32>)
        ensures
            ({
                let (s2, abs) = old(self).read32_abs(offset);
                *final(self) == s2 && res_matches(r, abs, offset, "System Controller"@)
            }),
    {
        match offset {
            0x08 => {
                if self.device_cfg % 2 == 1 {
                    self.power_state = PowerState::Halt;
                    Ok(0)
                } else {
                    Err(
                        MemException::new_with_msg(
                            String::from_str("System Controller"),
                            offset,
                            MemExceptionKind::ContractViolation {
                                severity: Severity::Error,
                                stub_val: None,
                            },
                            String::from_str(
                                "cannot enter Halt mode if SHena != 1 in syscon DeviceCfg",
                            ),
                        ),
                    )
                }
            },
            0x0C => {
                if self.device_cfg % 2 == 1 {
                    self.power_state = PowerState::Standby;
                    Ok(0)
                } else {
                    Err(
                        MemException::new_with_msg(
                            String::from_str("System Controller"),
                            offset,
                            MemExceptionKind::ContractViolation {
                                severity: Severity::Error,
                                stub_val: None,
                            },
                            String::from_str(
                                "cannot enter Standby mode if SHena != 1 in syscon DeviceCfg",
                            ),
                        ),
                    )
                }
            },
            0x40 => Ok(self.scratch0),
            0x44 => Ok(self.scratch1),
            0x80 => Ok(self.device_cfg),
            0xC0 => {
                if self.is_locked {
                    Ok(0x00)
                } else {
                    Ok(0x01)
                }
            },
            0x00 | 0x04 | 0x18 | 0x1C | 0x20 | 0x24 | 0x50 | 0x54 | 0x58 | 0x84 | 0x88 | 0x8C
                | 0x90 | 0x94 | 0x9C => Err(
                MemException::new(
                    String::from_str("System Controller"),
                    offset,
                    MemExceptionKind::Unimplemented,
                ),
            ),
            _ => Err(
                MemException::new(
                    String::from_str("System Controller"),
                    offset,
                    MemExceptionKind::Unexpected,
                ),
            ),
        }
    }

    fn w32(&mut self, offset: u32, val: u32) -> (r: MemResult<()>)
        ensures
            ({
                let (s2, abs) = old(self).write32_abs(offset, val);
                *final(self) == s2 && res_matches(r, abs, offset, "System Controller"@)
            }),
    {
        if 0x80 <= offset && offset <= 0x9C {
            if self.is_locked {
                return Err(
                    MemException::new_with_msg(
                        String::from_str("System Controller"),
                        offset,
                        MemExceptionKind::ContractViolation {
                            severity: Severity::Error,
                            stub_val: None,
                        },
                        String::from_str("attempted to write to a SW-locked syscon register"),
                    ),
                );
            } else {
                // the syscon re-locks after a locked register has been written
                self.is_locked = true;
            }
        }
        match offset {
            0x08 | 0x0C => Err(
                MemException::new(
                    String::from_str("System Controller"),
                    offset,
                    MemExceptionKind::InvalidAccess,
                ),
            ),
            0x40 => {
                self.scratch0 = val;
                Ok(())
            },
            0x44 => {
                self.scratch1 = val;
                Ok(())
            },
            0x80 => {
                self.device_cfg = val;
                Ok(())
            },
            0xC0 => {
                if val == 0xAA {
                    self.is_locked = false;
                    Ok(())
                } else {
                    Err(
                        MemException::new_with_msg(
                            String::from_str("System Controller"),
                            offset,
                            MemExceptionKind::ContractViolation {
                                severity: Severity::Error,
                                stub_val: None,
                            },
                            String::from_str("wrote a non-0xAA value to the SysSWLock register"),
                        ),
                    )
                }
            },
            0x00 | 0x04 | 0x18 | 0x1C | 0x20 | 0x24 | 0x50 | 0x54 | 0x58 | 0x84 | 0x88 | 0x8C
                | 0x90 | 0x94 | 0x9C => Err(
                MemException::new(
                    String::from_str("System Controller"),
                    offset,
                    MemExceptionKind::Unimplemented,
                ),
            ),
            _ => Err(
                MemException::new(
                    String::from_str("System Controller"),
                    offset,
                    MemExceptionKind::Unexpected,
                ),
            ),
        }
    }

    fn r8(&mut self, offset: u32) -> (r: MemResult<u8>)
        ensures
            offset % 4 != 0 ==> *final(self) == *old(self) && res_matches(
                crate::exception::widen_res8(r),
                Err::<u32, _>(MemExceptionKind::Misaligned),
                offset,
                "System Controller"@,
            ),
            offset % 4 == 0 ==> ({
                let (s2, abs) = old(self).read32_abs(offset);
                *final(self) == s2 && (match abs {
                    Ok(w) => r matches Ok(v) && v == w % 0x100,
                    Err(k) => res_matches(
                        crate::exception::widen_res8(r),
                        Err::<u32, _>(k),
                        offset,
                        "System Controller"@,
                    ),
                })
            }),
    {
        if offset % 4 != 0 {
            return Err(
                MemException::new(
                    String::from_str("System Controller"),
                    offset,
                    MemExceptionKind::Misaligned,
                ),
            );
        }
        match self.r32(offset) {
            Ok(v) => Ok((v % 0x100) as u8),
            Err(e) => Err(e),
        }
    }

    fn r16(&mut self, offset: u32) -> (r: MemResult<u16>)
        ensures
            offset % 4 != 0 ==> *final(self) == *old(self) && res_matches(
                crate::exception::widen_res16(r),
                Err::<u32, _>(MemExceptionKind::Misaligned),
                offset,
                "System Controller"@,
            ),
            offset % 4 == 0 ==> ({
                let (s2, abs) = old(self).read32_abs(offset);
                *final(self) == s2 && (match abs {
                    Ok(w) => r matches Ok(v) && v == w % 0x1_0000,
                    Err(k) => res_matches(
                        crate::exception::widen_res16(r),
                        Err::<u32, _>(k),
                        offset,
                        "System Controller"@,
                    ),
                })
            }),
    {
        if offset % 4 != 0 {
            return Err(
                MemException::new(
                    String::from_str("System Controller"),
                    offset,
                    MemExceptionKind::Misaligned,
                ),
            );
        }
        match self.r32(offset) {
            Ok(v) => Ok((v % 0x1_0000) as u16),
            Err(e) => Err(e),
        }
    }

    fn w8(&mut self, offset: u32, val: u8) -> (r: MemResult<()>)
        ensures
            offset % 4 != 0 ==> *final(self) == *old(self) && res_matches(
                r,
                Err::<(), _>(MemExceptionKind::Misaligned),
                offset,
                "System Controller"@,
            ),
            offset % 4 == 0 ==> ({
                let (s2, abs) = old(self).write32_abs(offset, val as u32);
                *final(self) == s2 && res_matches(r, abs, offset, "System Controller"@)
            }),
    {
        if offset % 4 != 0 {
            return Err(
                MemException::new(
                    String::from_str("System Controller"),
                    offset,
                    MemExceptionKind::Misaligned,
                ),
            );
        }
        self.w32(offset, val as u32)
    }

    fn w16(&mut self, offset: u32, val: u16) -> (r: MemResult<()>)
        ensures
            offset % 4 != 0 ==> *final(self) == *old(self) && res_matches(
                r,
                Err::<(), _>(MemExceptionKind::Misaligned),
                offset,
                "System Controller"@,
            ),
            offset % 4 == 0 ==> ({
                let (s2, abs) = old(self).write32_abs(offset, val as u32);
                *final(self) == s2 && res_matches(r, abs, offset, "System Controller"@)
            }),
    {
        if offset % 4 != 0 {
            return Err(
                MemException::new(
                    String::from_str("System Controller"),
                    offset,
                    MemExceptionKind::Misaligned,
                ),
            );
        }
        self.w32(offset, val as u32)
    }
}

/// The software-lock state machine, from a locked controller: unlocking with
/// `0xAA` makes `SysSWLock` read 1; one write into the locked region then
/// goes through and re-engages the lock, so `SysSWLock` reads 0 and a second
/// locked-region write fails with a fatal contract violation, leaving the
/// state unchanged.
pub proof fn lemma_syscon_lock_fsm(s: Syscon, v: u32, v2: u32)
    requires
        s.is_locked,
    ensures
        ({
            let (s1, r1) = s.write32_abs(0xC0, 0xAA);
            let (s2, r2) = s1.read32_abs(0xC0);
            let (s3, r3) = s2.write32_abs(0x80, v);
            let (s4, r4) = s3.read32_abs(0xC0);
            let (s5, r5) = s4.write32_abs(0x80, v2);
            r1 is Ok && r2 == Ok::<u32, MemExceptionKind>(1u32) && r3 is Ok && r4 == Ok::<
                u32,
                MemExceptionKind,
            >(0u32) && r5 == Err::<(), MemExceptionKind>(syscon_violation()) && s5 == s4
        }),
{
}

/// Writing any value other than `0xAA` to `SysSWLock` is a fatal contract
/// violation and leaves the controller unchanged.
pub proof fn lemma_syscon_bad_unlock(s: Syscon, x: u32)
    requires
        x != 0xAA,
    ensures
        s.write32_abs(0xC0, x) == (s, Err::<(), MemExceptionKind>(syscon_violation())),
{
}

} // verus!
