//! UART register file: line-control and baud model, rx/tx fifos, and
//! edge-triggered interrupt generation.
//!
//! The synchronous (CPU-facing) register behavior and the state transitions
//! driven by the byte-timing workers are both modeled here as pure
//! transitions on the register state; every mutating operation returns the
//! interrupt edges it emits on the interrupt bus, and a `Data` write returns
//! the byte to queue on the outbound channel. The three logical interrupts
//! (tx, rx, combined) are edge-triggered: a transition of the computed
//! assertion is emitted at most once per state change.

use vstd::prelude::*;
use vstd::string::StringExecFns;

use crate::device::{Device, Probe};
use crate::exception::{res_matches, MemException, MemExceptionKind, MemResult, Severity};
use crate::interrupts::Interrupt;

verus! {

/// Which interrupt lines a UART instance raises.
#[derive(Clone, Copy, Debug, PartialEq, Eq, Structural)]
pub struct UartInterrupts {
    /// Receive interrupt.
    pub rx: Interrupt,
    /// Transmit interrupt.
    pub tx: Interrupt,
    /// Combined interrupt.
    pub combo: Interrupt,
}

/// The UART clock rate in hertz.
pub const UARTCLK_HZ: u64 = 7_372_800;

/// The abstract register state of a UART.
pub struct UartV {
    /// Which interrupt lines this instance raises.
    pub interrupts: UartInterrupts,
    /// Whether a LinCtrlMid/Low write is staged but not committed.
    pub linctrl_latched: bool,
    /// Staged line-control values.
    pub latch0: u32,
    pub latch1: u32,
    pub latch2: u32,
    /// Committed line-control values.
    pub linctrl0: u32,
    pub linctrl1: u32,
    pub linctrl2: u32,
    /// Control register.
    pub ctrl: u32,
    /// Nanoseconds per serial bit, derived from the committed line control.
    pub bittime_ns: u64,
    /// Bits per serial frame, derived from the committed line control.
    pub word_len: u32,
    /// Fifo capacity: 16 with fifos enabled, 1 without.
    pub fifo_size: int,
    /// A received byte was dropped because the rx fifo was full.
    pub overrun: bool,
    /// The transmitter is shifting a byte out.
    pub busy: bool,
    /// Bytes sat unread in the rx fifo for 32 bit times.
    pub timeout: bool,
    /// The clear-to-send line changed since last acknowledged.
    pub cts_change: bool,
    /// The receive fifo, oldest byte first.
    pub rx_buf: Seq<u8>,
    /// How many written bytes are queued or in flight on the tx side.
    pub tx_buf_size: int,
    /// Latched assertion state of the three logical interrupts.
    pub rx_int_asserted: bool,
    pub tx_int_asserted: bool,
    pub combo_int_asserted: bool,
}

/// UART device: the register state shared between the CPU-facing bus path
/// and the byte-timing workers.
pub struct Uart {
    /// Instance tag (`uart1`, `uart2`, `uart3`).
    pub label: &'static str,
    /// Which interrupt lines this instance raises.
    pub interrupts: UartInterrupts,
    pub linctrl_latched: bool,
    pub latch0: u32,
    pub latch1: u32,
    pub latch2: u32,
    pub linctrl0: u32,
    pub linctrl1: u32,
    pub linctrl2: u32,
    pub ctrl: u32,
    pub bittime_ns: u64,
    pub word_len: u32,
    pub fifo_size: usize,
    pub overrun: bool,
    pub busy: bool,
    pub timeout: bool,
    pub cts_change: bool,
    pub rx_buf: Vec<u8>,
    pub tx_buf_size: usize,
    pub rx_int_asserted: bool,
    pub tx_int_asserted: bool,
    pub combo_int_asserted: bool,
}

impl View for Uart {
    type V = UartV;

    open spec fn view(&self) -> UartV {
        UartV {
            interrupts: self.interrupts,
            linctrl_latched: self.linctrl_latched,
            latch0: self.latch0,
            latch1: self.latch1,
            latch2: self.latch2,
            linctrl0: self.linctrl0,
            linctrl1: self.linctrl1,
            linctrl2: self.linctrl2,
            ctrl: self.ctrl,
            bittime_ns: self.bittime_ns,
            word_len: self.word_len,
            fifo_size: self.fifo_size as int,
            overrun: self.overrun,
            busy: self.busy,
            timeout: self.timeout,
            cts_change: self.cts_change,
            rx_buf: self.rx_buf@,
            tx_buf_size: self.tx_buf_size as int,
            rx_int_asserted: self.rx_int_asserted,
            tx_int_asserted: self.tx_int_asserted,
            combo_int_asserted: self.combo_int_asserted,
        }
    }
}

/// The warning-level contract violation for reading a stale line-control
/// register while a staged update is uncommitted.
pub open spec fn uart_stale_read() -> MemExceptionKind {
    MemExceptionKind::ContractViolation { severity: Severity::Warn, stub_val: None }
}

/// The identifier a UART stamps on its faults.
pub open spec fn uart_ident(label: &'static str) -> Seq<char> {
    "UART"@ + ":"@ + label@
}

/// The baud-rate divisor encoded in the two low line-control words.
pub open spec fn bauddiv_of(linctrl1: u32, linctrl2: u32) -> int {
    (linctrl1 % 0x100) * 0x1_0000_0000 + linctrl2
}

/// The baud rate: `UARTCLK_HZ / 16 / (bauddiv + 1)`.
pub open spec fn baud_of(linctrl1: u32, linctrl2: u32) -> int {
    (UARTCLK_HZ as int) / 16 / (bauddiv_of(linctrl1, linctrl2) + 1)
}

/// Nanoseconds per serial bit; saturated when the divisor is so large that
/// the integer baud rate rounds to zero.
pub open spec fn bittime_of(linctrl1: u32, linctrl2: u32) -> int {
    if baud_of(linctrl1, linctrl2) == 0 {
        0xFFFF_FFFF_FFFF_FFFFint
    } else {
        1_000_000_000int / baud_of(linctrl1, linctrl2)
    }
}

/// Bits per serial frame: start bit, eight data bits, one or two stop bits,
/// and an optional parity bit.
pub open spec fn word_len_of(linctrl0: u32) -> int {
    1 + 8 + (if linctrl0 & 8 != 0 {
        2int
    } else {
        1int
    }) + (if linctrl0 & 2 != 0 {
        1int
    } else {
        0int
    })
}

/// Fifo capacity selected by the line control: 16 or 1.
pub open spec fn fifo_size_of(linctrl0: u32) -> int {
    if linctrl0 & 0x10 != 0 {
        16
    } else {
        1
    }
}

impl UartV {
    /// Derived line-control state recomputed from the committed words.
    pub open spec fn with_linctrl_derived(self) -> UartV {
        UartV {
            bittime_ns: bittime_of(self.linctrl1, self.linctrl2) as u64,
            word_len: word_len_of(self.linctrl0) as u32,
            fifo_size: fifo_size_of(self.linctrl0),
            ..self
        }
    }

    /// The interrupt-identification byte: timeout in bit 3, tx half-empty in
    /// bit 2, rx half-full in bit 1, cts change in bit 0, masked by the
    /// enable nibble that sits three bits up in the control register.
    pub open spec fn int_id(self) -> u32 {
        let bits = ((if self.timeout {
            8int
        } else {
            0int
        }) + (if self.tx_buf_size * 2 <= self.fifo_size {
            4int
        } else {
            0int
        }) + (if self.rx_buf.len() * 2 >= self.fifo_size {
            2int
        } else {
            0int
        }) + (if self.cts_change {
            1int
        } else {
            0int
        })) as u32;
        bits & (self.ctrl >> 3)
    }

    /// Whether the tx interrupt line is (newly) asserted.
    pub open spec fn tx_assert(self) -> bool {
        self.int_id() & 4 != 0
    }

    /// Whether the rx interrupt line is (newly) asserted.
    pub open spec fn rx_assert(self) -> bool {
        self.int_id() & 2 != 0
    }

    /// Whether the combined interrupt line is (newly) asserted.
    pub open spec fn combo_assert(self) -> bool {
        self.int_id() & 0xF != 0
    }

    /// Recompute the three logical interrupt lines, emitting one edge on the
    /// interrupt bus for each line whose assertion changed — tx first, then
    /// rx, then combined.
    pub open spec fn update_ints(self) -> (UartV, Seq<(Interrupt, bool)>) {
        let ta = self.tx_assert();
        let ra = self.rx_assert();
        let ca = self.combo_assert();
        let e_tx: Seq<(Interrupt, bool)> = if ta != self.tx_int_asserted {
            seq![(self.interrupts.tx, ta)]
        } else {
            seq![]
        };
        let e_rx: Seq<(Interrupt, bool)> = if ra != self.rx_int_asserted {
            seq![(self.interrupts.rx, ra)]
        } else {
            seq![]
        };
        let e_co: Seq<(Interrupt, bool)> = if ca != self.combo_int_asserted {
            seq![(self.interrupts.combo, ca)]
        } else {
            seq![]
        };
        (
            UartV { tx_int_asserted: ta, rx_int_asserted: ra, combo_int_asserted: ca, ..self },
            e_tx + e_rx + e_co,
        )
    }

    /// What a 32-bit read at `offset` returns: the state it leaves, the
    /// result, and the interrupt edges it emits.
    pub open spec fn read32_abs(self, offset: u32) -> (
        UartV,
        Result<u32, MemExceptionKind>,
        Seq<(Interrupt, bool)>,
    ) {
        if offset == 0x00 {
            let val: u32 = if self.rx_buf.len() > 0 {
                self.rx_buf[0] as u32
            } else {
                0
            };
            let rx2 = if self.rx_buf.len() > 0 {
                self.rx_buf.drop_first()
            } else {
                self.rx_buf
            };
            let timeout2 = if rx2.len() == 0 {
                false
            } else {
                self.timeout
            };
            let (s2, edges) = (UartV { rx_buf: rx2, timeout: timeout2, ..self }).update_ints();
            (s2, Ok(val), edges)
        } else if offset == 0x04 {
            (
                self,
                Ok(
                    if self.overrun {
                        8u32
                    } else {
                        0u32
                    },
                ),
                seq![],
            )
        } else if offset == 0x08 {
            (self, Ok(self.linctrl0), seq![])
        } else if offset == 0x0C {
            if self.linctrl_latched {
                (self, Err(uart_stale_read()), seq![])
            } else {
                (self, Ok(self.linctrl1), seq![])
            }
        } else if offset == 0x10 {
            if self.linctrl_latched {
                (self, Err(uart_stale_read()), seq![])
            } else {
                (self, Ok(self.linctrl2), seq![])
            }
        } else if offset == 0x14 {
            (self, Ok(self.ctrl), seq![])
        } else if offset == 0x18 {
            (self, Ok(self.flag_encoding()), seq![])
        } else if offset == 0x1C {
            (self, Ok(self.int_id()), seq![])
        } else if offset == 0x28 {
            (self, Err(MemExceptionKind::Unimplemented), seq![])
        } else {
            (self, Err(MemExceptionKind::Unexpected), seq![])
        }
    }

    /// The `Flag` register encoding: TXFE, RXFF, TXFF, RXFE, BUSY, and a CTS
    /// bit stubbed to "set when idle".
    pub open spec fn flag_encoding(self) -> u32 {
        ((if self.tx_buf_size == 0 {
            0x80int
        } else {
            0int
        }) + (if self.rx_buf.len() >= self.fifo_size {
            0x40int
        } else {
            0int
        }) + (if self.tx_buf_size >= self.fifo_size {
            0x20int
        } else {
            0int
        }) + (if self.rx_buf.len() == 0 {
            0x10int
        } else {
            0int
        }) + (if self.busy {
            8int
        } else {
            1int
        })) as u32
    }

    /// What a 32-bit write of `val` at `offset` does: the state it leaves,
    /// the result, the interrupt edges it emits, and the byte it queues on
    /// the outbound channel (for a `Data` write with room in the tx fifo; a
    /// write to a full fifo drops the byte).
    pub open spec fn write32_abs(self, offset: u32, val: u32) -> (
        UartV,
        Result<(), MemExceptionKind>,
        Seq<(Interrupt, bool)>,
        Option<u8>,
    ) {
        if offset == 0x00 {
            if self.tx_buf_size < self.fifo_size {
                let (s2, edges) = (UartV {
                    tx_buf_size: self.tx_buf_size + 1,
                    ..self
                }).update_ints();
                (s2, Ok(()), edges, Some((val % 0x100) as u8))
            } else {
                (self, Ok(()), seq![], None)
            }
        } else if offset == 0x04 {
            let (s2, edges) = (UartV { overrun: false, ..self }).update_ints();
            (s2, Ok(()), edges, None)
        } else if offset == 0x08 {
            let s1 = UartV {
                linctrl_latched: false,
                latch0: val,
                linctrl0: val,
                linctrl1: self.latch1,
                linctrl2: self.latch2,
                ..self
            };
            let (s2, edges) = s1.with_linctrl_derived().update_ints();
            (s2, Ok(()), edges, None)
        } else if offset == 0x0C {
            (UartV { linctrl_latched: true, latch1: val, ..self }, Ok(()), seq![], None)
        } else if offset == 0x10 {
            (UartV { linctrl_latched: true, latch2: val, ..self }, Ok(()), seq![], None)
        } else if offset == 0x14 {
            let (s2, edges) = (UartV { ctrl: val, ..self }).update_ints();
            (s2, Ok(()), edges, None)
        } else if offset == 0x18 {
            (self, Err(MemExceptionKind::InvalidAccess), seq![], None)
        } else if offset == 0x1C {
            let (s2, edges) = (UartV { cts_change: false, ..self }).update_ints();
            (s2, Ok(()), edges, None)
        } else if offset == 0x28 {
            (self, Err(MemExceptionKind::Unimplemented), seq![], None)
        } else {
            (self, Err(MemExceptionKind::Unexpected), seq![], None)
        }
    }

    /// A byte arrives from the wire: appended to the rx fifo when there is
    /// room, else dropped with `overrun` set.
    pub open spec fn rx_deliver_abs(self, b: u8) -> (UartV, Seq<(Interrupt, bool)>) {
        if self.rx_buf.len() < self.fifo_size {
            (UartV { rx_buf: self.rx_buf.push(b), ..self }).update_ints()
        } else {
            (UartV { overrun: true, ..self }, seq![])
        }
    }

    /// The rx fifo sat unread for 32 bit times: latch `timeout` when bytes
    /// are pending.
    pub open spec fn rx_timeout_abs(self) -> (UartV, Seq<(Interrupt, bool)>) {
        if self.rx_buf.len() > 0 {
            (UartV { timeout: true, ..self }).update_ints()
        } else {
            (self, seq![])
        }
    }

    /// The tx worker picks up a byte: the transmitter goes busy and the CTS
    /// line drops.
    pub open spec fn tx_start_abs(self) -> (UartV, Seq<(Interrupt, bool)>) {
        if !self.busy {
            (UartV { busy: true, cts_change: true, ..self }).update_ints()
        } else {
            (self, seq![])
        }
    }

    /// The tx worker finished shifting a byte out: the queue shrinks, and
    /// when it drains the transmitter goes idle and the CTS line rises.
    pub open spec fn tx_complete_abs(self) -> (UartV, Seq<(Interrupt, bool)>) {
        if self.tx_buf_size > 0 {
            let n = self.tx_buf_size - 1;
            let s1 = if n == 0 {
                UartV { tx_buf_size: n, busy: false, cts_change: true, ..self }
            } else {
                UartV { tx_buf_size: n, ..self }
            };
            s1.update_ints()
        } else {
            (self, seq![])
        }
    }
}

impl Uart {
    /// Well-formedness: the fifo capacity is one of the two the hardware
    /// offers, and the rx fifo never exceeds the larger one.
    pub open spec fn wf(&self) -> bool {
        (self.fifo_size == 1 || self.fifo_size == 16) && self.rx_buf@.len() <= 16
            && self.tx_buf_size <= 16
    }

    /// Create a UART with cleared registers.
    pub fn new(label: &'static str, interrupts: UartInterrupts) -> (r: Uart)
        ensures
            r.wf(),
            r.label == label,
            r@ == (UartV {
                interrupts,
                linctrl_latched: false,
                latch0: 0,
                latch1: 0,
                latch2: 0,
                linctrl0: 0,
                linctrl1: 0,
                linctrl2: 0,
                ctrl: 0,
                overrun: false,
                busy: false,
                timeout: false,
                cts_change: false,
                rx_buf: Seq::empty(),
                tx_buf_size: 0,
                rx_int_asserted: false,
                tx_int_asserted: false,
                combo_int_asserted: false,
                ..r@
            }).with_linctrl_derived(),
    {
        let mut u = Uart {
            label,
            interrupts,
            linctrl_latched: false,
            latch0: 0,
            latch1: 0,
            latch2: 0,
            linctrl0: 0,
            linctrl1: 0,
            linctrl2: 0,
            ctrl: 0,
            bittime_ns: 0,
            word_len: 0,
            fifo_size: 1,
            overrun: false,
            busy: false,
            timeout: false,
            cts_change: false,
            rx_buf: Vec::new(),
            tx_buf_size: 0,
            rx_int_asserted: false,
            tx_int_asserted: false,
            combo_int_asserted: false,
        };
        u.update_linctrl();
        u
    }

    /// Create a UART in the state the bootloader leaves it: 8-bit words,
    /// fifos enabled, 115200 baud, UART enabled.
    pub fn new_hle(label: &'static str, interrupts: UartInterrupts) -> (r: Uart)
        ensures
            r.wf(),
            r.label == label,
            r@.interrupts == interrupts,
            r@.linctrl0 == 0x70 && r@.linctrl1 == 0 && r@.linctrl2 == 3 && r@.ctrl == 1,
            r@.fifo_size == 16,
            r@.rx_buf == Seq::<u8>::empty(),
            r@.tx_buf_size == 0,
            r@.bittime_ns == bittime_of(0, 3),
            r@.word_len == word_len_of(0x70),
    {
        let mut u = Uart::new(label, interrupts);
        // 8 bit words, fifo enable
        u.linctrl0 = 0x70;
        // 115200 baud
        u.linctrl1 = 0;
        u.linctrl2 = 3;
        // UART enable
        u.ctrl = 1;
        u.update_linctrl();
        proof {
            assert(0x70u32 & 0x10 == 0x10 && 0x70u32 & 8 == 0 && 0x70u32 & 2 == 0) by (bit_vector);
        }
        u
    }

    /// Recompute the derived line-control state (bit time, word length, fifo
    /// capacity) from the committed line-control words.
    pub fn update_linctrl(&mut self)
        ensures
            final(self)@ == old(self)@.with_linctrl_derived(),
            final(self).label == old(self).label,
            final(self).fifo_size == 1 || final(self).fifo_size == 16,
    {
        let bauddiv: u64 = (self.linctrl1 as u64 % 0x100) * 0x1_0000_0000 + self.linctrl2 as u64;
        let baud: u64 = UARTCLK_HZ / 16 / (bauddiv + 1);
        self.bittime_ns = if baud == 0 {
            0xFFFF_FFFF_FFFF_FFFFu64
        } else {
            1_000_000_000 / baud
        };
        self.word_len = 1 + 8 + (if self.linctrl0 & 8 != 0 {
            2
        } else {
            1
        }) + (if self.linctrl0 & 2 != 0 {
            1
        } else {
            0
        });
        self.fifo_size = if self.linctrl0 & 0x10 != 0 {
            16
        } else {
            1
        };
    }

    /// Returns the interrupt status in the format of the `IntIDIntClr`
    /// register.
    pub fn get_int_id(&self) -> (r: u8)
        ensures
            r as u32 == self@.int_id(),
    {
        let mut bits: u32 = 0;
        if self.timeout {
            bits = bits + 8;
        }
        if (self.tx_buf_size as u128) * 2 <= self.fifo_size as u128 {
            bits = bits + 4;
        }
        if (self.rx_buf.len() as u128) * 2 >= self.fifo_size as u128 {
            bits = bits + 2;
        }
        if self.cts_change {
            bits = bits + 1;
        }
        let ctrl = self.ctrl;
        let masked: u32 = bits & (ctrl >> 3);
        proof {
            assert(masked < 16) by (bit_vector)
                requires
                    masked == bits & (ctrl >> 3),
                    bits < 16,
            ;
        }
        masked as u8
    }

    /// Recompute the three logical interrupt lines, returning the edges to
    /// emit on the interrupt bus.
    #[verifier::rlimit(50)]
    pub fn update_interrupts(&mut self) -> (edges: Vec<(Interrupt, bool)>)
        ensures
            ({
                let (s2, es) = old(self)@.update_ints();
                final(self)@ == s2 && edges@ == es && final(self).label == old(self).label
                    && final(self).fifo_size == old(self).fifo_size && final(self).rx_buf@ == old(
                    self,
                ).rx_buf@ && final(self).tx_buf_size == old(self).tx_buf_size
            }),
    {
        let int_id = self.get_int_id();
        let mut edges: Vec<(Interrupt, bool)> = Vec::new();
        let ta = int_id & 4 != 0;
        if ta != self.tx_int_asserted {
            self.tx_int_asserted = ta;
            edges.push((self.interrupts.tx, ta));
        }
        let ra = int_id & 2 != 0;
        if ra != self.rx_int_asserted {
            self.rx_int_asserted = ra;
            edges.push((self.interrupts.rx, ra));
        }
        let ca = int_id & 0xF != 0;
        if ca != self.combo_int_asserted {
            self.combo_int_asserted = ca;
            edges.push((self.interrupts.combo, ca));
        }
        proof {
            let b = old(self)@.int_id();
            assert((int_id & 4 != 0) == (b & 4 != 0) && (int_id & 2 != 0) == (b & 2 != 0) && (
            int_id & 0xF != 0) == (b & 0xF != 0)) by (bit_vector)
                requires
                    int_id as u32 == b,
            ;
            assert(edges@ =~= old(self)@.update_ints().1);
        }
        edges
    }

    /// The identifier this UART stamps on its faults.
    pub(crate) fn ident(&self) -> (r: String)
        ensures
            r@ == uart_ident(self.label),
    {
        let mut s = String::from_str("UART");
        s.append(":");
        s.append(self.label);
        s
    }

    /// Read a 32 bit value at a given offset, returning also the interrupt
    /// edges the access emits.
    #[verifier::rlimit(50)]
    pub fn r32(&mut self, offset: u32) -> (r: (MemResult<u32>, Vec<(Interrupt, bool)>))
        requires
            old(self).wf(),
        ensures
            final(self).wf(),
            final(self).label == old(self).label,
            ({
                let (s2, abs, es) = old(self)@.read32_abs(offset);
                final(self)@ == s2 && res_matches(r.0, abs, offset, uart_ident(old(self).label))
                    && r.1@ == es
            }),
    {
        if offset == 0x00 {
            // pop the rx fifo; an empty fifo reads as a dummy zero
            let val: u32 = if self.rx_buf.len() > 0 {
                self.rx_buf.remove(0) as u32
            } else {
                0
            };
            if self.rx_buf.len() == 0 {
                self.timeout = false;
            }
            let edges = self.update_interrupts();
            (Ok(val), edges)
        } else if offset == 0x04 {
            (
                Ok(
                    if self.overrun {
                        8
                    } else {
                        0
                    },
                ),
                Vec::new(),
            )
        } else if offset == 0x08 {
            (Ok(self.linctrl0), Vec::new())
        } else if offset == 0x0C {
            if self.linctrl_latched {
                (
                    Err(
                        MemException::new_with_msg(
                            self.ident(),
                            offset,
                            MemExceptionKind::ContractViolation {
                                severity: Severity::Warn,
                                stub_val: None,
                            },
                            String::from_str("read of stale line control (commit LinCtrlHigh first)"),
                        ),
                    ),
                    Vec::new(),
                )
            } else {
                (Ok(self.linctrl1), Vec::new())
            }
        } else if offset == 0x10 {
            if self.linctrl_latched {
                (
                    Err(
                        MemException::new_with_msg(
                            self.ident(),
                            offset,
                            MemExceptionKind::ContractViolation {
                                severity: Severity::Warn,
                                stub_val: None,
                            },
                            String::from_str("read of stale line control (commit LinCtrlHigh first)"),
                        ),
                    ),
                    Vec::new(),
                )
            } else {
                (Ok(self.linctrl2), Vec::new())
            }
        } else if offset == 0x14 {
            (Ok(self.ctrl), Vec::new())
        } else if offset == 0x18 {
            let mut flags: u32 = 0;
            if self.tx_buf_size == 0 {
                flags = flags + 0x80;
            }
            if self.rx_buf.len() >= self.fifo_size {
                flags = flags + 0x40;
            }
            if self.tx_buf_size >= self.fifo_size {
                flags = flags + 0x20;
            }
            if self.rx_buf.len() == 0 {
                flags = flags + 0x10;
            }
            if self.busy {
                flags = flags + 0x8;
            } else {
                // CTS is stubbed as "set when not sending"
                flags = flags + 0x1;
            }
            (Ok(flags), Vec::new())
        } else if offset == 0x1C {
            (Ok(self.get_int_id() as u32), Vec::new())
        } else if offset == 0x28 {
            (
                Err(MemException::new(self.ident(), offset, MemExceptionKind::Unimplemented)),
                Vec::new(),
            )
        } else {
            (
                Err(MemException::new(self.ident(), offset, MemExceptionKind::Unexpected)),
                Vec::new(),
            )
        }
    }

    /// Write a 32 bit value to a given offset. Besides the access result,
    /// returns the interrupt edges the access emits and the byte to queue on
    /// the outbound channel (for a `Data` write that fit in the tx fifo).
    #[verifier::rlimit(50)]
    pub fn w32(&mut self, offset: u32, val: u32) -> (r: (
        MemResult<()>,
        Vec<(Interrupt, bool)>,
        Option<u8>,
    ))
        requires
            old(self).wf(),
        ensures
            final(self).wf(),
            final(self).label == old(self).label,
            ({
                let (s2, abs, es, out) = old(self)@.write32_abs(offset, val);
                final(self)@ == s2 && res_matches(r.0, abs, offset, uart_ident(old(self).label))
                    && r.1@ == es && r.2 == out
            }),
    {
        if offset == 0x00 {
            // drop the byte if the tx fifo is full
            if self.tx_buf_size < self.fifo_size {
                self.tx_buf_size = self.tx_buf_size + 1;
                let edges = self.update_interrupts();
                (Ok(()), edges, Some((val % 0x100) as u8))
            } else {
                (Ok(()), Vec::new(), None)
            }
        } else if offset == 0x04 {
            self.overrun = false;
            let edges = self.update_interrupts();
            (Ok(()), edges, None)
        } else if offset == 0x08 {
            self.linctrl_latched = false;
            self.latch0 = val;
            self.linctrl0 = self.latch0;
            self.linctrl1 = self.latch1;
            self.linctrl2 = self.latch2;
            self.update_linctrl();
            let edges = self.update_interrupts();
            (Ok(()), edges, None)
        } else if offset == 0x0C {
            self.linctrl_latched = true;
            self.latch1 = val;
            (Ok(()), Vec::new(), None)
        } else if offset == 0x10 {
            self.linctrl_latched = true;
            self.latch2 = val;
            (Ok(()), Vec::new(), None)
        } else if offset == 0x14 {
            self.ctrl = val;
            let edges = self.update_interrupts();
            (Ok(()), edges, None)
        } else if offset == 0x18 {
            (
                Err(MemException::new(self.ident(), offset, MemExceptionKind::InvalidAccess)),
                Vec::new(),
                None,
            )
        } else if offset == 0x1C {
            self.cts_change = false;
            let edges = self.update_interrupts();
            (Ok(()), edges, None)
        } else if offset == 0x28 {
            (
                Err(MemException::new(self.ident(), offset, MemExceptionKind::Unimplemented)),
                Vec::new(),
                None,
            )
        } else {
            (
                Err(MemException::new(self.ident(), offset, MemExceptionKind::Unexpected)),
                Vec::new(),
                None,
            )
        }
    }

    /// A byte arrives from the wire (after its transmission delay): append
    /// it to the rx fifo, or set `overrun` and drop it when the fifo is
    /// full.
    pub fn rx_deliver(&mut self, b: u8) -> (edges: Vec<(Interrupt, bool)>)
        requires
            old(self).wf(),
        ensures
            final(self).wf(),
            final(self).label == old(self).label,
            ({
                let (s2, es) = old(self)@.rx_deliver_abs(b);
                final(self)@ == s2 && edges@ == es
            }),
    {
        if self.rx_buf.len() < self.fifo_size {
            self.rx_buf.push(b);
            self.update_interrupts()
        } else {
            self.overrun = true;
            Vec::new()
        }
    }

    /// The rx fifo sat unread for 32 bit times: latch `timeout` when bytes
    /// are pending.
    pub fn rx_timeout(&mut self) -> (edges: Vec<(Interrupt, bool)>)
        requires
            old(self).wf(),
        ensures
            final(self).wf(),
            final(self).label == old(self).label,
            ({
                let (s2, es) = old(self)@.rx_timeout_abs();
                final(self)@ == s2 && edges@ == es
            }),
    {
        if self.rx_buf.len() > 0 {
            self.timeout = true;
            self.update_interrupts()
        } else {
            Vec::new()
        }
    }

    /// The tx worker picked up a byte: the transmitter goes busy and the
    /// CTS line drops.
    pub fn tx_start(&mut self) -> (edges: Vec<(Interrupt, bool)>)
        requires
            old(self).wf(),
        ensures
            final(self).wf(),
            final(self).label == old(self).label,
            ({
                let (s2, es) = old(self)@.tx_start_abs();
                final(self)@ == s2 && edges@ == es
            }),
    {
        if !self.busy {
            self.busy = true;
            self.cts_change = true;
            self.update_interrupts()
        } else {
            Vec::new()
        }
    }

    /// The tx worker finished shifting a byte out: the queue shrinks, and
    /// when it drains the transmitter goes idle and the CTS line rises.
    pub fn tx_complete(&mut self) -> (edges: Vec<(Interrupt, bool)>)
        requires
            old(self).wf(),
        ensures
            final(self).wf(),
            final(self).label == old(self).label,
            ({
                let (s2, es) = old(self)@.tx_complete_abs();
                final(self)@ == s2 && edges@ == es
            }),
    {
        if self.tx_buf_size > 0 {
            self.tx_buf_size = self.tx_buf_size - 1;
            if self.tx_buf_size == 0 {
                self.busy = false;
                self.cts_change = true;
            }
            self.update_interrupts()
        } else {
            Vec::new()
        }
    }

    /// Read an 8 bit value at a given offset: misaligned offsets are
    /// rejected, aligned ones forward to the 32-bit read, truncating.
    pub fn r8(&mut self, offset: u32) -> (r: (MemResult<u8>, Vec<(Interrupt, bool)>))
        requires
            old(self).wf(),
        ensures
            final(self).wf(),
            final(self).label == old(self).label,
            offset % 4 != 0 ==> *final(self) == *old(self) && res_matches(
                crate::exception::widen_res8(r.0),
                Err::<u32, _>(MemExceptionKind::Misaligned),
                offset,
                uart_ident(old(self).label),
            ) && r.1@ == Seq::<(Interrupt, bool)>::empty(),
            offset % 4 == 0 ==> ({
                let (s2, abs, es) = old(self)@.read32_abs(offset);
                final(self)@ == s2 && r.1@ == es && (match abs {
                    Ok(w) => r.0 matches Ok(v) && v == w % 0x100,
                    Err(k) => res_matches(
                        crate::exception::widen_res8(r.0),
                        Err::<u32, _>(k),
                        offset,
                        uart_ident(old(self).label),
                    ),
                })
            }),
    {
        if offset % 4 != 0 {
            return (
                (Err(MemException::new(self.ident(), offset, MemExceptionKind::Misaligned))),
                Vec::new(),
            );
        }
        let (res, edges) = self.r32(offset);
        match res {
            Ok(v) => (Ok((v % 0x100) as u8), edges),
            Err(e) => (Err(e), edges),
        }
    }

    /// Read a 16 bit value at a given offset: misaligned offsets are
    /// rejected, aligned ones forward to the 32-bit read, truncating.
    pub fn r16(&mut self, offset: u32) -> (r: (MemResult<u16>, Vec<(Interrupt, bool)>))
        requires
            old(self).wf(),
        ensures
            final(self).wf(),
            final(self).label == old(self).label,
            offset % 4 != 0 ==> *final(self) == *old(self) && res_matches(
                crate::exception::widen_res16(r.0),
                Err::<u32, _>(MemExceptionKind::Misaligned),
                offset,
                uart_ident(old(self).label),
            ) && r.1@ == Seq::<(Interrupt, bool)>::empty(),
            offset % 4 == 0 ==> ({
                let (s2, abs, es) = old(self)@.read32_abs(offset);
                final(self)@ == s2 && r.1@ == es && (match abs {
                    Ok(w) => r.0 matches Ok(v) && v == w % 0x1_0000,
                    Err(k) => res_matches(
                        crate::exception::widen_res16(r.0),
                        Err::<u32, _>(k),
                        offset,
                        uart_ident(old(self).label),
                    ),
                })
            }),
    {
        if offset % 4 != 0 {
            return (
                (Err(MemException::new(self.ident(), offset, MemExceptionKind::Misaligned))),
                Vec::new(),
            );
        }
        let (res, edges) = self.r32(offset);
        match res {
            Ok(v) => (Ok((v % 0x1_0000) as u16), edges),
            Err(e) => (Err(e), edges),
        }
    }

    /// Write an 8 bit value at a given offset: misaligned offsets are
    /// rejected, aligned ones forward to the 32-bit write.
    pub fn w8(&mut self, offset: u32, val: u8) -> (r: (
        MemResult<()>,
        Vec<(Interrupt, bool)>,
        Option<u8>,
    ))
        requires
            old(self).wf(),
        ensures
            final(self).wf(),
            final(self).label == old(self).label,
            offset % 4 != 0 ==> *final(self) == *old(self) && res_matches(
                r.0,
                Err::<(), _>(MemExceptionKind::Misaligned),
                offset,
                uart_ident(old(self).label),
            ) && r.1@ == Seq::<(Interrupt, bool)>::empty() && r.2 is None,
            offset % 4 == 0 ==> ({
                let (s2, abs, es, out) = old(self)@.write32_abs(offset, val as u32);
                final(self)@ == s2 && res_matches(r.0, abs, offset, uart_ident(old(self).label))
                    && r.1@ == es && r.2 == out
            }),
    {
        if offset % 4 != 0 {
            return (
                Err(MemException::new(self.ident(), offset, MemExceptionKind::Misaligned)),
                Vec::new(),
                None,
            );
        }
        self.w32(offset, val as u32)
    }

    /// Write a 16 bit value at a given offset: misaligned offsets are
    /// rejected, aligned ones forward to the 32-bit write.
    pub fn w16(&mut self, offset: u32, val: u16) -> (r: (
        MemResult<()>,
        Vec<(Interrupt, bool)>,
        Option<u8>,
    ))
        requires
            old(self).wf(),
        ensures
            final(self).wf(),
            final(self).label == old(self).label,
            offset % 4 != 0 ==> *final(self) == *old(self) && res_matches(
                r.0,
                Err::<(), _>(MemExceptionKind::Misaligned),
                offset,
                uart_ident(old(self).label),
            ) && r.1@ == Seq::<(Interrupt, bool)>::empty() && r.2 is None,
            offset % 4 == 0 ==> ({
                let (s2, abs, es, out) = old(self)@.write32_abs(offset, val as u32);
                final(self)@ == s2 && res_matches(r.0, abs, offset, uart_ident(old(self).label))
                    && r.1@ == es && r.2 == out
            }),
    {
        if offset % 4 != 0 {
            return (
                Err(MemException::new(self.ident(), offset, MemExceptionKind::Misaligned)),
                Vec::new(),
                None,
            );
        }
        self.w32(offset, val as u32)
    }
}

impl Device for Uart {
    fn kind(&self) -> (r: &'static str)
        ensures
            r@ == "UART"@,
    {
        "UART"
    }

    fn label(&self) -> (r: Option<&'static str>)
        ensures
            r == Some(self.label),
    {
        Some(self.label)
    }

    /// Names the register at `offset` exactly when the UART maps one there.
    fn probe(&self, offset: u32) -> (r: Probe)
        ensures
            uart_reg_name(offset) matches Some(n) ==> r matches Probe::Register(s) && s@ == n,
            uart_reg_name(offset) is None ==> r is Unmapped,
    {
        match offset {
            0x00 => Probe::Register("Data"),
            0x04 => Probe::Register("RXSts"),
            0x08 => Probe::Register("LinCtrlHigh"),
            0x0C => Probe::Register("LinCtrlMid"),
            0x10 => Probe::Register("LinCtrlLow"),
            0x14 => Probe::Register("Ctrl"),
            0x18 => Probe::Register("Flag"),
            0x1C => Probe::Register("IntIDIntClr"),
            0x20 => Probe::Register("IrLowPwrCntr"),
            0x28 => Probe::Register("DMACtrl"),
            _ => Probe::Unmapped,
        }
    }
}

/// The name of the UART register at `offset`, if one is mapped there.
pub open spec fn uart_reg_name(offset: u32) -> Option<Seq<char>> {
    if offset == 0x00 {
        Some("Data"@)
    } else if offset == 0x04 {
        Some("RXSts"@)
    } else if offset == 0x08 {
        Some("LinCtrlHigh"@)
    } else if offset == 0x0C {
        Some("LinCtrlMid"@)
    } else if offset == 0x10 {
        Some("LinCtrlLow"@)
    } else if offset == 0x14 {
        Some("Ctrl"@)
    } else if offset == 0x18 {
        Some("Flag"@)
    } else if offset == 0x1C {
        Some("IntIDIntClr"@)
    } else if offset == 0x20 {
        Some("IrLowPwrCntr"@)
    } else if offset == 0x28 {
        Some("DMACtrl"@)
    } else {
        None
    }
}


/// The interrupt lines UART1 raises.
pub open spec fn uart1_ints() -> UartInterrupts {
    UartInterrupts {
        rx: Interrupt::Uart1RxIntr1,
        tx: Interrupt::Uart1TxIntr1,
        combo: Interrupt::IntUart1,
    }
}

/// The interrupt lines UART2 raises.
pub open spec fn uart2_ints() -> UartInterrupts {
    UartInterrupts {
        rx: Interrupt::Uart2RxIntr2,
        tx: Interrupt::Uart2TxIntr2,
        combo: Interrupt::IntUart2,
    }
}

/// The interrupt lines UART3 raises.
pub open spec fn uart3_ints() -> UartInterrupts {
    UartInterrupts {
        rx: Interrupt::Uart3RxIntr3,
        tx: Interrupt::Uart3TxIntr3,
        combo: Interrupt::IntUart3,
    }
}

/// The interrupt lines UART1 raises.
pub fn uart1_ints_exec() -> (r: UartInterrupts)
    ensures
        r == uart1_ints(),
{
    UartInterrupts {
        rx: Interrupt::Uart1RxIntr1,
        tx: Interrupt::Uart1TxIntr1,
        combo: Interrupt::IntUart1,
    }
}

/// The interrupt lines UART2 raises.
pub fn uart2_ints_exec() -> (r: UartInterrupts)
    ensures
        r == uart2_ints(),
{
    UartInterrupts {
        rx: Interrupt::Uart2RxIntr2,
        tx: Interrupt::Uart2TxIntr2,
        combo: Interrupt::IntUart2,
    }
}

/// The interrupt lines UART3 raises.
pub fn uart3_ints_exec() -> (r: UartInterrupts)
    ensures
        r == uart3_ints(),
{
    UartInterrupts {
        rx: Interrupt::Uart3RxIntr3,
        tx: Interrupt::Uart3TxIntr3,
        combo: Interrupt::IntUart3,
    }
}

/// Recomputing the interrupt lines never emits the same line twice, and a
/// second recomputation emits nothing at all: each logical interrupt edge
/// reaches the bus at most once per state change.
pub proof fn lemma_uart_interrupts_stabilize(v: UartV)
    ensures
        ({
            let (v2, es) = v.update_ints();
            &&& v2.tx_int_asserted == v.tx_assert()
            &&& v2.rx_int_asserted == v.rx_assert()
            &&& v2.combo_int_asserted == v.combo_assert()
            &&& es.len() <= 3
            &&& v2.update_ints().1 =~= Seq::<(Interrupt, bool)>::empty()
        }),
{
}

/// A byte arriving at a full rx fifo is dropped and latches `overrun`; with
/// room in the fifo it is appended unchanged.
pub proof fn lemma_uart_rx_capacity(v: UartV, b: u8)
    ensures
        v.rx_buf.len() >= v.fifo_size ==> ({
            let (v2, es) = v.rx_deliver_abs(b);
            v2.rx_buf == v.rx_buf && v2.overrun && es =~= Seq::<(Interrupt, bool)>::empty()
        }),
        v.rx_buf.len() < v.fifo_size ==> ({
            let (v2, es) = v.rx_deliver_abs(b);
            v2.rx_buf == v.rx_buf.push(b) && v2.overrun == v.overrun
        }),
{
}

/// A `Data` write queues the byte exactly when the tx fifo has room; a
/// write to a full fifo is dropped without touching the queue.
pub proof fn lemma_uart_tx_capacity(v: UartV, val: u32)
    ensures
        v.tx_buf_size < v.fifo_size ==> ({
            let (v2, r, es, out) = v.write32_abs(0x00, val);
            r is Ok && out == Some((val % 0x100) as u8) && v2.tx_buf_size == v.tx_buf_size + 1
        }),
        v.tx_buf_size >= v.fifo_size ==> ({
            let (v2, r, es, out) = v.write32_abs(0x00, val);
            r is Ok && out is None && v2 == v
        }),
{
}

} // verus!
