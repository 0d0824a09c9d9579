//! Fixed-size RAM with per-byte initialization tracking.
//!
//! The buffer is filled with a conspicuous non-zero byte (`'-'`) at creation
//! to aid post-mortem inspection, and a parallel bitmap records which bytes
//! have been written. Reading any byte whose bit is still clear yields a
//! warning-level contract violation whose `stub_val` carries the raw
//! (undefined) content, so the CPU can still continue. Words and halfwords
//! are laid out little-endian.

use vstd::prelude::*;
use vstd::string::StringExecFns;

use crate::device::{Device, Probe};
use crate::exception::{res_matches, widen_res16, widen_res8, MemException, MemExceptionKind, MemResult, Severity};
use crate::memory::{byte0, byte1, byte2, byte3, Memory};

verus! {

/// Basic fixed-size RAM module.
pub struct Ram {
    /// Backing store.
    pub mem: Vec<u8>,
    /// Which bytes of `mem` have been written since creation.
    pub initialized: Vec<bool>,
}

/// True when every byte in `[offset, offset + width)` has been written.
pub open spec fn init_range(init: Seq<bool>, offset: int, width: int) -> bool {
    forall|i: int| offset <= i < offset + width ==> init[i]
}

/// The little-endian value of `width` bytes starting at `offset`.
pub open spec fn le_val(mem: Seq<u8>, offset: int, width: int) -> int
    decreases width,
{
    if width <= 0 {
        0
    } else {
        mem[offset] + 0x100 * le_val(mem, offset + 1, width - 1)
    }
}

/// The bytes after storing `val` little-endian over 4 bytes at `offset`.
pub open spec fn store32(mem: Seq<u8>, offset: int, val: u32) -> Seq<u8> {
    mem.update(offset, byte0(val)).update(offset + 1, byte1(val)).update(offset + 2, byte2(val)).update(offset + 3, byte3(val))
}

/// The bytes after storing `val` little-endian over 2 bytes at `offset`.
pub open spec fn store16(mem: Seq<u8>, offset: int, val: u16) -> Seq<u8> {
    mem.update(offset, (val % 0x100) as u8).update(offset + 1, (val / 0x100) as u8)
}

/// The initialization bitmap after marking `width` bytes at `offset` written.
pub open spec fn mark_init(init: Seq<bool>, offset: int, width: int) -> Seq<bool>
    decreases width,
{
    if width <= 0 {
        init
    } else {
        mark_init(init, offset, width - 1).update(offset + width - 1, true)
    }
}

/// What a `width`-byte read at `offset` returns: the stored value when every
/// spanned byte is initialized, and otherwise a warning-level contract
/// violation whose stub carries the raw contents.
pub open spec fn read_abs(mem: Seq<u8>, init: Seq<bool>, offset: u32, width: int) -> Result<
    u32,
    MemExceptionKind,
> {
    if offset + width > mem.len() {
        Err(MemExceptionKind::Unexpected)
    } else if init_range(init, offset as int, width) {
        Ok(le_val(mem, offset as int, width) as u32)
    } else {
        Err(
            MemExceptionKind::ContractViolation {
                severity: Severity::Warn,
                stub_val: Some(le_val(mem, offset as int, width) as u32),
            },
        )
    }
}

/// The hexadecimal digit for a nibble.
pub open spec fn hex_digit(d: u8) -> char {
    if d == 0 {
        '0'
    } else if d == 1 {
        '1'
    } else if d == 2 {
        '2'
    } else if d == 3 {
        '3'
    } else if d == 4 {
        '4'
    } else if d == 5 {
        '5'
    } else if d == 6 {
        '6'
    } else if d == 7 {
        '7'
    } else if d == 8 {
        '8'
    } else if d == 9 {
        '9'
    } else if d == 10 {
        'a'
    } else if d == 11 {
        'b'
    } else if d == 12 {
        'c'
    } else if d == 13 {
        'd'
    } else if d == 14 {
        'e'
    } else {
        'f'
    }
}

/// How one byte appears in a RAM dump: two hex digits when initialized,
/// `"??"` otherwise.
pub open spec fn byte_dump(init: bool, b: u8) -> Seq<char> {
    if init {
        seq![hex_digit((b / 16) as u8), hex_digit((b % 16) as u8)]
    } else {
        "??"@
    }
}

/// The rendered dump of `size` bytes at `offset`: `0x` followed by one
/// [`byte_dump`] per byte.
pub open spec fn dump_spec(mem: Seq<u8>, init: Seq<bool>, offset: int, size: int) -> Seq<char>
    decreases size,
{
    if size <= 0 {
        "0x"@
    } else {
        dump_spec(mem, init, offset, size - 1) + byte_dump(init[offset + size - 1], mem[offset + size - 1])
    }
}

/// Append the hexadecimal digit for nibble `d` to `s`.
fn append_hex_digit(s: &mut String, d: u8)
    requires
        d < 16,
    ensures
        final(s)@ == old(s)@ + seq![hex_digit(d)],
{
    if d == 0 {
        s.append("0");
        proof {
            reveal_strlit("0");
            assert("0"@ =~= seq![hex_digit(0)]);
        }
    } else if d == 1 {
        s.append("1");
        proof {
            reveal_strlit("1");
            assert("1"@ =~= seq![hex_digit(1)]);
        }
    } else if d == 2 {
        s.append("2");
        proof {
            reveal_strlit("2");
            assert("2"@ =~= seq![hex_digit(2)]);
        }
    } else if d == 3 {
        s.append("3");
        proof {
            reveal_strlit("3");
            assert("3"@ =~= seq![hex_digit(3)]);
        }
    } else if d == 4 {
        s.append("4");
        proof {
            reveal_strlit("4");
            assert("4"@ =~= seq![hex_digit(4)]);
        }
    } else if d == 5 {
        s.append("5");
        proof {
            reveal_strlit("5");
            assert("5"@ =~= seq![hex_digit(5)]);
        }
    } else if d == 6 {
        s.append("6");
        proof {
            reveal_strlit("6");
            assert("6"@ =~= seq![hex_digit(6)]);
        }
    } else if d == 7 {
        s.append("7");
        proof {
            reveal_strlit("7");
            assert("7"@ =~= seq![hex_digit(7)]);
        }
    } else if d == 8 {
        s.append("8");
        proof {
            reveal_strlit("8");
            assert("8"@ =~= seq![hex_digit(8)]);
        }
    } else if d == 9 {
        s.append("9");
        proof {
            reveal_strlit("9");
            assert("9"@ =~= seq![hex_digit(9)]);
        }
    } else if d == 10 {
        s.append("a");
        proof {
            reveal_strlit("a");
            assert("a"@ =~= seq![hex_digit(10)]);
        }
    } else if d == 11 {
        s.append("b");
        proof {
            reveal_strlit("b");
            assert("b"@ =~= seq![hex_digit(11)]);
        }
    } else if d == 12 {
        s.append("c");
        proof {
            reveal_strlit("c");
            assert("c"@ =~= seq![hex_digit(12)]);
        }
    } else if d == 13 {
        s.append("d");
        proof {
            reveal_strlit("d");
            assert("d"@ =~= seq![hex_digit(13)]);
        }
    } else if d == 14 {
        s.append("e");
        proof {
            reveal_strlit("e");
            assert("e"@ =~= seq![hex_digit(14)]);
        }
    } else {
        s.append("f");
        proof {
            reveal_strlit("f");
            assert("f"@ =~= seq![hex_digit(15)]);
        }
    }
}

impl Ram {
    /// Create a RAM of `size` bytes, filled with `'-'` and wholly
    /// uninitialized.
    pub fn new(size: usize) -> (r: Ram)
        ensures
            r.inv(),
            r.mem@.len() == size,
            forall|i: int| 0 <= i < size ==> r.mem@[i] == 0x2d,
            forall|i: int| 0 <= i < size ==> !r.initialized@[i],
    {
        let mem = vec![0x2d; size];
        let initialized = vec![false; size];
        proof {
            assert forall|i: int| 0 <= i < size implies mem@[i] == 0x2d by {
                assert(cloned(0x2d, mem@[i]));
            }
            assert forall|i: int| 0 <= i < size implies !initialized@[i] by {
                assert(cloned(false, initialized@[i]));
            }
        }
        Ram { mem, initialized }
    }

    /// Create a RAM of `size` bytes holding `data` at its base.
    pub fn new_with_data(size: usize, data: &[u8]) -> (r: Ram)
        requires
            data@.len() <= size,
        ensures
            r.inv(),
            r.mem@.len() == size,
            forall|i: int| 0 <= i < data@.len() ==> r.mem@[i] == data@[i] && r.initialized@[i],
            forall|i: int| data@.len() <= i < size ==> r.mem@[i] == 0x2d && !r.initialized@[i],
    {
        let mut ram = Ram::new(size);
        ram.bulk_write(0, data);
        ram
    }

    /// Store `data` at `offset`, marking every written byte initialized.
    pub fn bulk_write(&mut self, offset: usize, data: &[u8])
        requires
            old(self).inv(),
            offset + data@.len() <= old(self).mem@.len(),
        ensures
            final(self).inv(),
            final(self).mem@.len() == old(self).mem@.len(),
            forall|i: int|
                offset <= i < offset + data@.len() ==> final(self).mem@[i] == data@[i - offset]
                    && final(self).initialized@[i],
            forall|i: int|
                0 <= i < final(self).mem@.len() && !(offset <= i < offset + data@.len())
                    ==> final(self).mem@[i] == old(self).mem@[i] && final(self).initialized@[i]
                    == old(self).initialized@[i],
    {
        let mut i: usize = 0;
        while i < data.len()
            invariant
                self.inv(),
                i <= data@.len(),
                offset + data@.len() <= self.mem@.len(),
                self.mem.len() == self.mem@.len(),
                self.mem@.len() == old(self).mem@.len(),
                forall|j: int|
                    offset <= j < offset + i ==> self.mem@[j] == data@[j - offset]
                        && self.initialized@[j],
                forall|j: int|
                    0 <= j < self.mem@.len() && !(offset <= j < offset + i) ==> self.mem@[j] == old(
                        self,
                    ).mem@[j] && self.initialized@[j] == old(self).initialized@[j],
            decreases data@.len() - i,
        {
            self.mem.set(offset + i, data[i]);
            self.initialized.set(offset + i, true);
            i = i + 1;
        }
    }

    /// Render `size` bytes at `offset` for diagnostics: hex digits for
    /// initialized bytes, `??` for the rest.
    fn addr_as_str(&self, offset: usize, size: usize) -> (r: String)
        requires
            self.inv(),
            offset + size <= self.mem@.len(),
        ensures
            r@ == dump_spec(self.mem@, self.initialized@, offset as int, size as int),
    {
        let mut s = String::from_str("0x");
        proof {
            assert(s@ == dump_spec(self.mem@, self.initialized@, offset as int, 0));
        }
        let mut i: usize = 0;
        while i < size
            invariant
                self.inv(),
                offset + size <= self.mem@.len(),
                self.mem.len() == self.mem@.len(),
                i <= size,
                s@ == dump_spec(self.mem@, self.initialized@, offset as int, i as int),
            decreases size - i,
        {
            if self.initialized[offset + i] {
                let b = self.mem[offset + i];
                append_hex_digit(&mut s, b / 16);
                append_hex_digit(&mut s, b % 16);
                proof {
                    assert(seq![hex_digit((b / 16) as u8)] + seq![hex_digit((b % 16) as u8)]
                        =~= byte_dump(true, b));
                    assert(s@ =~= dump_spec(
                        self.mem@,
                        self.initialized@,
                        offset as int,
                        i + 1 as int,
                    ));
                }
            } else {
                s.append("??");
                proof {
                    assert(s@ =~= dump_spec(
                        self.mem@,
                        self.initialized@,
                        offset as int,
                        i + 1 as int,
                    ));
                }
            }
            i = i + 1;
        }
        s
    }
}

impl Device for Ram {
    fn kind(&self) -> (r: &'static str)
        ensures
            r@ == "Ram"@,
    {
        "Ram"
    }

    /// RAM declares no named registers: every offset probes as unmapped.
    fn probe(&self, offset: u32) -> (r: Probe)
        ensures
            r is Unmapped,
    {
        Probe::Unmapped
    }
}

impl Memory for Ram {
    open spec fn inv(&self) -> bool {
        self.mem@.len() == self.initialized@.len()
    }

    fn r8(&mut self, offset: u32) -> (r: MemResult<u8>)
        ensures
            *final(self) == *old(self),
            res_matches(
                widen_res8(r),
                read_abs(old(self).mem@, old(self).initialized@, offset, 1),
                offset,
                "Ram"@,
            ),
    {
        let off = offset as usize;
        if off >= self.mem.len() {
            return Err(
                MemException::new(String::from_str("Ram"), offset, MemExceptionKind::Unexpected),
            );
        }
        let val = self.mem[off];
        proof {
            assert(le_val(self.mem@, off as int, 1) == val + 0x100 * le_val(
                self.mem@,
                off + 1 as int,
                0,
            ));
        }
        if !self.initialized[off] {
            let msg = self.addr_as_str(off, 1);
            return Err(
                MemException::new_with_msg(
                    String::from_str("Ram"),
                    offset,
                    MemExceptionKind::ContractViolation {
                        severity: Severity::Warn,
                        stub_val: Some(val as u32),
                    },
                    msg,
                ),
            );
        }
        Ok(val)
    }

    fn r16(&mut self, offset: u32) -> (r: MemResult<u16>)
        ensures
            *final(self) == *old(self),
            res_matches(
                widen_res16(r),
                read_abs(old(self).mem@, old(self).initialized@, offset, 2),
                offset,
                "Ram"@,
            ),
    {
        let off = offset as usize;
        if self.mem.len() < 2 || off > self.mem.len() - 2 {
            return Err(
                MemException::new(String::from_str("Ram"), offset, MemExceptionKind::Unexpected),
            );
        }
        let b0 = self.mem[off];
        let b1 = self.mem[off + 1];
        let val: u16 = b0 as u16 + b1 as u16 * 0x100;
        proof {
            assert(le_val(self.mem@, off as int, 2) == b0 + 0x100 * le_val(
                self.mem@,
                off + 1 as int,
                1,
            ));
            assert(le_val(self.mem@, off + 1 as int, 1) == b1 + 0x100 * le_val(
                self.mem@,
                off + 2 as int,
                0,
            ));
        }
        if !(self.initialized[off] && self.initialized[off + 1]) {
            let msg = self.addr_as_str(off, 2);
            return Err(
                MemException::new_with_msg(
                    String::from_str("Ram"),
                    offset,
                    MemExceptionKind::ContractViolation {
                        severity: Severity::Warn,
                        stub_val: Some(val as u32),
                    },
                    msg,
                ),
            );
        }
        Ok(val)
    }

    fn r32(&mut self, offset: u32) -> (r: MemResult<u32>)
        ensures
            *final(self) == *old(self),
            res_matches(
                r,
                read_abs(old(self).mem@, old(self).initialized@, offset, 4),
                offset,
                "Ram"@,
            ),
    {
        let off = offset as usize;
        if self.mem.len() < 4 || off > self.mem.len() - 4 {
            return Err(
                MemException::new(String::from_str("Ram"), offset, MemExceptionKind::Unexpected),
            );
        }
        let b0 = self.mem[off];
        let b1 = self.mem[off + 1];
        let b2 = self.mem[off + 2];
        let b3 = self.mem[off + 3];
        let val: u32 = b0 as u32 + b1 as u32 * 0x100 + b2 as u32 * 0x1_0000 + b3 as u32
            * 0x100_0000;
        proof {
            assert(le_val(self.mem@, off as int, 4) == b0 + 0x100 * le_val(
                self.mem@,
                off + 1 as int,
                3,
            ));
            assert(le_val(self.mem@, off + 1 as int, 3) == b1 + 0x100 * le_val(
                self.mem@,
                off + 2 as int,
                2,
            ));
            assert(le_val(self.mem@, off + 2 as int, 2) == b2 + 0x100 * le_val(
                self.mem@,
                off + 3 as int,
                1,
            ));
            assert(le_val(self.mem@, off + 3 as int, 1) == b3 + 0x100 * le_val(
                self.mem@,
                off + 4 as int,
                0,
            ));
        }
        if !(self.initialized[off] && self.initialized[off + 1] && self.initialized[off + 2]
            && self.initialized[off + 3]) {
            let msg = self.addr_as_str(off, 4);
            return Err(
                MemException::new_with_msg(
                    String::from_str("Ram"),
                    offset,
                    MemExceptionKind::ContractViolation {
                        severity: Severity::Warn,
                        stub_val: Some(val),
                    },
                    msg,
                ),
            );
        }
        Ok(val)
    }

    fn w8(&mut self, offset: u32, val: u8) -> (r: MemResult<()>)
        ensures
            final(self).inv(),
            offset + 1 <= old(self).mem@.len() ==> r is Ok && final(self).mem@ == old(
                self,
            ).mem@.update(offset as int, val) && final(self).initialized@ == old(
                self,
            ).initialized@.update(offset as int, true),
            offset + 1 > old(self).mem@.len() ==> *final(self) == *old(self) && res_matches(
                r,
                Err::<(), _>(MemExceptionKind::Unexpected),
                offset,
                "Ram"@,
            ),
    {
        let off = offset as usize;
        if off >= self.mem.len() {
            return Err(
                MemException::new(String::from_str("Ram"), offset, MemExceptionKind::Unexpected),
            );
        }
        self.mem.set(off, val);
        self.initialized.set(off, true);
        Ok(())
    }

    fn w16(&mut self, offset: u32, val: u16) -> (r: MemResult<()>)
        ensures
            final(self).inv(),
            offset + 2 <= old(self).mem@.len() ==> r is Ok && final(self).mem@ == store16(
                old(self).mem@,
                offset as int,
                val,
            ) && final(self).initialized@ == mark_init(old(self).initialized@, offset as int, 2),
            offset + 2 > old(self).mem@.len() ==> *final(self) == *old(self) && res_matches(
                r,
                Err::<(), _>(MemExceptionKind::Unexpected),
                offset,
                "Ram"@,
            ),
    {
        let off = offset as usize;
        if self.mem.len() < 2 || off > self.mem.len() - 2 {
            return Err(
                MemException::new(String::from_str("Ram"), offset, MemExceptionKind::Unexpected),
            );
        }
        self.mem.set(off, (val % 0x100) as u8);
        self.mem.set(off + 1, (val / 0x100) as u8);
        self.initialized.set(off, true);
        self.initialized.set(off + 1, true);
        proof {
            assert(mark_init(old(self).initialized@, off as int, 1) == mark_init(
                old(self).initialized@,
                off as int,
                0,
            ).update(off as int, true));
            assert(mark_init(old(self).initialized@, off as int, 0) == old(self).initialized@);
            assert(self.initialized@ =~= mark_init(old(self).initialized@, off as int, 2));
        }
        Ok(())
    }

    fn w32(&mut self, offset: u32, val: u32) -> (r: MemResult<()>)
        ensures
            final(self).inv(),
            offset + 4 <= old(self).mem@.len() ==> r is Ok && final(self).mem@ == store32(
                old(self).mem@,
                offset as int,
                val,
            ) && final(self).initialized@ == mark_init(old(self).initialized@, offset as int, 4),
            offset + 4 > old(self).mem@.len() ==> *final(self) == *old(self) && res_matches(
                r,
                Err::<(), _>(MemExceptionKind::Unexpected),
                offset,
                "Ram"@,
            ),
    {
        let off = offset as usize;
        if self.mem.len() < 4 || off > self.mem.len() - 4 {
            return Err(
                MemException::new(String::from_str("Ram"), offset, MemExceptionKind::Unexpected),
            );
        }
        self.mem.set(off, (val % 0x100) as u8);
        self.mem.set(off + 1, ((val / 0x100) % 0x100) as u8);
        self.mem.set(off + 2, ((val / 0x1_0000) % 0x100) as u8);
        self.mem.set(off + 3, ((val / 0x100_0000) % 0x100) as u8);
        self.initialized.set(off, true);
        self.initialized.set(off + 1, true);
        self.initialized.set(off + 2, true);
        self.initialized.set(off + 3, true);
        proof {
            assert(mark_init(old(self).initialized@, off as int, 3) == mark_init(
                old(self).initialized@,
                off as int,
                2,
            ).update(off + 2 as int, true));
            assert(mark_init(old(self).initialized@, off as int, 2) == mark_init(
                old(self).initialized@,
                off as int,
                1,
            ).update(off + 1 as int, true));
            assert(mark_init(old(self).initialized@, off as int, 1) == mark_init(
                old(self).initialized@,
                off as int,
                0,
            ).update(off as int, true));
            assert(mark_init(old(self).initialized@, off as int, 0) == old(self).initialized@);
            assert(self.initialized@ =~= mark_init(old(self).initialized@, off as int, 4));
        }
        Ok(())
    }
}


/// Marking a range initialized sets exactly that range.
pub proof fn lemma_mark_init(init: Seq<bool>, offset: int, width: int)
    requires
        0 <= offset,
        0 <= width,
        offset + width <= init.len(),
    ensures
        mark_init(init, offset, width).len() == init.len(),
        forall|j: int|
            #![trigger mark_init(init, offset, width)[j]]
            0 <= j < init.len() ==> mark_init(init, offset, width)[j] == (offset <= j < offset
                + width || init[j]),
    decreases width,
{
    if width > 0 {
        lemma_mark_init(init, offset, width - 1);
        let prev = mark_init(init, offset, width - 1);
        let cur = mark_init(init, offset, width);
        assert(cur == prev.update(offset + width - 1, true));
        assert forall|j: int|
            0 <= j < init.len() implies cur[j] == (offset <= j < offset + width || init[j]) by {
            assert(prev[j] == (offset <= j < offset + width - 1 || init[j]));
        }
    }
}

/// A 32-bit store reads back as the stored value.
pub proof fn lemma_store32_le_val(m: Seq<u8>, o: int, v: u32)
    requires
        0 <= o,
        o + 4 <= m.len(),
    ensures
        store32(m, o, v).len() == m.len(),
        le_val(store32(m, o, v), o, 4) == v,
        forall|j: int| 0 <= j < m.len() && !(o <= j < o + 4) ==> store32(m, o, v)[j] == m[j],
{
    let m2 = store32(m, o, v);
    assert(le_val(m2, o, 4) == m2[o] + 0x100 * le_val(m2, o + 1, 3));
    assert(le_val(m2, o + 1, 3) == m2[o + 1] + 0x100 * le_val(m2, o + 2, 2));
    assert(le_val(m2, o + 2, 2) == m2[o + 2] + 0x100 * le_val(m2, o + 3, 1));
    assert(le_val(m2, o + 3, 1) == m2[o + 3] + 0x100 * le_val(m2, o + 4, 0));
    assert(byte0(v) + 0x100 * (byte1(v) + 0x100 * (byte2(v) + 0x100 * (byte3(v) + 0))) == v)
        by (bit_vector);
}

/// Round trip through RAM: after a 32-bit store at `o`, a 32-bit read at `o`
/// succeeds and returns the stored value, and every byte of the word reads
/// back as the corresponding byte of the value.
pub proof fn lemma_ram_write32_read32(m: Seq<u8>, init: Seq<bool>, o: u32, v: u32)
    requires
        init.len() == m.len(),
        o + 4 <= m.len(),
    ensures
        read_abs(store32(m, o as int, v), mark_init(init, o as int, 4), o, 4) == Ok::<
            u32,
            MemExceptionKind,
        >(v),
        read_abs(store32(m, o as int, v), mark_init(init, o as int, 4), o, 1) == Ok::<
            u32,
            MemExceptionKind,
        >(byte0(v) as u32),
{
    let m2 = store32(m, o as int, v);
    let i2 = mark_init(init, o as int, 4);
    lemma_mark_init(init, o as int, 4);
    lemma_store32_le_val(m, o as int, v);
    assert forall|i: int| o <= i < o + 4 implies i2[i] by {
        assert(i2[i] == (o <= i < o + 4 || init[i]));
    }
    assert(init_range(i2, o as int, 4));
    assert(le_val(m2, o as int, 1) == m2[o as int] + 0x100 * le_val(m2, o + 1 as int, 0));
    assert(byte0(v) < 0x100) by (bit_vector);
}

/// Reading a byte that was never written yields a warning-level contract
/// violation whose stub carries the raw underlying byte.
pub proof fn lemma_ram_uninit_read(m: Seq<u8>, init: Seq<bool>, o: u32)
    requires
        init.len() == m.len(),
        o + 1 <= m.len(),
        !init[o as int],
    ensures
        read_abs(m, init, o, 1) == Err::<u32, MemExceptionKind>(
            MemExceptionKind::ContractViolation {
                severity: Severity::Warn,
                stub_val: Some(m[o as int] as u32),
            },
        ),
{
    assert(le_val(m, o as int, 1) == m[o as int] + 0x100 * le_val(m, o + 1 as int, 0));
}


/// The little-endian value of a word depends only on its four bytes.
pub proof fn lemma_le_val_frame4(a: Seq<u8>, b: Seq<u8>, o: int)
    requires
        0 <= o,
        o + 4 <= a.len(),
        o + 4 <= b.len(),
        a[o] == b[o],
        a[o + 1] == b[o + 1],
        a[o + 2] == b[o + 2],
        a[o + 3] == b[o + 3],
    ensures
        le_val(a, o, 4) == le_val(b, o, 4),
{
    assert(le_val(a, o, 4) == a[o] + 0x100 * le_val(a, o + 1, 3));
    assert(le_val(a, o + 1, 3) == a[o + 1] + 0x100 * le_val(a, o + 2, 2));
    assert(le_val(a, o + 2, 2) == a[o + 2] + 0x100 * le_val(a, o + 3, 1));
    assert(le_val(a, o + 3, 1) == a[o + 3] + 0x100 * le_val(a, o + 4, 0));
    assert(le_val(b, o, 4) == b[o] + 0x100 * le_val(b, o + 1, 3));
    assert(le_val(b, o + 1, 3) == b[o + 1] + 0x100 * le_val(b, o + 2, 2));
    assert(le_val(b, o + 2, 2) == b[o + 2] + 0x100 * le_val(b, o + 3, 2 - 1));
    assert(le_val(b, o + 3, 1) == b[o + 3] + 0x100 * le_val(b, o + 4, 0));
}

} // verus!


