//! Memory-access exception taxonomy shared by every device on the bus.
//!
//! A device that cannot complete an access returns a [`MemException`]: a
//! kind drawn from [`MemExceptionKind`], the offset at which the access
//! failed, and an identifier naming the device (enriched with the full
//! device path as the error propagates up the bus hierarchy).

use vstd::prelude::*;
use vstd::string::StringExecFns;

verus! {

/// How serious a contract violation is: `Error` is fatal to the emulated
/// system, `Warn` and `Info` are logged and swallowed.
#[derive(Clone, Copy, Debug, PartialEq, Eq, Structural)]
pub enum Severity {
    Error,
    Warn,
    Info,
}

/// Whether a faulting access was a read or a write.
#[derive(Clone, Copy, Debug, PartialEq, Eq, Structural)]
pub enum AccessKind {
    Read,
    Write,
}

/// Kinds of memory exceptions.
#[derive(Clone, Copy, Debug, PartialEq, Eq, Structural)]
pub enum MemExceptionKind {
    /// Attempted to access a device at an invalid offset.
    Misaligned,
    /// Memory location that shouldn't have been accessed.
    Unexpected,
    /// Memory location hasn't been implemented.
    Unimplemented,
    /// Memory location is using a stubbed read implementation; the payload
    /// is the value the CPU should observe.
    StubRead(u32),
    /// Memory location is using a stubbed write implementation.
    StubWrite,
    /// Read of a write-only register, or write of a read-only register.
    InvalidAccess,
    /// The access broke a documented contract of the device. When
    /// `stub_val` is present the CPU may continue with that value.
    ContractViolation { severity: Severity, stub_val: Option<u32> },
}

/// Denotes some sort of memory access exception. May be recoverable.
#[derive(Clone, Debug)]
pub struct MemException {
    /// Set by the CPU-facing adapter once the direction of the access is
    /// known; leaf devices leave it empty.
    pub access_kind: Option<AccessKind>,
    /// Full path of the device which returned the access violation.
    pub identifier: String,
    /// Human-readable diagnostic; empty unless the kind calls for one.
    pub msg: String,
    /// The offset of the access violation.
    pub offset: u32,
    /// The kind of access violation.
    pub kind: MemExceptionKind,
}

impl MemException {
    /// Create a new `MemException` from a given identifier, offset, and kind.
    pub fn new(identifier: String, offset: u32, kind: MemExceptionKind) -> (r: MemException)
        ensures
            r.identifier == identifier,
            r.offset == offset,
            r.kind == kind,
            r.access_kind is None,
            r.msg@.len() == 0,
    {
        MemException { access_kind: None, identifier, msg: String::new(), offset, kind }
    }

    /// Create a new `MemException` carrying a diagnostic message.
    pub fn new_with_msg(identifier: String, offset: u32, kind: MemExceptionKind, msg: String) -> (r:
        MemException)
        ensures
            r.identifier == identifier,
            r.offset == offset,
            r.kind == kind,
            r.access_kind is None,
            r.msg == msg,
    {
        MemException { access_kind: None, identifier, msg, offset, kind }
    }

    /// The address of the access violation.
    pub fn addr(&self) -> (r: u32)
        ensures
            r == self.offset,
    {
        self.offset
    }

    /// The offset of the access violation.
    pub fn offset(&self) -> (r: u32)
        ensures
            r == self.offset,
    {
        self.offset
    }

    /// The kind of access violation.
    pub fn kind(&self) -> (r: MemExceptionKind)
        ensures
            r == self.kind,
    {
        self.kind
    }

    /// The full path of the device which returned the access violation.
    pub fn identifier(&self) -> (r: &str)
        ensures
            r@ == self.identifier@,
    {
        self.identifier.as_str()
    }

    /// The access kind of the access violation (read or write).
    pub fn access_kind(&self) -> (r: Option<AccessKind>)
        ensures
            r == self.access_kind,
    {
        self.access_kind
    }

    /// Consume self, returning a new version with an explicit read or write.
    pub fn with_access_kind(self, access_kind: AccessKind) -> (r: MemException)
        ensures
            r.access_kind == Some(access_kind),
            r.identifier == self.identifier,
            r.msg == self.msg,
            r.offset == self.offset,
            r.kind == self.kind,
    {
        MemException { access_kind: Some(access_kind), ..self }
    }

    /// If the exception arose `base_offset` bytes into the window of a
    /// parent device, rebase the offset and prefix the parent's identifier,
    /// composing the device path as the error propagates up the hierarchy.
    pub fn with_context(self, base_offset: u32, parent: &str) -> (r: MemException)
        ensures
            self.offset + base_offset <= u32::MAX ==> r.offset == self.offset + base_offset,
            self.offset + base_offset > u32::MAX ==> r.offset == self.offset,
            r.identifier@ == parent@ + " > "@ + self.identifier@,
            r.kind == self.kind,
            r.msg == self.msg,
            r.access_kind == self.access_kind,
    {
        let mut identifier = String::from_str(parent);
        identifier.append(" > ");
        identifier.append(self.identifier.as_str());
        let offset = if self.offset as u64 + base_offset as u64 <= u32::MAX as u64 {
            self.offset + base_offset
        } else {
            self.offset
        };
        MemException { identifier, offset, ..self }
    }
}

/// Shorthand for results that may fail with a [`MemException`].
pub type MemResult<T> = Result<T, MemException>;

/// Utility methods to make working with `MemResult`s more ergonomic.
pub trait MemResultExt: Sized {
    /// If the result is an error, rebase its offset by `base_offset` and
    /// prefix `parent` to its identifier.
    fn mem_ctx(self, base_offset: u32, parent: &str) -> Self;

    /// If the result is an error, rebase its offset by `base_offset`.
    fn map_memerr_offset(self, base_offset: u32) -> Self;
}

impl<T> MemResultExt for MemResult<T> {
    /// If the result is an error, rebase its offset by `base_offset` and
    /// prefix `parent` to its identifier.
    fn mem_ctx(self, base_offset: u32, parent: &str) -> (r: Self)
        ensures
            self is Ok ==> r == self,
            self matches Err(e) ==> (r matches Err(e2) && e2.kind == e.kind && e2.msg == e.msg
                && e2.access_kind == e.access_kind && e2.identifier@ == parent@ + " > "@
                + e.identifier@ && (e.offset + base_offset <= u32::MAX ==> e2.offset == e.offset
                + base_offset) && (e.offset + base_offset > u32::MAX ==> e2.offset == e.offset)),
    {
        match self {
            Ok(v) => Ok(v),
            Err(e) => Err(e.with_context(base_offset, parent)),
        }
    }

    /// If the result is an error, rebase its offset by `base_offset`.
    fn map_memerr_offset(self, base_offset: u32) -> (r: Self)
        ensures
            self is Ok ==> r == self,
            self matches Err(e) ==> (r matches Err(e2) && e2.kind == e.kind && e2.identifier
                == e.identifier && e2.msg == e.msg && e2.access_kind == e.access_kind && (e.offset
                + base_offset <= u32::MAX ==> e2.offset == e.offset + base_offset) && (e.offset
                + base_offset > u32::MAX ==> e2.offset == e.offset)),
    {
        match self {
            Ok(v) => Ok(v),
            Err(e) => {
                let offset = if e.offset as u64 + base_offset as u64 <= u32::MAX as u64 {
                    e.offset + base_offset
                } else {
                    e.offset
                };
                Err(MemException { offset, ..e })
            },
        }
    }
}

/// An 8-bit read result widened to 32 bits, errors carried through.
pub open spec fn widen_res8(r: MemResult<u8>) -> MemResult<u32> {
    match r {
        Ok(v) => Ok(v as u32),
        Err(e) => Err(e),
    }
}

/// A 16-bit read result widened to 32 bits, errors carried through.
pub open spec fn widen_res16(r: MemResult<u16>) -> MemResult<u32> {
    match r {
        Ok(v) => Ok(v as u32),
        Err(e) => Err(e),
    }
}

/// Relates an executable access result to its abstract form: the abstract
/// result keeps only the exception kind, and a faulting access must name the
/// offset and the device it arose in.
pub open spec fn res_matches<T>(
    r: MemResult<T>,
    abs: Result<T, MemExceptionKind>,
    offset: u32,
    ident: Seq<char>,
) -> bool {
    match abs {
        Ok(w) => r matches Ok(v) && v == w,
        Err(k) => r matches Err(e) && e.kind == k && e.offset == offset && e.identifier@ == ident
            && e.access_kind is None,
    }
}

} // verus!
