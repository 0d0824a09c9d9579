//! Device identity and the probe tree.
//!
//! Every memory-mapped component names itself and answers, for any offset in
//! its window, which register (or child device) lives there. Composite
//! devices build the chain by recursive descent, so a fault can be rendered
//! as a human-readable path such as `Ts7200 > UART:uart2 > IntIDIntClr`
//! without duplicating the memory map in logging code.

use vstd::prelude::*;
use vstd::string::StringExecFns;

verus! {

/// A link in a chain of devices corresponding to a particular memory offset.
pub enum Probe {
    /// Branch node representing a device.
    Device { kind: &'static str, label: Option<&'static str>, next: Box<Probe> },
    /// Leaf node representing a register.
    Register(&'static str),
    /// Unmapped memory.
    Unmapped,
}

/// Common trait implemented by all emulated devices.
pub trait Device {
    /// The name of the emulated device.
    fn kind(&self) -> &'static str;

    /// A descriptive label for a particular instance of the device
    /// (if applicable).
    fn label(&self) -> (r: Option<&'static str>) {
        None
    }

    /// Query what devices exist at a particular memory offset.
    fn probe(&self, offset: u32) -> Probe;
}

impl Probe {
    /// The rendered form of the chain: `"A > B:label > RegName"`, or
    /// `"<unmapped>"` for a hole in the address space.
    pub open spec fn render_spec(self) -> Seq<char>
        decreases self,
    {
        match self {
            Probe::Device { kind, label, next } => {
                let head = match label {
                    Some(l) => kind@ + ":"@ + l@,
                    None => kind@,
                };
                match *next {
                    Probe::Unmapped => head,
                    _ => head + " > "@ + next.render_spec(),
                }
            },
            Probe::Register(name) => name@,
            Probe::Unmapped => "<unmapped>"@,
        }
    }

    /// Render the probe chain as text.
    pub fn render(&self) -> (r: String)
        ensures
            r@ == self.render_spec(),
        decreases *self,
    {
        match self {
            Probe::Device { kind, label, next } => {
                let mut s = String::from_str(kind);
                match label {
                    Some(l) => {
                        s.append(":");
                        s.append(l);
                    },
                    None => {},
                }
                match &**next {
                    Probe::Unmapped => s,
                    _ => {
                        s.append(" > ");
                        let tail = next.render();
                        s.append(tail.as_str());
                        s
                    },
                }
            },
            Probe::Register(name) => String::from_str(name),
            Probe::Unmapped => String::from_str("<unmapped>"),
        }
    }
}

} // verus!
