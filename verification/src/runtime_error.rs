//! The unified error taxonomy surfaced to the process boundary.

use vstd::prelude::*;

verus! {

/// One error type for every failure domain: host I/O, the virtual-device
/// registration interface, the USB transport, and free-form logical errors
/// ("no matching device", "no endpoint found"). Each variant carries the
/// underlying cause's text.
pub enum RuntimeError {
    Io(String),
    Uinput(String),
    Usb(String),
    Custom(String),
}

impl RuntimeError {
    /// The carried text: the underlying cause's message, or the free-form
    /// message itself.
    pub open spec fn message_spec(&self) -> Seq<char> {
        match self {
            RuntimeError::Io(m) => m@,
            RuntimeError::Uinput(m) => m@,
            RuntimeError::Usb(m) => m@,
            RuntimeError::Custom(m) => m@,
        }
    }

    pub fn message(&self) -> (r: &str)
        ensures
            r@ == self.message_spec(),
    {
        match self {
            RuntimeError::Io(m) => m.as_str(),
            RuntimeError::Uinput(m) => m.as_str(),
            RuntimeError::Usb(m) => m.as_str(),
            RuntimeError::Custom(m) => m.as_str(),
        }
    }
}

} // verus!
