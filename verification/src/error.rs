//! Errors of the driver that do not come from the transport.
use vstd::prelude::*;

verus! {

/// A failure of the driver itself, as opposed to one reported by the bus.
#[derive(Clone, Copy, Debug, PartialEq, Eq, Structural)]
pub enum SSD1677Error {
    /// A control line could not be driven to the requested level.
    SetPinError,
}

} // verus!
