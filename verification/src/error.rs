//! Error type of the adapter.

use vstd::prelude::*;
use crate::bus::BusError;

verus! {

/// Everything that can go wrong in the adapter.
#[derive(Clone, Copy, Debug, PartialEq, Eq, Structural)]
pub enum LcdError {
    /// A pin role was assigned a physical position outside `0..=7`.
    InvalidPin,
    /// A read-path operation was attempted while the read/write role has no
    /// physical position assigned.
    ReadNotSupported,
    /// The underlying bus transaction failed; carries the transport's own
    /// failure detail.
    Transport(BusError),
}

} // verus!
