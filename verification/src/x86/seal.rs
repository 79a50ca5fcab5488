//! Seal for the hardware-debug capability: only the traced-process handle
//! named here may implement `HardwareDebug`.

use vstd::prelude::*;

verus! {

/// Marker supertrait restricting which types may carry `HardwareDebug`.
pub trait Sealed {

}

impl Sealed for pete::Tracee {

}

} // verus!
