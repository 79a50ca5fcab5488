//! Boundary to the process-control collaborator: the `pete` crate's ptrace
//! primitives for reading and writing one hardware debug register and the
//! general register snapshot of a stopped traced process. Every item here is
//! trusted: the outcome of each call depends on the traced process's state,
//! so nothing is promised of it beyond its type.

use vstd::prelude::*;

verus! {

#[verifier::external_type_specification]
#[verifier::external_body]
pub struct ExTracee(pete::Tracee);

#[verifier::external_type_specification]
pub struct ExDebugRegister(pete::x86::DebugRegister);

#[verifier::external_type_specification]
#[verifier::external_body]
pub struct ExError(pete::error::Error);

#[verifier::external_type_specification]
pub struct ExUserRegsStruct(libc::user_regs_struct);

/// Relies on `pete::Tracee::set_debug_register`: writes `value` into the
/// hardware debug register `reg` of the stopped traced process, or fails
/// with the collaborator's error.
#[verifier::external_body]
pub(crate) fn write_debug_register(
    tracee: &pete::Tracee,
    reg: pete::x86::DebugRegister,
    value: u64,
) -> Result<(), pete::error::Error> {
    tracee.set_debug_register(reg, value)
}

/// Relies on `pete::Tracee::registers`: reads the general register snapshot
/// of the stopped traced process; what the snapshot holds depends on that
/// process alone.
#[verifier::external_body]
pub(crate) fn read_registers(
    tracee: &pete::Tracee,
) -> Result<libc::user_regs_struct, pete::error::Error> {
    tracee.registers()
}

/// Relies on `pete::Tracee::set_registers`: writes a whole general register
/// snapshot back into the stopped traced process, or fails with the
/// collaborator's error.
#[verifier::external_body]
pub(crate) fn write_registers(
    tracee: &mut pete::Tracee,
    regs: libc::user_regs_struct,
) -> Result<(), pete::error::Error> {
    tracee.set_registers(regs)
}

} // verus!
