//! Bit-exact control of the x86-64 hardware debug facility of a traced
//! process: breakpoint slots mapped onto the four debug address registers,
//! the control-register (Dr7) word derived for arming and disarming, and the
//! trap/resume bits of the flags word.

use vstd::prelude::*;

mod process_control;
mod seal;

verus! {

/// Baseline value of the debug control register: bit 8 is reserved and must
/// always be set; no slot-enable bit is set.
pub const DR7_RESERVED: u64 = 0x100;

/// One of the four hardware breakpoint slots, each backed by its own debug
/// address register.
#[derive(Clone, Copy, Debug, Eq, PartialEq, Structural)]
pub enum BreakpointSlot {
    Slot0,
    Slot1,
    Slot2,
    Slot3,
}

/// An execution-control flag in the traced process's flags register.
#[derive(Clone, Copy, Debug, Eq, PartialEq, Structural)]
pub enum DebugFlag {
    /// Single-step mode: trap after every instruction.
    Trap,
    /// Suppress a pending debug trap for one instruction on resume.
    Resume,
}

/// Index of a slot among the four debug address registers.
pub open spec fn slot_index(slot: BreakpointSlot) -> int {
    match slot {
        BreakpointSlot::Slot0 => 0,
        BreakpointSlot::Slot1 => 1,
        BreakpointSlot::Slot2 => 2,
        BreakpointSlot::Slot3 => 3,
    }
}

/// Local-enable bit of a slot in the control register, at bit position
/// `2 * slot_index`.
pub open spec fn enable_local_bit(slot: BreakpointSlot) -> u64 {
    match slot {
        BreakpointSlot::Slot0 => 0x1,
        BreakpointSlot::Slot1 => 0x4,
        BreakpointSlot::Slot2 => 0x10,
        BreakpointSlot::Slot3 => 0x40,
    }
}

/// Control-register word written when `slot` is armed: the reserved baseline
/// together with exactly that slot's local-enable bit.
pub open spec fn armed_control_word(slot: BreakpointSlot) -> u64 {
    DR7_RESERVED | enable_local_bit(slot)
}

/// Bit of a flag in the traced process's flags register.
pub open spec fn flag_bit(flag: DebugFlag) -> u64 {
    match flag {
        DebugFlag::Trap => 0x100,
        DebugFlag::Resume => 0x10000,
    }
}

/// Flags word after setting or clearing `flag`: the flag's bit is cleared
/// unconditionally, then set again if `enabled`.
pub open spec fn flags_with(flags: u64, flag: DebugFlag, enabled: bool) -> u64 {
    if enabled {
        (flags & !flag_bit(flag)) | flag_bit(flag)
    } else {
        flags & !flag_bit(flag)
    }
}

impl BreakpointSlot {
    /// Local-enable mask of this slot in the debug control register.
    pub fn enable_local_mask(&self) -> (mask: u64)
        ensures
            mask == enable_local_bit(*self),
    {
        match self {
            BreakpointSlot::Slot0 => 0x1,
            BreakpointSlot::Slot1 => 0x4,
            BreakpointSlot::Slot2 => 0x10,
            BreakpointSlot::Slot3 => 0x40,
        }
    }
}

impl DebugFlag {
    /// Mask of this flag's bit in the traced process's flags register.
    pub fn mask(&self) -> (mask: u64)
        ensures
            mask == flag_bit(*self),
    {
        match self {
            DebugFlag::Trap => 0x100,
            DebugFlag::Resume => 0x10000,
        }
    }
}

/// Control-register word to write when arming `slot`.
pub fn armed_control_value(slot: BreakpointSlot) -> (word: u64)
    ensures
        word == armed_control_word(slot),
{
    DR7_RESERVED | slot.enable_local_mask()
}

/// Flags word with the bit for `flag` forced to `enabled` and every other
/// bit kept from `flags`.
pub fn updated_flags(flags: u64, flag: DebugFlag, enabled: bool) -> (updated: u64)
    ensures
        updated == flags_with(flags, flag, enabled),
{
    let mask = flag.mask();
    let cleared = flags & !mask;
    if enabled {
        cleared | mask
    } else {
        cleared
    }
}

/// Model of the traced process's debug-register file: the four breakpoint
/// address registers and the control register. Arming and disarming derive
/// the whole target value anew on each call, so their effect on this model is
/// a pure function of the arguments.
pub struct DebugRegisterFile {
    /// Contents of the four breakpoint address registers, by slot index.
    pub addresses: Seq<u64>,
    /// Contents of the debug control register.
    pub control: u64,
}

impl DebugRegisterFile {
    /// The model covers exactly the four address registers.
    pub open spec fn wf(self) -> bool {
        self.addresses.len() == 4
    }
}

/// Register file after arming `slot` at address `va`: `va` stands in the
/// slot's address register and the control register holds the armed word for
/// `slot` alone, whatever it held before.
pub open spec fn arm_applied(file: DebugRegisterFile, slot: BreakpointSlot, va: u64) -> DebugRegisterFile {
    DebugRegisterFile {
        addresses: file.addresses.update(slot_index(slot), va),
        control: armed_control_word(slot),
    }
}

/// Register file after disarming `slot`: the slot's address register is
/// cleared and the control register is reset to the reserved baseline,
/// whatever it held before.
pub open spec fn disarm_applied(file: DebugRegisterFile, slot: BreakpointSlot) -> DebugRegisterFile {
    DebugRegisterFile {
        addresses: file.addresses.update(slot_index(slot), 0),
        control: DR7_RESERVED,
    }
}

/// The local-enable bit of each slot stands at bit position `2 * slot_index`,
/// so the four slots occupy bits 0, 2, 4 and 6 of the control register.
pub proof fn lemma_enable_bit_position(slot: BreakpointSlot)
    ensures
        enable_local_bit(slot) == 1u64 << (2 * slot_index(slot)),
{
    assert(1u64 << 0 == 0x1 && 1u64 << 2 == 0x4 && 1u64 << 4 == 0x10 && 1u64 << 6 == 0x40)
        by (bit_vector);
}

/// Debug address register backing `slot`.
pub open spec fn address_register_spec(slot: BreakpointSlot) -> pete::x86::DebugRegister {
    match slot {
        BreakpointSlot::Slot0 => pete::x86::DebugRegister::Dr0,
        BreakpointSlot::Slot1 => pete::x86::DebugRegister::Dr1,
        BreakpointSlot::Slot2 => pete::x86::DebugRegister::Dr2,
        BreakpointSlot::Slot3 => pete::x86::DebugRegister::Dr3,
    }
}

/// Debug address register backing `slot`.
pub fn address_register(slot: BreakpointSlot) -> (reg: pete::x86::DebugRegister)
    ensures
        reg == address_register_spec(slot),
{
    match slot {
        BreakpointSlot::Slot0 => pete::x86::DebugRegister::Dr0,
        BreakpointSlot::Slot1 => pete::x86::DebugRegister::Dr1,
        BreakpointSlot::Slot2 => pete::x86::DebugRegister::Dr2,
        BreakpointSlot::Slot3 => pete::x86::DebugRegister::Dr3,
    }
}

/// Register snapshot equal to `regs` in every field but the flags word,
/// which has the bit for `flag` forced to `enabled` and every other bit kept.
pub fn snapshot_with_flag(
    regs: libc::user_regs_struct,
    flag: DebugFlag,
    enabled: bool,
) -> (updated: libc::user_regs_struct)
    ensures
        updated == (libc::user_regs_struct {
            eflags: flags_with(regs.eflags, flag, enabled),
            ..regs
        }),
{
    let mut updated = regs;
    updated.eflags = updated_flags(regs.eflags, flag, enabled);
    updated
}

/// Hardware-assisted breakpoint control over a stopped traced process. The
/// operations translate slot- and flag-level intent into exact register
/// writes through the process-control collaborator; any failure of a
/// sub-operation aborts the rest and is returned unchanged.
pub trait HardwareDebug: seal::Sealed {
    /// Arm `slot` as an execution breakpoint at virtual address `va`: write
    /// `va` into the slot's address register, then the armed control word
    /// for `slot` — which carries no other slot's enable bit — into the
    /// control register.
    fn set_breakpoint(&mut self, slot: BreakpointSlot, va: u64) -> Result<(), pete::error::Error>;

    /// Disarm `slot`: clear the slot's address register, then reset the
    /// control register to the reserved baseline, in which every slot's
    /// enable bit is clear.
    fn clear_breakpoint(&mut self, slot: BreakpointSlot) -> Result<(), pete::error::Error>;

    /// Force the bit for `flag` in the traced process's flags register to
    /// `set`, preserving every other bit of the register snapshot as read.
    fn set_debug_flag(&mut self, flag: DebugFlag, set: bool) -> Result<(), pete::error::Error>;
}

impl HardwareDebug for pete::Tracee {
    fn set_breakpoint(&mut self, slot: BreakpointSlot, va: u64) -> Result<(), pete::error::Error> {
        let reg = address_register(slot);
        match process_control::write_debug_register(&*self, reg, va) {
            Ok(()) => {},
            Err(e) => {
                return Err(e);
            },
        }
        let control = armed_control_value(slot);
        match process_control::write_debug_register(&*self, pete::x86::DebugRegister::Dr7, control) {
            Ok(()) => {},
            Err(e) => {
                return Err(e);
            },
        }
        Ok(())
    }

    fn clear_breakpoint(&mut self, slot: BreakpointSlot) -> Result<(), pete::error::Error> {
        let reg = address_register(slot);
        match process_control::write_debug_register(&*self, reg, 0) {
            Ok(()) => {},
            Err(e) => {
                return Err(e);
            },
        }
        match process_control::write_debug_register(
            &*self,
            pete::x86::DebugRegister::Dr7,
            DR7_RESERVED,
        ) {
            Ok(()) => {},
            Err(e) => {
                return Err(e);
            },
        }
        Ok(())
    }

    fn set_debug_flag(&mut self, flag: DebugFlag, set: bool) -> Result<(), pete::error::Error> {
        let regs = match process_control::read_registers(&*self) {
            Ok(regs) => regs,
            Err(e) => {
                return Err(e);
            },
        };
        let updated = snapshot_with_flag(regs, flag, set);
        match process_control::write_registers(self, updated) {
            Ok(()) => Ok(()),
            Err(e) => Err(e),
        }
    }
}

/// Arming a slot leaves exactly that address in the slot's address register,
/// exactly the reserved baseline together with the slot's local-enable bit in
/// the control register, and every other address register unchanged.
pub proof fn lemma_arm_sets_registers(file: DebugRegisterFile, slot: BreakpointSlot, va: u64)
    requires
        file.wf(),
    ensures
        arm_applied(file, slot, va).wf(),
        arm_applied(file, slot, va).control == DR7_RESERVED | enable_local_bit(slot),
        arm_applied(file, slot, va).addresses[slot_index(slot)] == va,
        forall|other: BreakpointSlot| other != slot
            ==> arm_applied(file, slot, va).addresses[slot_index(other)]
                == file.addresses[slot_index(other)],
{
}

/// Disarming a slot clears the slot's address register and resets the
/// control register to exactly the reserved baseline, in which no slot's
/// local-enable bit is set: afterwards no hardware breakpoint fires for any
/// slot.
pub proof fn lemma_disarm_clears_registers(file: DebugRegisterFile, slot: BreakpointSlot)
    requires
        file.wf(),
    ensures
        disarm_applied(file, slot).wf(),
        disarm_applied(file, slot).control == DR7_RESERVED,
        disarm_applied(file, slot).addresses[slot_index(slot)] == 0,
        forall|any: BreakpointSlot|
            disarm_applied(file, slot).control & enable_local_bit(any) == 0,
{
    assert(0x100u64 & 0x1 == 0 && 0x100u64 & 0x4 == 0 && 0x100u64 & 0x10 == 0
        && 0x100u64 & 0x40 == 0) by (bit_vector);
}

/// Arming one slot after arming another leaves in the control register the
/// armed word of the second slot alone: the first slot's local-enable bit is
/// not retained, since the control register is overwritten whole, not
/// bit-patched.
pub proof fn lemma_arm_overwrites_previous(
    file: DebugRegisterFile,
    first: BreakpointSlot,
    first_va: u64,
    second: BreakpointSlot,
    second_va: u64,
)
    requires
        file.wf(),
    ensures
        arm_applied(arm_applied(file, first, first_va), second, second_va).control
            == DR7_RESERVED | enable_local_bit(second),
        first != second
            ==> arm_applied(arm_applied(file, first, first_va), second, second_va).control
                & enable_local_bit(first) == 0,
{
    assert(0x100u64 | 0x1 == 0x101 && 0x100u64 | 0x4 == 0x104 && 0x100u64 | 0x10 == 0x110
        && 0x100u64 | 0x40 == 0x140) by (bit_vector);
    assert(0x101u64 & 0x4 == 0 && 0x101u64 & 0x10 == 0 && 0x101u64 & 0x40 == 0
        && 0x104u64 & 0x1 == 0 && 0x104u64 & 0x10 == 0 && 0x104u64 & 0x40 == 0
        && 0x110u64 & 0x1 == 0 && 0x110u64 & 0x4 == 0 && 0x110u64 & 0x40 == 0
        && 0x140u64 & 0x1 == 0 && 0x140u64 & 0x4 == 0 && 0x140u64 & 0x10 == 0)
        by (bit_vector);
}

proof fn lemma_masked_update(flags: u64, mask: u64)
    by (bit_vector)
    ensures
        ((flags & !mask) | mask) & mask == mask,
        ((flags & !mask) | mask) & !mask == flags & !mask,
        (flags & !mask) & mask == 0,
        (flags & !mask) & !mask == flags & !mask,
{
}

/// Setting or clearing a flag forces exactly that flag's bit in the flags
/// word — set when `enabled`, clear otherwise — and leaves every other bit
/// unchanged from its value before the call.
pub proof fn lemma_set_flag_exact(flags: u64, flag: DebugFlag, enabled: bool)
    ensures
        flags_with(flags, flag, enabled) & flag_bit(flag)
            == (if enabled { flag_bit(flag) } else { 0u64 }),
        flags_with(flags, flag, enabled) & !flag_bit(flag) == flags & !flag_bit(flag),
{
    lemma_masked_update(flags, flag_bit(flag));
}

} // verus!
