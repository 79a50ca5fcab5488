use hwdebug::x86::{
    armed_control_value, address_register, snapshot_with_flag, updated_flags, BreakpointSlot,
    DebugFlag, DR7_RESERVED,
};

fn zero_regs() -> libc::user_regs_struct {
    libc::user_regs_struct {
        r15: 0,
        r14: 0,
        r13: 0,
        r12: 0,
        rbp: 0,
        rbx: 0,
        r11: 0,
        r10: 0,
        r9: 0,
        r8: 0,
        rax: 0,
        rcx: 0,
        rdx: 0,
        rsi: 0,
        rdi: 0,
        orig_rax: 0,
        rip: 0,
        cs: 0,
        eflags: 0,
        rsp: 0,
        ss: 0,
        fs_base: 0,
        gs_base: 0,
        ds: 0,
        es: 0,
        fs: 0,
        gs: 0,
    }
}

#[test]
fn enable_masks_occupy_even_low_bits() {
    assert_eq!(BreakpointSlot::Slot0.enable_local_mask(), 0x1);
    assert_eq!(BreakpointSlot::Slot1.enable_local_mask(), 0x4);
    assert_eq!(BreakpointSlot::Slot2.enable_local_mask(), 0x10);
    assert_eq!(BreakpointSlot::Slot3.enable_local_mask(), 0x40);
}

#[test]
fn flag_masks_are_trap_and_resume_bits() {
    assert_eq!(DebugFlag::Trap.mask(), 0x100);
    assert_eq!(DebugFlag::Resume.mask(), 0x10000);
}

#[test]
fn reserved_baseline_is_bit_eight() {
    assert_eq!(DR7_RESERVED, 0x100);
}

#[test]
fn armed_control_word_for_each_slot() {
    assert_eq!(armed_control_value(BreakpointSlot::Slot0), 0x101);
    assert_eq!(armed_control_value(BreakpointSlot::Slot1), 0x104);
    assert_eq!(armed_control_value(BreakpointSlot::Slot2), 0x110);
    assert_eq!(armed_control_value(BreakpointSlot::Slot3), 0x140);
}

#[test]
fn arming_slot2_writes_401000_and_0x110() {
    // Arming Slot2 at 0x401000 writes the address itself into Dr2 and
    // 0x100 | (1 << 4) into the control register.
    assert_eq!(armed_control_value(BreakpointSlot::Slot2), 0x110);
    assert_eq!(armed_control_value(BreakpointSlot::Slot2), 0x100 | (1 << 4));
    assert_eq!(
        address_register(BreakpointSlot::Slot2),
        pete::x86::DebugRegister::Dr2
    );
}

#[test]
fn arming_overwrites_previous_slot_enable() {
    let after_second = armed_control_value(BreakpointSlot::Slot0);
    assert_eq!(after_second, DR7_RESERVED | BreakpointSlot::Slot0.enable_local_mask());
    assert_eq!(after_second & BreakpointSlot::Slot1.enable_local_mask(), 0);
    assert_eq!(after_second & BreakpointSlot::Slot2.enable_local_mask(), 0);
    assert_eq!(after_second & BreakpointSlot::Slot3.enable_local_mask(), 0);
}

#[test]
fn disarm_baseline_has_no_enable_bits() {
    assert_eq!(DR7_RESERVED & BreakpointSlot::Slot0.enable_local_mask(), 0);
    assert_eq!(DR7_RESERVED & BreakpointSlot::Slot1.enable_local_mask(), 0);
    assert_eq!(DR7_RESERVED & BreakpointSlot::Slot2.enable_local_mask(), 0);
    assert_eq!(DR7_RESERVED & BreakpointSlot::Slot3.enable_local_mask(), 0);
}

#[test]
fn address_register_per_slot() {
    assert_eq!(address_register(BreakpointSlot::Slot0), pete::x86::DebugRegister::Dr0);
    assert_eq!(address_register(BreakpointSlot::Slot1), pete::x86::DebugRegister::Dr1);
    assert_eq!(address_register(BreakpointSlot::Slot2), pete::x86::DebugRegister::Dr2);
    assert_eq!(address_register(BreakpointSlot::Slot3), pete::x86::DebugRegister::Dr3);
}

#[test]
fn trap_flag_round_trip_on_0x0202() {
    let set = updated_flags(0x0202, DebugFlag::Trap, true);
    assert_eq!(set, 0x0302);
    let cleared = updated_flags(set, DebugFlag::Trap, false);
    assert_eq!(cleared, 0x0202);
}

#[test]
fn trap_flag_touches_only_bit_0x100() {
    let before: u64 = 0xdead_beef_0000_0202;
    let set = updated_flags(before, DebugFlag::Trap, true);
    assert_eq!(set & 0x100, 0x100);
    assert_eq!(set & !0x100, before & !0x100);
    let cleared = updated_flags(before | 0x100, DebugFlag::Trap, false);
    assert_eq!(cleared & 0x100, 0);
    assert_eq!(cleared & !0x100, before & !0x100);
}

#[test]
fn resume_flag_touches_only_bit_0x10000() {
    let before: u64 = 0x0000_0000_0001_0202;
    let set = updated_flags(before, DebugFlag::Resume, true);
    assert_eq!(set, before);
    assert_eq!(set & 0x10000, 0x10000);
    let cleared = updated_flags(before, DebugFlag::Resume, false);
    assert_eq!(cleared, 0x0202);
    assert_eq!(cleared & !0x10000, before & !0x10000);
}

#[test]
fn snapshot_update_changes_only_eflags() {
    let mut regs = zero_regs();
    regs.rip = 0x401000;
    regs.rax = 7;
    regs.rsp = 0x7fff_ffff_e000;
    regs.eflags = 0x0202;
    let updated = snapshot_with_flag(regs, DebugFlag::Trap, true);
    assert_eq!(updated.eflags, 0x0302);
    assert_eq!(updated.rip, 0x401000);
    assert_eq!(updated.rax, 7);
    assert_eq!(updated.rsp, 0x7fff_ffff_e000);
    assert_eq!(updated.r15, 0);
    assert_eq!(updated.gs, 0);
    let back = snapshot_with_flag(updated, DebugFlag::Trap, false);
    assert_eq!(back.eflags, 0x0202);
    assert_eq!(back.rip, 0x401000);
}
