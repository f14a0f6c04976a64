use build_debugger_in_rust::breakpoint::{replace_low_byte, BreakPoint, TRAP_OPCODE};
use build_debugger_in_rust::error::DebuggerError;

/// No process has this identifier: it is beyond the largest that Linux
/// hands out.
const NO_SUCH_PROCESS: i32 = i32::MAX;

#[test]
fn the_trap_opcode_is_int3() {
    assert_eq!(TRAP_OPCODE, 0xcc);
}

#[test]
fn replace_low_byte_keeps_the_other_seven() {
    assert_eq!(replace_low_byte(0x1122_3344_5566_7788, 0xcc), 0x1122_3344_5566_77cc);
    assert_eq!(replace_low_byte(0, 0xcc), 0xcc);
    assert_eq!(replace_low_byte(u64::MAX, 0), 0xffff_ffff_ffff_ff00);
    assert_eq!(replace_low_byte(0xffff_ffff_ffff_ff00, 0xff), u64::MAX);
    assert_eq!(replace_low_byte(0x55, 0x55), 0x55);
}

#[test]
fn capture_keeps_the_word_and_is_not_armed() {
    let bp = BreakPoint::capture(42, 0x401000, 0x1122_3344_5566_7788);
    assert_eq!(bp.pid(), 42);
    assert_eq!(bp.addr(), 0x401000);
    assert_eq!(bp.original_instruction(), 0x1122_3344_5566_7788);
    assert!(!bp.is_enabled());
}

#[test]
fn armed_word_puts_the_trap_in_the_low_byte() {
    assert_eq!(BreakPoint::armed_word(0x1122_3344_5566_7788), 0x1122_3344_5566_77cc);
    assert_eq!(BreakPoint::armed_word(0x4855_e589_4800_0000), 0x4855_e589_4800_00cc);
    assert_eq!(BreakPoint::armed_word(0xcc), 0xcc);
}

#[test]
fn restored_word_puts_the_captured_byte_back() {
    let bp = BreakPoint::capture(42, 0x401000, 0x1122_3344_5566_7788);
    assert_eq!(bp.restored_word(0x1122_3344_5566_77cc), 0x1122_3344_5566_7788);
    // Only the low byte is restored: what else changed in memory stays.
    assert_eq!(bp.restored_word(0x99aa_bbcc_ddee_ffcc), 0x99aa_bbcc_ddee_ff88);
}

#[test]
fn round_trip_of_an_installed_breakpoint() {
    for original in [0u64, 0xcc, 0x1122_3344_5566_7788, u64::MAX, 0x0000_0000_0000_00ff, 0xe589_4855] {
        let bp = BreakPoint::capture(42, 0x401000, original);
        let installed = BreakPoint::armed_word(original);
        let disabled = bp.restored_word(installed);
        assert_eq!(disabled, original);
        let enabled = BreakPoint::armed_word(disabled);
        assert_eq!(enabled & 0xff, 0xcc);
        assert_eq!(enabled & !0xff, original & !0xff);
        assert_eq!(enabled, installed);
    }
}

#[test]
fn install_without_a_process_is_a_memory_access_error() {
    assert_eq!(BreakPoint::new(NO_SUCH_PROCESS, 0x401000), Err(DebuggerError::MemoryAccess));
    assert_eq!(
        BreakPoint::install_over(NO_SUCH_PROCESS, 0x401000, 0x1122_3344_5566_7788),
        Err(DebuggerError::MemoryAccess)
    );
}

#[test]
fn enable_and_disable_without_a_process_leave_the_breakpoint_unchanged() {
    let mut bp = BreakPoint::capture(NO_SUCH_PROCESS, 0x401000, 0x1122_3344_5566_7788);
    let before = bp;
    assert_eq!(bp.enable(), Err(DebuggerError::MemoryAccess));
    assert_eq!(bp, before);
    assert_eq!(bp.disable(), Err(DebuggerError::MemoryAccess));
    assert_eq!(bp, before);
}
