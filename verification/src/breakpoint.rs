//! Software breakpoints: a trap instruction patched over the first byte of
//! the instruction at an address.
//!
//! The traced process's memory is read and written in 8-byte words. A word
//! that starts at the breakpoint's address holds the byte at that address as
//! its low byte, the processor being little-endian: arming a breakpoint
//! replaces that one byte by the trap opcode, disarming puts the original
//! byte back, and neither touches the other seven.

use vstd::prelude::*;
use crate::error::DebuggerError;
use crate::tracee::{peek_word, poke_word};

verus! {

/// The one-byte trap instruction of x86_64, `int3`.
pub const TRAP_OPCODE: u8 = 0xCC;

/// The low byte of a word: the byte at the word's own address.
pub open spec fn low_byte(word: u64) -> u8 {
    (word % 0x100) as u8
}

/// The word with its low byte cleared: what its other seven bytes hold.
pub open spec fn upper_bytes(word: u64) -> u64 {
    (word - word % 0x100) as u64
}

/// The word whose low byte is `byte` and whose other bytes are those of
/// `word`.
pub open spec fn with_low_byte(word: u64, byte: u8) -> u64 {
    (upper_bytes(word) + byte) as u64
}

/// A word is its upper bytes and its low byte, and `with_low_byte` sets the
/// one and keeps the other.
pub proof fn lemma_with_low_byte(word: u64, byte: u8)
    ensures
        low_byte(with_low_byte(word, byte)) == byte,
        upper_bytes(with_low_byte(word, byte)) == upper_bytes(word),
        with_low_byte(word, low_byte(word)) == word,
{
    assert(word - word % 0x100 == 0x100 * (word / 0x100));
    let upper = word / 0x100;
    assert(upper < 0x100_0000_0000_0000);
    let patched = 0x100 * upper + byte;
    assert(patched % 0x100 == byte && patched / 0x100 == upper) by (nonlinear_arith)
        requires
            patched == 0x100 * upper + byte,
            0 <= byte < 0x100,
    ;
}

/// Replaces the low byte of `word` by `byte`.
pub fn replace_low_byte(word: u64, byte: u8) -> (patched: u64)
    ensures
        patched == with_low_byte(word, byte),
{
    let wide: u64 = byte as u64;
    let patched: u64 = (word & !0xffu64) | wide;
    assert((word & !0xffu64) | wide == (word - word % 0x100) + wide) by (bit_vector)
        requires
            wide < 0x100,
    ;
    patched
}

/// One software breakpoint of one traced process.
///
/// `original_instruction` is the word that memory held at the address when
/// the breakpoint was installed. It is captured once and never changes:
/// enabling and disabling only cycle the byte that is live in memory.
#[derive(Debug, Clone, Copy, PartialEq, Eq, Structural)]
pub struct BreakPoint {
    pid: i32,
    addr: u64,
    original_instruction: u64,
    is_enabled: bool,
}

impl BreakPoint {
    /// The traced process.
    pub closed spec fn spec_pid(&self) -> i32 {
        self.pid
    }

    /// The address the breakpoint is set at.
    pub closed spec fn spec_addr(&self) -> u64 {
        self.addr
    }

    /// The word captured at installation.
    pub closed spec fn spec_original_instruction(&self) -> u64 {
        self.original_instruction
    }

    /// Whether the trap is live in memory.
    pub closed spec fn spec_is_enabled(&self) -> bool {
        self.is_enabled
    }

    /// Whether this breakpoint and `other` are one installation: the same
    /// process, the same address, the same captured word. Only the enabled
    /// flag may differ.
    pub open spec fn same_installation(&self, other: BreakPoint) -> bool {
        &&& self.spec_pid() == other.spec_pid()
        &&& self.spec_addr() == other.spec_addr()
        &&& self.spec_original_instruction() == other.spec_original_instruction()
    }

    /// The word to store so that the trap is live, memory holding `current`.
    pub open spec fn spec_armed_word(current: u64) -> u64 {
        with_low_byte(current, TRAP_OPCODE)
    }

    /// The word to store so that the original byte is live again, memory
    /// holding `current`.
    pub open spec fn spec_restored_word(&self, current: u64) -> u64 {
        with_low_byte(current, low_byte(self.spec_original_instruction()))
    }

    /// The traced process.
    #[verifier::when_used_as_spec(spec_pid)]
    pub fn pid(&self) -> (pid: i32)
        ensures
            pid == self.spec_pid(),
    {
        self.pid
    }

    /// The address the breakpoint is set at.
    #[verifier::when_used_as_spec(spec_addr)]
    pub fn addr(&self) -> (addr: u64)
        ensures
            addr == self.spec_addr(),
    {
        self.addr
    }

    /// The word captured at installation.
    #[verifier::when_used_as_spec(spec_original_instruction)]
    pub fn original_instruction(&self) -> (word: u64)
        ensures
            word == self.spec_original_instruction(),
    {
        self.original_instruction
    }

    /// Whether the trap is live in memory.
    #[verifier::when_used_as_spec(spec_is_enabled)]
    pub fn is_enabled(&self) -> (enabled: bool)
        ensures
            enabled == self.spec_is_enabled(),
    {
        self.is_enabled
    }

    /// A breakpoint of `pid` at `addr` over `word`, the word that memory
    /// holds there. It is not armed yet.
    pub fn capture(pid: i32, addr: u64, word: u64) -> (bp: BreakPoint)
        ensures
            bp.spec_pid() == pid,
            bp.spec_addr() == addr,
            bp.spec_original_instruction() == word,
            !bp.spec_is_enabled(),
    {
        BreakPoint { pid, addr, original_instruction: word, is_enabled: false }
    }

    /// The word to store so that the trap is live, memory holding `current`.
    pub fn armed_word(current: u64) -> (word: u64)
        ensures
            word == Self::spec_armed_word(current),
    {
        replace_low_byte(current, TRAP_OPCODE)
    }

    /// The word to store so that the original byte is live again, memory
    /// holding `current`.
    pub fn restored_word(&self, current: u64) -> (word: u64)
        ensures
            word == self.spec_restored_word(current),
    {
        proof {
            let original = self.original_instruction;
            assert(original & 0xff == original % 0x100) by (bit_vector);
        }
        let byte: u8 = (self.original_instruction & 0xff) as u8;
        replace_low_byte(current, byte)
    }

    /// Installs a breakpoint in the process `pid` at `addr` over `word`,
    /// the word that was read there: keeps the word as it is and stores its
    /// armed form in its place.
    ///
    /// The breakpoint that comes back has captured `word`, verbatim, and is
    /// enabled. Whether the memory can be written is for the traced process
    /// to decide; where it cannot, the error is `MemoryAccess`.
    pub fn install_over(pid: i32, addr: u64, word: u64) -> (installed: Result<
        BreakPoint,
        DebuggerError,
    >)
        ensures
            installed matches Ok(bp) ==> bp.spec_pid() == pid && bp.spec_addr() == addr
                && bp.spec_original_instruction() == word && bp.spec_is_enabled(),
            installed matches Err(e) ==> e == DebuggerError::MemoryAccess,
    {
        let mut bp = BreakPoint::capture(pid, addr, word);
        match poke_word(pid, addr, BreakPoint::armed_word(word)) {
            Ok(()) => {
                bp.is_enabled = true;
                Ok(bp)
            },
            Err(_) => Err(DebuggerError::MemoryAccess),
        }
    }

    /// Installs a breakpoint in the process `pid` at `addr`: reads the word
    /// at the address and runs `install_over` on it, which keeps the word
    /// and stores it back with the trap opcode as its low byte.
    ///
    /// Whether the memory can be read and written is for the traced process
    /// to decide; where it cannot, the error is `MemoryAccess`.
    pub fn new(pid: i32, addr: u64) -> (installed: Result<BreakPoint, DebuggerError>)
        ensures
            installed matches Ok(bp) ==> bp.spec_pid() == pid && bp.spec_addr() == addr
                && bp.spec_is_enabled(),
            installed matches Err(e) ==> e == DebuggerError::MemoryAccess,
    {
        match peek_word(pid, addr) {
            Ok(word) => BreakPoint::install_over(pid, addr, word),
            Err(_) => Err(DebuggerError::MemoryAccess),
        }
    }

    /// Arms the breakpoint: reads the word now at the address and stores it
    /// back with the trap opcode as its low byte.
    ///
    /// The captured word stays as it is. Where the memory cannot be read or
    /// written, the error is `MemoryAccess` and the breakpoint is unchanged.
    pub fn enable(&mut self) -> (enabled: Result<(), DebuggerError>)
        ensures
            final(self).spec_pid() == old(self).spec_pid(),
            final(self).spec_addr() == old(self).spec_addr(),
            final(self).spec_original_instruction() == old(self).spec_original_instruction(),
            enabled is Ok ==> final(self).spec_is_enabled(),
            enabled matches Err(e) ==> e == DebuggerError::MemoryAccess
                && *final(self) == *old(self),
    {
        let current = match peek_word(self.pid, self.addr) {
            Ok(word) => word,
            Err(_) => { return Err(DebuggerError::MemoryAccess); },
        };
        match poke_word(self.pid, self.addr, BreakPoint::armed_word(current)) {
            Ok(()) => {
                self.is_enabled = true;
                Ok(())
            },
            Err(_) => Err(DebuggerError::MemoryAccess),
        }
    }

    /// Disarms the breakpoint: reads the word now at the address and stores
    /// it back with the low byte of the captured word as its low byte.
    ///
    /// The captured word stays as it is. Where the memory cannot be read or
    /// written, the error is `MemoryAccess` and the breakpoint is unchanged.
    pub fn disable(&mut self) -> (disabled: Result<(), DebuggerError>)
        ensures
            final(self).spec_pid() == old(self).spec_pid(),
            final(self).spec_addr() == old(self).spec_addr(),
            final(self).spec_original_instruction() == old(self).spec_original_instruction(),
            disabled is Ok ==> !final(self).spec_is_enabled(),
            disabled matches Err(e) ==> e == DebuggerError::MemoryAccess
                && *final(self) == *old(self),
    {
        let current = match peek_word(self.pid, self.addr) {
            Ok(word) => word,
            Err(_) => { return Err(DebuggerError::MemoryAccess); },
        };
        match poke_word(self.pid, self.addr, self.restored_word(current)) {
            Ok(()) => {
                self.is_enabled = false;
                Ok(())
            },
            Err(_) => Err(DebuggerError::MemoryAccess),
        }
    }
}

/// A breakpoint is what its four parts are: one installation in one state
/// of the enabled flag is one breakpoint.
pub proof fn lemma_breakpoint_equality(a: BreakPoint, b: BreakPoint)
    requires
        a.same_installation(b),
        a.spec_is_enabled() == b.spec_is_enabled(),
    ensures
        a == b,
{
}

/// Disarming changes the low byte alone, and arming changes the low byte
/// alone: whatever memory holds, the other seven bytes are written back as
/// they were read.
pub proof fn lemma_only_the_low_byte_changes(bp: BreakPoint, current: u64)
    ensures
        low_byte(bp.spec_restored_word(current)) == low_byte(bp.spec_original_instruction()),
        upper_bytes(bp.spec_restored_word(current)) == upper_bytes(current),
        low_byte(BreakPoint::spec_armed_word(current)) == TRAP_OPCODE,
        upper_bytes(BreakPoint::spec_armed_word(current)) == upper_bytes(current),
{
    lemma_with_low_byte(current, low_byte(bp.spec_original_instruction()));
    lemma_with_low_byte(current, TRAP_OPCODE);
}

/// The round trip of an installed breakpoint.
///
/// Installation leaves the armed form of the captured word in memory. The
/// word that `disable` then writes is the captured word, byte for byte; the
/// word that `enable` writes after that has the trap opcode as its low byte
/// and the captured word's other bytes, and is the word that installation
/// wrote.
pub proof fn lemma_breakpoint_round_trip(bp: BreakPoint)
    ensures
        ({
            let original = bp.spec_original_instruction();
            let installed = BreakPoint::spec_armed_word(original);
            let disabled = bp.spec_restored_word(installed);
            let enabled = BreakPoint::spec_armed_word(disabled);
            &&& disabled == original
            &&& low_byte(enabled) == TRAP_OPCODE
            &&& upper_bytes(enabled) == upper_bytes(original)
            &&& enabled == installed
        }),
{
    let original = bp.spec_original_instruction();
    let installed = BreakPoint::spec_armed_word(original);
    lemma_with_low_byte(original, TRAP_OPCODE);
    lemma_with_low_byte(original, low_byte(original));
    lemma_with_low_byte(installed, low_byte(original));
}

} // verus!
