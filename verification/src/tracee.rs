//! The system calls on the traced process.
//!
//! Each function here makes one call into `nix` and converts its arguments
//! and its result. None of them is verified, and none promises anything of
//! what comes back: that depends on the traced process alone. What the
//! engine does with an answer is decided, and proved, where it is used.

use vstd::prelude::*;
use nix::errno::Errno;
use nix::libc::user_regs_struct;
use nix::sys::ptrace;
use nix::sys::wait::WaitStatus;
use nix::unistd::Pid;
use crate::register::RegisterSet;

verus! {

/// `nix::errno::Errno`, the error of every call below. The engine only
/// passes it on to the place that maps it to a `DebuggerError`.
#[verifier::external_type_specification]
#[verifier::external_body]
pub struct ExErrno(nix::errno::Errno);

/// `libc::user_regs_struct`, the whole register file as the kernel hands it
/// out. The engine carries it from the read to the write back.
#[verifier::external_type_specification]
#[verifier::external_body]
pub struct ExUserRegs(nix::libc::user_regs_struct);

/// What a wait on the traced process last reported.
#[derive(Debug, Clone, Copy, PartialEq, Eq, Structural)]
pub enum ProcessStatus {
    /// The process has exited, with this code.
    Exited(i32),
    /// The process is stopped, by the signal of this number.
    Stopped(i32),
    /// Any other report: killed by a signal, a trace event, continued.
    Other,
}

/// Calls `nix::sys::wait::waitpid` on one process, without flags, and keeps
/// of the status what the engine reads: an exit with its code, a stop with
/// its signal's number. Blocks until the process changes state.
///
/// The identifier must be positive: zero and the negative numbers ask
/// `waitpid` for any process of a group, not for one process.
#[verifier::external_body]
pub(crate) fn wait_for(pid: i32) -> (status: Result<ProcessStatus, Errno>)
    requires
        pid > 0,
{
    match nix::sys::wait::waitpid(Pid::from_raw(pid), None) {
        Ok(WaitStatus::Exited(_, code)) => Ok(ProcessStatus::Exited(code)),
        Ok(WaitStatus::Stopped(_, signal)) => Ok(ProcessStatus::Stopped(signal as i32)),
        Ok(_) => Ok(ProcessStatus::Other),
        Err(errno) => Err(errno),
    }
}

/// Calls `nix::sys::ptrace::getregs`. Hands back the register file as it
/// came, and beside it the three registers that the engine exposes.
#[verifier::external_body]
pub(crate) fn fetch_registers(pid: i32) -> (fetched: Result<
    (user_regs_struct, RegisterSet),
    Errno,
>) {
    let raw = ptrace::getregs(Pid::from_raw(pid))?;
    Ok((raw, RegisterSet { rbp: raw.rbp, rip: raw.rip, rsp: raw.rsp }))
}

/// Calls `nix::sys::ptrace::setregs` with the register file `raw` in which
/// the three exposed registers are replaced by those of `set`.
#[verifier::external_body]
pub(crate) fn store_registers(pid: i32, raw: user_regs_struct, set: RegisterSet) -> (stored: Result<
    (),
    Errno,
>) {
    let mut regs = raw;
    regs.rbp = set.rbp;
    regs.rip = set.rip;
    regs.rsp = set.rsp;
    ptrace::setregs(Pid::from_raw(pid), regs)
}

/// Calls `nix::sys::ptrace::read`: the 8-byte word of the process's memory
/// that starts at `addr`, as an unsigned number.
#[verifier::external_body]
pub(crate) fn peek_word(pid: i32, addr: u64) -> (word: Result<u64, Errno>) {
    ptrace::read(Pid::from_raw(pid), addr as ptrace::AddressType).map(|word| word as u64)
}

/// Calls `nix::sys::ptrace::write`: stores `word` as the 8-byte word of the
/// process's memory that starts at `addr`.
#[verifier::external_body]
pub(crate) fn poke_word(pid: i32, addr: u64, word: u64) -> (poked: Result<(), Errno>) {
    ptrace::write(Pid::from_raw(pid), addr as ptrace::AddressType, word as i64)
}

/// Calls `nix::sys::ptrace::cont` without a signal: the stopped process runs
/// on, and the signal that stopped it is not delivered.
#[verifier::external_body]
pub(crate) fn resume(pid: i32) -> (resumed: Result<(), Errno>) {
    ptrace::cont(Pid::from_raw(pid), None)
}

/// Calls `nix::sys::ptrace::step` without a signal: the stopped process
/// executes one instruction.
#[verifier::external_body]
pub(crate) fn single_step(pid: i32) -> (stepped: Result<(), Errno>) {
    ptrace::step(Pid::from_raw(pid), None)
}

/// Calls `nix::sys::ptrace::kill`.
#[verifier::external_body]
pub(crate) fn kill(pid: i32) -> (killed: Result<(), Errno>) {
    ptrace::kill(Pid::from_raw(pid))
}

} // verus!
