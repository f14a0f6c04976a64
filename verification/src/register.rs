//! The registers of the traced process that the engine reads and writes.

use vstd::prelude::*;
use crate::error::DebuggerError;
use crate::tracee::{fetch_registers, store_registers};

verus! {

/// One of the exposed registers.
#[derive(Debug, Clone, Copy, PartialEq, Eq, Structural)]
pub enum Register {
    /// The base pointer.
    Rbp,
    /// The instruction pointer.
    Rip,
    /// The stack pointer.
    Rsp,
}

/// The exposed registers, as one read of the traced process found them.
#[derive(Debug, Clone, Copy, PartialEq, Eq, Structural)]
pub struct RegisterSet {
    pub rbp: u64,
    pub rip: u64,
    pub rsp: u64,
}

impl RegisterSet {
    /// The value of `register` in this set.
    pub open spec fn spec_get(self, register: Register) -> u64 {
        match register {
            Register::Rbp => self.rbp,
            Register::Rip => self.rip,
            Register::Rsp => self.rsp,
        }
    }

    /// This set with `register` holding `value` and the others as they are.
    pub open spec fn spec_with(self, register: Register, value: u64) -> RegisterSet {
        match register {
            Register::Rbp => RegisterSet { rbp: value, ..self },
            Register::Rip => RegisterSet { rip: value, ..self },
            Register::Rsp => RegisterSet { rsp: value, ..self },
        }
    }

    /// The value of `register` in this set.
    pub fn get(&self, register: Register) -> (value: u64)
        ensures
            value == self.spec_get(register),
    {
        match register {
            Register::Rbp => self.rbp,
            Register::Rip => self.rip,
            Register::Rsp => self.rsp,
        }
    }

    /// Puts `value` into `register` and leaves the other registers alone.
    pub fn set(&mut self, register: Register, value: u64)
        ensures
            *final(self) == old(self).spec_with(register, value),
    {
        match register {
            Register::Rbp => { self.rbp = value; },
            Register::Rip => { self.rip = value; },
            Register::Rsp => { self.rsp = value; },
        }
    }
}

/// A register that was written reads back as the value written, and every
/// other register reads as before.
pub proof fn lemma_write_then_read(set: RegisterSet, written: Register, value: u64, read: Register)
    ensures
        set.spec_with(written, value).spec_get(read) == if read == written {
            value
        } else {
            set.spec_get(read)
        },
{
}

/// Reads `register` of the process `pid`: fetches the whole register set and
/// picks the one value.
///
/// Whether the fetch succeeds is for the traced process to decide; where it
/// fails, the error is `ProcessAccess`.
pub fn read_register(pid: i32, register: Register) -> (value: Result<u64, DebuggerError>)
    ensures
        value matches Err(e) ==> e == DebuggerError::ProcessAccess,
{
    match fetch_registers(pid) {
        Ok((_, set)) => Ok(set.get(register)),
        Err(_) => Err(DebuggerError::ProcessAccess),
    }
}

/// Writes `value` to `register` of the process `pid`: fetches the whole
/// register set, replaces the one value and stores the set back.
///
/// Whether the fetch and the store succeed is for the traced process to
/// decide; where one fails, the error is `ProcessAccess`.
pub fn write_register(pid: i32, register: Register, value: u64) -> (written: Result<
    (),
    DebuggerError,
>)
    ensures
        written matches Err(e) ==> e == DebuggerError::ProcessAccess,
{
    match fetch_registers(pid) {
        Ok((raw, set)) => {
            let mut set = set;
            set.set(register, value);
            match store_registers(pid, raw, set) {
                Ok(()) => Ok(()),
                Err(_) => Err(DebuggerError::ProcessAccess),
            }
        },
        Err(_) => Err(DebuggerError::ProcessAccess),
    }
}

} // verus!
