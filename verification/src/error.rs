//! The conditions that the engine reports to its caller.

use vstd::prelude::*;

verus! {

/// Why an engine operation did not complete.
///
/// `Finished` is benign: it says that the traced process has exited and no
/// further request should be issued. Every other variant is a failure.
#[derive(Debug, Clone, Copy, PartialEq, Eq, Structural)]
pub enum DebuggerError {
    /// The traced process has exited.
    Finished,
    /// No live traced process: nothing was launched yet, or it has exited.
    NoChildProcess,
    /// The traced process raised SIGILL.
    SigIll,
    /// The initial wait on the launched process failed.
    Launch,
    /// The address string is not a hexadecimal number that fits 64 bits.
    InvalidAddress,
    /// Reading or writing the traced process's memory failed.
    MemoryAccess,
    /// A register access or a trace request on the traced process failed.
    ProcessAccess,
    /// The debug information is missing or cannot be parsed.
    DebugInfo,
}

impl DebuggerError {
    /// The text of the message for this condition.
    pub open spec fn spec_message(self) -> Seq<char> {
        match self {
            DebuggerError::Finished => "Debuggee process is finished"@,
            DebuggerError::NoChildProcess => "No child process"@,
            DebuggerError::SigIll => "SIGILL received"@,
            DebuggerError::Launch => "Failed to launch the debuggee"@,
            DebuggerError::InvalidAddress => "Invalid address"@,
            DebuggerError::MemoryAccess => "Failed to access debuggee memory"@,
            DebuggerError::ProcessAccess => "Failed to access debuggee process"@,
            DebuggerError::DebugInfo => "Failed to read debug information"@,
        }
    }

    /// A human-readable message, for the front end to print.
    pub fn message(&self) -> (text: String)
        ensures
            text@ == self.spec_message(),
    {
        match self {
            DebuggerError::Finished => "Debuggee process is finished".to_owned(),
            DebuggerError::NoChildProcess => "No child process".to_owned(),
            DebuggerError::SigIll => "SIGILL received".to_owned(),
            DebuggerError::Launch => "Failed to launch the debuggee".to_owned(),
            DebuggerError::InvalidAddress => "Invalid address".to_owned(),
            DebuggerError::MemoryAccess => "Failed to access debuggee memory".to_owned(),
            DebuggerError::ProcessAccess => "Failed to access debuggee process".to_owned(),
            DebuggerError::DebugInfo => "Failed to read debug information".to_owned(),
        }
    }
}

} // verus!
