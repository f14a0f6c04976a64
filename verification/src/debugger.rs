//! The engine: one traced process, its breakpoints, and the protocol that
//! carries it from one stop to the next.
//!
//! A stop is classified by its signal alone. What the engine then does is a
//! function of the classification, and the functions that make the system
//! calls say, for whatever the traced process answered, which state the
//! engine is left in.

use vstd::prelude::*;
use std::collections::HashMap;
use crate::address::{parse_address, spec_parse_address};
use crate::breakpoint::{lemma_breakpoint_equality, BreakPoint};
use crate::error::DebuggerError;
use crate::register::{read_register, write_register, Register};
use crate::source_code_locator::{location_view, table_location, SourceCodeLocator};
use crate::tracee::{kill, resume, single_step, wait_for, ProcessStatus};

verus! {

broadcast use vstd::std_specs::hash::group_hash_axioms;

/// The number of SIGILL, the signal of an illegal instruction.
pub const SIGILL: i32 = 4;

/// The number of SIGTRAP, the signal that a trap instruction and a
/// completed single step raise.
pub const SIGTRAP: i32 = 5;

/// How many stops by filtered signals one `cont` answers by resuming. The
/// loop that resumes needs a measure, and no run lives to see this one spent.
pub const FILTERED_STOPS: u64 = u64::MAX;

/// The traced process: its identifier and what the last wait reported.
#[derive(Debug, Clone, Copy, PartialEq, Eq, Structural)]
pub struct Process {
    pub pid: i32,
    pub status: ProcessStatus,
}

/// What the engine does about a status that a wait reported.
#[derive(Debug, Clone, Copy, PartialEq, Eq, Structural)]
pub enum Disposition {
    /// A stop by SIGTRAP: a breakpoint was hit. The instruction pointer is
    /// rewound and the hit is reported.
    BreakpointHit,
    /// A stop by SIGILL: reported as `DebuggerError::SigIll`.
    IllegalInstruction,
    /// A stop by any other signal: no breakpoint condition. The process is
    /// resumed and the stop is not reported.
    Resume,
    /// The process has exited: reported as `DebuggerError::Finished`.
    Finished,
    /// Neither a stop nor an exit: nothing to act on.
    Nothing,
}

/// What the engine does about `status`.
pub open spec fn spec_disposition(status: ProcessStatus) -> Disposition {
    match status {
        ProcessStatus::Exited(_) => Disposition::Finished,
        ProcessStatus::Stopped(signal) => if signal == SIGTRAP {
            Disposition::BreakpointHit
        } else if signal == SIGILL {
            Disposition::IllegalInstruction
        } else {
            Disposition::Resume
        },
        ProcessStatus::Other => Disposition::Nothing,
    }
}

/// What the engine does about `status`.
pub fn disposition(status: ProcessStatus) -> (verdict: Disposition)
    ensures
        verdict == spec_disposition(status),
{
    match status {
        ProcessStatus::Exited(_) => Disposition::Finished,
        ProcessStatus::Stopped(signal) => if signal == SIGTRAP {
            Disposition::BreakpointHit
        } else if signal == SIGILL {
            Disposition::IllegalInstruction
        } else {
            Disposition::Resume
        },
        ProcessStatus::Other => Disposition::Nothing,
    }
}

/// Signals other than SIGTRAP and SIGILL are filtered: a stop by one of
/// them is answered by resuming the process, whatever the signal, and is
/// reported neither as a breakpoint hit nor as an error. A SIGTRAP and a
/// SIGILL are never answered so.
pub proof fn lemma_signal_filtering(signal: i32)
    ensures
        signal != SIGTRAP && signal != SIGILL <==> spec_disposition(ProcessStatus::Stopped(signal))
            == Disposition::Resume,
        spec_disposition(ProcessStatus::Stopped(SIGTRAP)) == Disposition::BreakpointHit,
        spec_disposition(ProcessStatus::Stopped(SIGILL)) == Disposition::IllegalInstruction,
{
}

/// Where the instruction pointer stands once the processor has executed the
/// trap instruction at `address`: one byte further.
pub open spec fn after_trap(address: u64) -> u64 {
    if address == u64::MAX {
        0
    } else {
        (address + 1) as u64
    }
}

/// The instruction pointer moved back by the width of the trap instruction.
pub open spec fn spec_rewind(pc: u64) -> u64 {
    if pc == 0 {
        u64::MAX
    } else {
        (pc - 1) as u64
    }
}

/// Moves an instruction pointer back by one byte, the width of the trap
/// instruction. Like the pointer itself, the result wraps at zero.
pub fn rewind(pc: u64) -> (address: u64)
    ensures
        address == spec_rewind(pc),
{
    pc.wrapping_sub(1)
}

/// The address reported for a breakpoint hit is the address that the
/// breakpoint is set at, not the byte after it.
pub proof fn lemma_rewind_reports_breakpoint_address(address: u64)
    ensures
        spec_rewind(after_trap(address)) == address,
        address < u64::MAX ==> spec_rewind((address + 1) as u64) == address,
{
}

/// A breakpoint hit as it is reported: the address of the breakpoint, and
/// the source file and 1-based line there if the debug information names
/// them.
#[derive(Debug, PartialEq, Eq)]
pub struct BreakpointHit {
    pub address: u64,
    pub location: Option<(String, u32)>,
}

impl BreakpointHit {
    /// Whether the line of the location, if there is one, counts from 1.
    pub open spec fn has_line_from_one(self) -> bool {
        self.location matches Some(found) ==> found.1 >= 1
    }

    /// Whether the location is the one that `locator` has for the address
    /// of the hit: the file and line of the entry that covers the address,
    /// and none where the line tables have no such entry.
    pub open spec fn is_resolved_by(self, locator: SourceCodeLocator) -> bool {
        location_view(self.location) == table_location(locator@, self.address)
    }
}

/// How one cycle of resuming the process and waiting for it ended, where it
/// did not end in a `DebuggerError`.
#[derive(Debug, PartialEq, Eq)]
pub enum Continued {
    /// The process stopped at a breakpoint.
    BreakpointHit(BreakpointHit),
    /// The process was stopped by a signal that is no breakpoint condition.
    /// The stop is not one to report: `cont` issues the next cycle at once.
    SignalIgnored,
    /// The wait reported neither a stop nor an exit.
    Nothing,
}

/// What the first wait on a launched child amounts to: a launch where it
/// reported a stop, the child being then the traced process in that status,
/// and `Launch` where it reported anything else, failed (`None`), or the
/// child is no process identifier.
pub open spec fn spec_first_stop(child: i32, waited: Option<ProcessStatus>) -> Result<
    Process,
    DebuggerError,
> {
    match waited {
        Some(ProcessStatus::Stopped(signal)) => if child > 0 {
            Ok(Process { pid: child, status: ProcessStatus::Stopped(signal) })
        } else {
            Err(DebuggerError::Launch)
        },
        _ => Err(DebuggerError::Launch),
    }
}

/// What the first wait on a launched child amounts to. `waited` is what
/// the wait reported, or `None` where the wait failed.
///
/// Only a stop is a launch: a child that has exited has failed to replace
/// its image.
pub fn first_stop(child: i32, waited: Option<ProcessStatus>) -> (launched: Result<
    Process,
    DebuggerError,
>)
    ensures
        launched == spec_first_stop(child, waited),
{
    match waited {
        Some(ProcessStatus::Stopped(signal)) => if child > 0 {
            Ok(Process { pid: child, status: ProcessStatus::Stopped(signal) })
        } else {
            Err(DebuggerError::Launch)
        },
        _ => Err(DebuggerError::Launch),
    }
}

/// What a wait on the traced process comes to, `status` being what it
/// reported: `Finished` for an exit, and the status itself otherwise.
pub open spec fn spec_wait_outcome(status: ProcessStatus) -> Result<ProcessStatus, DebuggerError> {
    if status is Exited {
        Err(DebuggerError::Finished)
    } else {
        Ok(status)
    }
}

/// What a wait on the traced process comes to, `status` being what it
/// reported.
pub fn wait_outcome(status: ProcessStatus) -> (waited: Result<ProcessStatus, DebuggerError>)
    ensures
        waited == spec_wait_outcome(status),
{
    match disposition(status) {
        Disposition::Finished => Err(DebuggerError::Finished),
        _ => Ok(status),
    }
}

/// What `cont` does after one cycle of resuming and waiting.
#[derive(Debug, PartialEq, Eq)]
pub enum Step {
    /// The cycle ended in a filtered stop: the process is resumed again.
    /// The number is how many more filtered stops will be answered so.
    Again(u64),
    /// The call is over, with this result.
    Done(Result<Option<BreakpointHit>, DebuggerError>),
}

/// What `cont` does after a cycle that ended as `resumed`, with `left`
/// filtered stops still to be answered by resuming.
///
/// - A filtered stop is answered by another cycle, as long as `left` is
///   not spent; once it is, the call ends with `ProcessAccess`.
/// - A hit ends the call with the hit, a wait that reported nothing to act
///   on ends it with nothing, and an error ends it with that error.
pub open spec fn spec_next_step(resumed: Result<Continued, DebuggerError>, left: u64) -> Step {
    match resumed {
        Ok(Continued::SignalIgnored) => if left > 0 {
            Step::Again((left - 1) as u64)
        } else {
            Step::Done(Err(DebuggerError::ProcessAccess))
        },
        Ok(Continued::BreakpointHit(hit)) => Step::Done(Ok(Some(hit))),
        Ok(Continued::Nothing) => Step::Done(Ok(None)),
        Err(e) => Step::Done(Err(e)),
    }
}

/// What `cont` does after a cycle that ended as `resumed`, with `left`
/// filtered stops still to be answered by resuming.
pub fn next_step(resumed: Result<Continued, DebuggerError>, left: u64) -> (step: Step)
    ensures
        step == spec_next_step(resumed, left),
{
    match resumed {
        Ok(Continued::SignalIgnored) => if left > 0 {
            Step::Again(left - 1)
        } else {
            Step::Done(Err(DebuggerError::ProcessAccess))
        },
        Ok(Continued::BreakpointHit(hit)) => Step::Done(Ok(Some(hit))),
        Ok(Continued::Nothing) => Step::Done(Ok(None)),
        Err(e) => Step::Done(Err(e)),
    }
}

/// A filtered stop does not end a `cont`: with the budget that `cont`
/// starts from, and with any budget that is not spent, the answer to such a
/// stop is another cycle of resuming and waiting. Nothing else is answered
/// so.
pub proof fn lemma_filtered_stop_is_resumed(resumed: Result<Continued, DebuggerError>, left: u64)
    ensures
        spec_next_step(Ok(Continued::SignalIgnored), FILTERED_STOPS) == Step::Again(
            (FILTERED_STOPS - 1) as u64,
        ),
        left > 0 ==> spec_next_step(Ok(Continued::SignalIgnored), left) == Step::Again(
            (left - 1) as u64,
        ),
        spec_next_step(resumed, left) is Again ==> resumed == Ok::<Continued, DebuggerError>(
            Continued::SignalIgnored,
        ),
{
}

/// The engine as contracts speak of it.
pub struct DebuggerView {
    /// The path of the executable.
    pub path: Seq<char>,
    /// The resolver that was loaded from it.
    pub locator: SourceCodeLocator,
    /// The traced process, once one was started.
    pub process: Option<Process>,
    /// The breakpoints, by address.
    pub breakpoints: Map<u64, BreakPoint>,
}

impl DebuggerView {
    /// Whether there is a traced process that has not exited.
    pub open spec fn is_live(self) -> bool {
        self.process matches Some(process) && !(process.status is Exited)
    }

    /// Whether an enabled breakpoint is set at `pc`.
    pub open spec fn needs_step_over(self, pc: u64) -> bool {
        self.breakpoints.contains_key(pc) && self.breakpoints[pc].spec_is_enabled()
    }

    /// Whether this state has the breakpoints of `before` and no others,
    /// each one the same installation as before.
    pub open spec fn keeps_installations_of(self, before: DebuggerView) -> bool {
        &&& self.breakpoints.dom() == before.breakpoints.dom()
        &&& forall|a: u64| #[trigger]
            before.breakpoints.contains_key(a) ==> self.breakpoints[a].same_installation(
                before.breakpoints[a],
            )
    }

    /// Whether this state is a later one of the session of `before`: the
    /// same executable, resolver and process identifier, and the same
    /// installations. Either no breakpoint has changed, or one has and it
    /// is the one at `pc`: it was enabled and is disabled, a step over it
    /// having begun and not come to its end.
    pub open spec fn continues(self, before: DebuggerView, pc: u64) -> bool {
        &&& self.path == before.path
        &&& self.locator == before.locator
        &&& self.process is Some == before.process is Some
        &&& self.process matches Some(process) ==> process.pid == before.process->0.pid
        &&& self.keeps_installations_of(before)
        &&& forall|a: u64| #[trigger]
            before.breakpoints.contains_key(a) && a != pc ==> self.breakpoints[a]
                == before.breakpoints[a]
        &&& self.breakpoints == before.breakpoints || (before.needs_step_over(pc)
            && !self.breakpoints[pc].spec_is_enabled())
    }

    /// Whether this state differs from `before` in the recorded status of
    /// the traced process at most.
    pub open spec fn differs_in_status_only(self, before: DebuggerView) -> bool {
        &&& self == (DebuggerView { process: self.process, ..before })
        &&& self.process is Some == before.process is Some
        &&& self.process matches Some(process) ==> process.pid == before.process->0.pid
    }

    /// Whether the traced process is in a status that the engine answers
    /// with `verdict`.
    pub open spec fn reports(self, verdict: Disposition) -> bool {
        self.process matches Some(process) && spec_disposition(process.status) == verdict
    }

    /// This state with the traced process in `status`.
    pub open spec fn with_status(self, status: ProcessStatus) -> DebuggerView {
        DebuggerView { process: Some(Process { pid: self.process->0.pid, status }), ..self }
    }
}

/// The debugger engine.
pub struct Debugger {
    path: String,
    process: Option<Process>,
    breakpoints: HashMap<u64, BreakPoint>,
    locator: SourceCodeLocator,
}

impl View for Debugger {
    type V = DebuggerView;

    closed spec fn view(&self) -> DebuggerView {
        DebuggerView {
            path: self.path@,
            locator: self.locator,
            process: self.process,
            breakpoints: self.breakpoints@,
        }
    }
}

impl Debugger {
    /// A traced process has a positive identifier, and every breakpoint is
    /// filed under its own address.
    #[verifier::type_invariant]
    spec fn well_formed(&self) -> bool {
        &&& self.process matches Some(process) ==> process.pid > 0
        &&& forall|a: u64| #[trigger]
            self.breakpoints@.contains_key(a) ==> self.breakpoints@[a].spec_addr() == a
    }

    /// An engine for the executable at `path`, with its debug information
    /// loaded, no process and no breakpoint.
    ///
    /// Whether the debug information loads is for the loader to decide;
    /// where it does not, the error is `DebugInfo`.
    pub fn new(path: &str) -> (created: Result<Debugger, DebuggerError>)
        ensures
            created matches Ok(debugger) ==> debugger@.path == path@ && debugger@.process is None
                && debugger@.breakpoints == Map::<u64, BreakPoint>::empty(),
            created matches Err(e) ==> e == DebuggerError::DebugInfo,
    {
        match SourceCodeLocator::new(path) {
            Ok(locator) => Ok(
                Debugger {
                    path: path.to_owned(),
                    process: None,
                    breakpoints: HashMap::new(),
                    locator,
                },
            ),
            Err(e) => Err(e),
        }
    }

    /// The path of the executable.
    pub fn path(&self) -> (path: &str)
        ensures
            path@ == self@.path,
    {
        self.path.as_str()
    }

    /// The traced process, once one was started.
    pub fn process(&self) -> (process: Option<Process>)
        ensures
            process == self@.process,
            process matches Some(p) ==> p.pid > 0,
    {
        proof {
            use_type_invariant(self);
        }
        self.process
    }

    /// The breakpoint set at `address`, if there is one.
    pub fn breakpoint(&self, address: u64) -> (found: Option<BreakPoint>)
        ensures
            found == if self@.breakpoints.contains_key(address) {
                Some(self@.breakpoints[address])
            } else {
                None
            },
            found matches Some(bp) ==> bp.spec_addr() == address,
    {
        proof {
            use_type_invariant(self);
        }
        match self.breakpoints.get(&address) {
            Some(bp) => Some(*bp),
            None => None,
        }
    }

    /// The identifier of the traced process, if it has not exited.
    fn live_pid(&self) -> (pid: Option<i32>)
        ensures
            pid is Some == self@.is_live(),
            pid matches Some(p) ==> p > 0 && p == self@.process->0.pid,
    {
        proof {
            use_type_invariant(self);
        }
        match self.process {
            Some(process) => match process.status {
                ProcessStatus::Exited(_) => None,
                _ => Some(process.pid),
            },
            None => None,
        }
    }

    /// Files `bp` under its own address, in place of a breakpoint that was
    /// filed there.
    fn file(&mut self, bp: BreakPoint)
        ensures
            final(self)@ == (DebuggerView {
                breakpoints: old(self)@.breakpoints.insert(bp.spec_addr(), bp),
                ..old(self)@
            }),
    {
        proof {
            use_type_invariant(&*self);
        }
        let mut table: HashMap<u64, BreakPoint> = HashMap::new();
        std::mem::swap(&mut table, &mut self.breakpoints);
        table.insert(bp.addr(), bp);
        std::mem::swap(&mut table, &mut self.breakpoints);
    }

    /// The parent's side of a launch: takes over the child `child`, which
    /// has asked to be traced and is about to replace its image, and waits
    /// for its first stop.
    ///
    /// What the wait reported goes through `first_stop`. The launch has
    /// succeeded when the wait reports a stop: the child is then the traced
    /// process, stopped by the signal that the wait reported. A child that
    /// has exited instead, having failed to replace its image, is no
    /// launch; nor is a `child` that is no process identifier, nor a wait
    /// that fails. These are `Launch`, and leave the engine as it was.
    ///
    /// Breakpoints stay filed, and a process that was traced before is
    /// neither ended nor waited for.
    pub fn start(&mut self, child: i32) -> (started: Result<(), DebuggerError>)
        ensures
            child <= 0 ==> started is Err,
            started is Ok ==> ({
                &&& spec_first_stop(child, Some(final(self)@.process->0.status)) == Ok::<
                    Process,
                    DebuggerError,
                >(final(self)@.process->0)
                &&& final(self)@.process is Some
                &&& final(self)@.process->0.pid == child
                &&& final(self)@.process->0.status is Stopped
                &&& final(self)@ == (DebuggerView { process: final(self)@.process, ..old(self)@ })
            }),
            started matches Err(e) ==> e == DebuggerError::Launch && *final(self) == *old(self),
    {
        proof {
            use_type_invariant(&*self);
        }
        let waited = if child > 0 {
            match wait_for(child) {
                Ok(status) => Some(status),
                Err(_) => None,
            }
        } else {
            None
        };
        match first_stop(child, waited) {
            Ok(process) => {
                self.process = Some(process);
                Ok(())
            },
            Err(e) => Err(e),
        }
    }

    /// Waits for the traced process to stop or exit and records what the
    /// wait reported.
    ///
    /// Without a live process, and only then, this is `NoChildProcess`. A
    /// wait that fails is `ProcessAccess`. In both cases the engine is
    /// unchanged. What the wait reported is recorded, and the result is its
    /// `wait_outcome`: `Finished` for an exit, the status otherwise.
    fn wait(&mut self) -> (waited: Result<ProcessStatus, DebuggerError>)
        ensures
            (waited matches Err(DebuggerError::NoChildProcess)) <==> !old(self)@.is_live(),
            waited is Ok || (waited matches Err(DebuggerError::Finished)) ==> waited
                == spec_wait_outcome(final(self)@.process->0.status),
            match waited {
                Ok(status) => old(self)@.is_live() && !(status is Exited)
                    && final(self)@ == old(self)@.with_status(status),
                Err(DebuggerError::Finished) => old(self)@.is_live() && exists|code: i32|
                    final(self)@ == #[trigger] old(self)@.with_status(ProcessStatus::Exited(code)),
                Err(e) => (e == DebuggerError::NoChildProcess || e == DebuggerError::ProcessAccess)
                    && *final(self) == *old(self),
            },
    {
        proof {
            use_type_invariant(&*self);
        }
        let pid = match self.live_pid() {
            Some(pid) => pid,
            None => { return Err(DebuggerError::NoChildProcess); },
        };
        let status = match wait_for(pid) {
            Ok(status) => status,
            Err(_) => { return Err(DebuggerError::ProcessAccess); },
        };
        self.process = Some(Process { pid, status });
        proof {
            if let ProcessStatus::Exited(code) = status {
                assert(self@ == old(self)@.with_status(ProcessStatus::Exited(code)));
            }
        }
        wait_outcome(status)
    }

    /// The instruction pointer of the traced process.
    ///
    /// Without a live process this is `NoChildProcess`, and otherwise never
    /// that; a register read that fails is `ProcessAccess`.
    pub fn get_pc(&self) -> (pc: Result<u64, DebuggerError>)
        ensures
            pc == Err::<u64, DebuggerError>(DebuggerError::NoChildProcess) <==> !self@.is_live(),
            pc matches Err(e) ==> e == DebuggerError::NoChildProcess || e
                == DebuggerError::ProcessAccess,
    {
        match self.live_pid() {
            Some(pid) => read_register(pid, Register::Rip),
            None => Err(DebuggerError::NoChildProcess),
        }
    }

    /// Sets the instruction pointer of the traced process: the next
    /// instruction that it executes is the one at `value`.
    ///
    /// Without a live process this is `NoChildProcess`, and otherwise never
    /// that; a register write that fails is `ProcessAccess`.
    pub fn set_pc(&self, value: u64) -> (set: Result<(), DebuggerError>)
        ensures
            set == Err::<(), DebuggerError>(DebuggerError::NoChildProcess) <==> !self@.is_live(),
            set matches Err(e) ==> e == DebuggerError::NoChildProcess || e
                == DebuggerError::ProcessAccess,
    {
        match self.live_pid() {
            Some(pid) => write_register(pid, Register::Rip, value),
            None => Err(DebuggerError::NoChildProcess),
        }
    }

    /// Handles a stop at a breakpoint, the process standing at `pc`, one
    /// byte past the trap: moves the instruction pointer back onto the
    /// breakpoint's address and resolves that address.
    ///
    /// The address reported is `pc` rewound. The location reported is the
    /// resolver's for that address, not for `pc`: the file and line of the
    /// entry that covers it, and none where the line tables have no such
    /// entry, which is no error. The engine's own state does not change.
    ///
    /// Without a live process, and only then, this is `NoChildProcess`; a
    /// register write that fails is `ProcessAccess`, a line table that
    /// cannot be parsed is `DebugInfo`.
    pub fn on_breakpoint_hit_at(&mut self, pc: u64) -> (hit: Result<BreakpointHit, DebuggerError>)
        ensures
            *final(self) == *old(self),
            hit matches Ok(report) ==> report.address == spec_rewind(pc)
                && report.is_resolved_by(old(self)@.locator) && report.has_line_from_one(),
            hit == Err::<BreakpointHit, DebuggerError>(DebuggerError::NoChildProcess)
                <==> !old(self)@.is_live(),
            hit matches Err(e) ==> e == DebuggerError::NoChildProcess || e
                == DebuggerError::ProcessAccess || e == DebuggerError::DebugInfo,
    {
        let address = rewind(pc);
        match self.set_pc(address) {
            Ok(()) => {},
            Err(e) => { return Err(e); },
        }
        match self.locator.get_source_location(address) {
            Ok(location) => Ok(BreakpointHit { address, location }),
            Err(e) => Err(e),
        }
    }

    /// Handles a stop at a breakpoint: reads the instruction pointer and
    /// runs `on_breakpoint_hit_at` on it.
    ///
    /// The location reported is the resolver's for the address reported.
    /// The engine's own state does not change. Without a live process, and
    /// only then, this is `NoChildProcess`.
    pub fn on_breakpoint_hit(&mut self) -> (hit: Result<BreakpointHit, DebuggerError>)
        ensures
            *final(self) == *old(self),
            hit matches Ok(report) ==> report.is_resolved_by(old(self)@.locator)
                && report.has_line_from_one(),
            hit == Err::<BreakpointHit, DebuggerError>(DebuggerError::NoChildProcess)
                <==> !old(self)@.is_live(),
            hit matches Err(e) ==> e == DebuggerError::NoChildProcess || e
                == DebuggerError::ProcessAccess || e == DebuggerError::DebugInfo,
    {
        match self.get_pc() {
            Ok(pc) => self.on_breakpoint_hit_at(pc),
            Err(e) => Err(e),
        }
    }

    /// Whether an enabled breakpoint is set at `pc`: whether the process,
    /// resumed at `pc`, would trap at once on the breakpoint's own byte.
    pub fn needs_step_over(&self, pc: u64) -> (needed: bool)
        ensures
            needed == self@.needs_step_over(pc),
    {
        match self.breakpoints.get(&pc) {
            Some(bp) => bp.is_enabled(),
            None => false,
        }
    }

    /// The step-over protocol for a process that stands at `pc`.
    ///
    /// Where no enabled breakpoint is set at `pc`, nothing is done: no
    /// system call is made, the engine is unchanged, and the result is
    /// `Ok(false)`. Otherwise the breakpoint at `pc` is disabled, the
    /// process executes one instruction, the engine waits for it, and the
    /// breakpoint is enabled again: the result is `Ok(true)`, and only the
    /// recorded status may differ from before.
    ///
    /// A step that does not complete leaves the breakpoint disabled. That
    /// is so when the process exits in the step, which is `Finished`. With
    /// an enabled breakpoint at `pc` and no live process, and only then,
    /// the protocol cannot start: `NoChildProcess`, with the engine
    /// unchanged.
    pub fn step_over_breakpoint_at(&mut self, pc: u64) -> (stepped: Result<bool, DebuggerError>)
        ensures
            !old(self)@.needs_step_over(pc) ==> stepped == Ok::<bool, DebuggerError>(false)
                && *final(self) == *old(self),
            (stepped matches Err(DebuggerError::NoChildProcess)) <==> old(self)@.needs_step_over(pc)
                && !old(self)@.is_live(),
            (stepped matches Err(DebuggerError::NoChildProcess)) ==> *final(self) == *old(self),
            final(self)@.continues(old(self)@, pc),
            match stepped {
                Ok(taken) => taken == old(self)@.needs_step_over(pc)
                    && final(self)@.differs_in_status_only(old(self)@)
                    && (taken ==> final(self)@.is_live()),
                Err(DebuggerError::Finished) => old(self)@.is_live() && !final(self)@.is_live()
                    && !final(self)@.breakpoints[pc].spec_is_enabled(),
                Err(e) => e == DebuggerError::NoChildProcess || e == DebuggerError::MemoryAccess
                    || e == DebuggerError::ProcessAccess,
            },
    {
        proof {
            use_type_invariant(&*self);
        }
        let found = match self.breakpoints.get(&pc) {
            Some(bp) => *bp,
            None => { return Ok(false); },
        };
        if !found.is_enabled() {
            return Ok(false);
        }
        let pid = match self.live_pid() {
            Some(pid) => pid,
            None => { return Err(DebuggerError::NoChildProcess); },
        };
        let mut bp = found;
        match bp.disable() {
            Ok(()) => {},
            Err(e) => { return Err(e); },
        }
        self.file(bp);
        assert(self@.breakpoints.dom() =~= old(self)@.breakpoints.dom());
        assert(self@.continues(old(self)@, pc));
        match single_step(pid) {
            Ok(()) => {},
            Err(_) => { return Err(DebuggerError::ProcessAccess); },
        }
        match self.wait() {
            Ok(_) => {},
            Err(e) => { return Err(e); },
        }
        match bp.enable() {
            Ok(()) => {},
            Err(e) => { return Err(e); },
        }
        self.file(bp);
        proof {
            lemma_breakpoint_equality(bp, found);
            assert(self@.breakpoints =~= old(self)@.breakpoints);
        }
        Ok(true)
    }

    /// The step-over protocol for the process where it stands: reads the
    /// instruction pointer and runs `step_over_breakpoint_at` on it.
    ///
    /// Without a live process, and only then, this is `NoChildProcess`;
    /// that and a register read that fails, `ProcessAccess`, leave the
    /// engine unchanged.
    pub fn step_over_breakpoint_if_needed(&mut self) -> (stepped: Result<bool, DebuggerError>)
        ensures
            (stepped matches Err(DebuggerError::NoChildProcess)) <==> !old(self)@.is_live(),
            (stepped matches Err(DebuggerError::NoChildProcess)) ==> *final(self) == *old(self),
            exists|pc: u64| #[trigger] final(self)@.continues(old(self)@, pc),
            match stepped {
                Ok(taken) => old(self)@.is_live()
                    && final(self)@.differs_in_status_only(old(self)@)
                    && (!taken ==> *final(self) == *old(self))
                    && (taken ==> final(self)@.is_live()),
                Err(DebuggerError::Finished) => old(self)@.is_live() && !final(self)@.is_live(),
                Err(e) => e == DebuggerError::NoChildProcess || e == DebuggerError::MemoryAccess
                    || e == DebuggerError::ProcessAccess,
            },
    {
        let pc = match self.get_pc() {
            Ok(pc) => pc,
            Err(e) => {
                assert(self@.continues(old(self)@, 0));
                return Err(e);
            },
        };
        let stepped = self.step_over_breakpoint_at(pc);
        assert(self@.continues(old(self)@, pc));
        stepped
    }

    /// One cycle of resuming and waiting: resumes the process, waits for
    /// its next stop or exit, and acts on what the wait reported as
    /// `disposition` says.
    ///
    /// - A stop by SIGTRAP is a breakpoint hit: the instruction pointer is
    ///   rewound and the hit is returned, with the resolver's location for
    ///   its address.
    /// - A stop by SIGILL is `SigIll`.
    /// - A stop by another signal is returned as `SignalIgnored`: it is for
    ///   `cont` to resume the process again.
    /// - An exit is `Finished`.
    ///
    /// Whatever the outcome, nothing but the recorded status changes.
    /// Without a live process, and only then, the cycle is
    /// `NoChildProcess`, with the engine unchanged.
    pub fn resume_once(&mut self) -> (resumed: Result<Continued, DebuggerError>)
        ensures
            (resumed matches Err(DebuggerError::NoChildProcess)) <==> !old(self)@.is_live(),
            (resumed matches Err(DebuggerError::NoChildProcess)) ==> *final(self) == *old(self),
            final(self)@.differs_in_status_only(old(self)@),
            match resumed {
                Ok(Continued::BreakpointHit(hit)) => final(self)@.reports(
                    Disposition::BreakpointHit,
                ) && hit.is_resolved_by(old(self)@.locator) && hit.has_line_from_one(),
                Ok(Continued::SignalIgnored) => final(self)@.reports(Disposition::Resume),
                Ok(Continued::Nothing) => final(self)@.reports(Disposition::Nothing),
                Err(DebuggerError::SigIll) => final(self)@.reports(Disposition::IllegalInstruction),
                Err(DebuggerError::Finished) => old(self)@.is_live() && final(self)@.reports(
                    Disposition::Finished,
                ),
                Err(e) => e == DebuggerError::NoChildProcess || e == DebuggerError::ProcessAccess
                    || e == DebuggerError::DebugInfo,
            },
    {
        let pid = match self.live_pid() {
            Some(pid) => pid,
            None => { return Err(DebuggerError::NoChildProcess); },
        };
        match resume(pid) {
            Ok(()) => {},
            Err(_) => { return Err(DebuggerError::ProcessAccess); },
        }
        let status = match self.wait() {
            Ok(status) => status,
            Err(e) => { return Err(e); },
        };
        match disposition(status) {
            Disposition::BreakpointHit => match self.on_breakpoint_hit() {
                Ok(hit) => Ok(Continued::BreakpointHit(hit)),
                Err(e) => Err(e),
            },
            Disposition::IllegalInstruction => Err(DebuggerError::SigIll),
            Disposition::Resume => Ok(Continued::SignalIgnored),
            Disposition::Finished => Err(DebuggerError::Finished),
            Disposition::Nothing => Ok(Continued::Nothing),
        }
    }

    /// Continues the traced process, which stands at `pc`, until it stops
    /// for a reason to report, or exits.
    ///
    /// A breakpoint at `pc` is stepped over first, once. After that the
    /// process is resumed and waited for, in cycles of `resume_once`, and
    /// `next_step` says after each whether another follows: it does for as
    /// long as a cycle ends in a stop by a filtered signal. Only the resume
    /// and the wait are issued again, so that a breakpoint at which such a
    /// signal stopped the process is hit, not stepped over. A filtered stop
    /// never comes back to the caller. What comes back is
    ///
    /// - a breakpoint hit, with the process stopped by SIGTRAP, its
    ///   instruction pointer rewound, and the resolver's location for the
    ///   address of the hit;
    /// - nothing, where the wait reported neither a stop nor an exit;
    /// - `SigIll`, with the process stopped by SIGILL and left so;
    /// - `Finished`, with the process exited;
    /// - or the error that cut the step-over or a cycle short.
    ///
    /// Should `FILTERED_STOPS` stops in a row be filtered, the process is
    /// left stopped and the error is `ProcessAccess`.
    ///
    /// Where no enabled breakpoint is set at `pc`, nothing but the recorded
    /// status changes, whatever the outcome; so it is after a hit, nothing,
    /// `SigIll` and `DebugInfo`. The breakpoint at `pc` differs from before
    /// only where the step over it did not complete: it is then disabled.
    /// Without a live process, and only then, this is `NoChildProcess`, with
    /// the engine unchanged.
    pub fn cont_from(&mut self, pc: u64) -> (continued: Result<
        Option<BreakpointHit>,
        DebuggerError,
    >)
        ensures
            (continued matches Err(DebuggerError::NoChildProcess)) <==> !old(self)@.is_live(),
            (continued matches Err(DebuggerError::NoChildProcess)) ==> *final(self) == *old(self),
            final(self)@.continues(old(self)@, pc),
            !old(self)@.needs_step_over(pc) ==> final(self)@.differs_in_status_only(old(self)@),
            match continued {
                Ok(Some(hit)) => final(self)@.differs_in_status_only(old(self)@)
                    && final(self)@.reports(Disposition::BreakpointHit)
                    && hit.is_resolved_by(old(self)@.locator)
                    && hit.has_line_from_one(),
                Ok(None) => final(self)@.differs_in_status_only(old(self)@)
                    && final(self)@.reports(Disposition::Nothing),
                Err(DebuggerError::SigIll) => final(self)@.differs_in_status_only(old(self)@)
                    && final(self)@.reports(Disposition::IllegalInstruction),
                Err(DebuggerError::Finished) => old(self)@.is_live() && final(self)@.reports(
                    Disposition::Finished,
                ),
                Err(DebuggerError::DebugInfo) => final(self)@.differs_in_status_only(old(self)@),
                Err(e) => e == DebuggerError::NoChildProcess || e == DebuggerError::MemoryAccess
                    || e == DebuggerError::ProcessAccess,
            },
    {
        match self.step_over_breakpoint_at(pc) {
            Ok(_) => {},
            Err(e) => { return Err(e); },
        }
        let mut left: u64 = FILTERED_STOPS;
        loop
            invariant
                self@.is_live() == old(self)@.is_live(),
                !old(self)@.is_live() ==> *self == *old(self),
                self@.differs_in_status_only(old(self)@),
            decreases left,
        {
            let resumed = self.resume_once();
            assert(self@.continues(old(self)@, pc));
            match next_step(resumed, left) {
                Step::Again(fewer) => {
                    left = fewer;
                },
                Step::Done(continued) => {
                    return continued;
                },
            }
        }
    }

    /// Continues the traced process from where it stands until it stops for
    /// a reason to report, or exits: reads the instruction pointer and runs
    /// `cont_from` on it.
    ///
    /// A hit comes with the resolver's location for its address. A filtered
    /// stop never comes back to the caller. A hit, nothing, `SigIll` and
    /// `DebugInfo` leave all but the recorded status as it was; a
    /// breakpoint differs from before only where the step over it did not
    /// complete. Without a live process, and only then, this is
    /// `NoChildProcess`, with the engine unchanged.
    pub fn cont(&mut self) -> (continued: Result<Option<BreakpointHit>, DebuggerError>)
        ensures
            (continued matches Err(DebuggerError::NoChildProcess)) <==> !old(self)@.is_live(),
            (continued matches Err(DebuggerError::NoChildProcess)) ==> *final(self) == *old(self),
            exists|pc: u64| #[trigger] final(self)@.continues(old(self)@, pc),
            match continued {
                Ok(Some(hit)) => final(self)@.differs_in_status_only(old(self)@)
                    && final(self)@.reports(Disposition::BreakpointHit)
                    && hit.is_resolved_by(old(self)@.locator)
                    && hit.has_line_from_one(),
                Ok(None) => final(self)@.differs_in_status_only(old(self)@)
                    && final(self)@.reports(Disposition::Nothing),
                Err(DebuggerError::SigIll) => final(self)@.differs_in_status_only(old(self)@)
                    && final(self)@.reports(Disposition::IllegalInstruction),
                Err(DebuggerError::Finished) => old(self)@.is_live() && final(self)@.reports(
                    Disposition::Finished,
                ),
                Err(DebuggerError::DebugInfo) => final(self)@.differs_in_status_only(old(self)@),
                Err(e) => e == DebuggerError::NoChildProcess || e == DebuggerError::MemoryAccess
                    || e == DebuggerError::ProcessAccess,
            },
    {
        match self.get_pc() {
            Ok(pc) => {
                let continued = self.cont_from(pc);
                assert(self@.continues(old(self)@, pc));
                continued
            },
            Err(e) => {
                assert(self@.continues(old(self)@, 0));
                Err(e)
            },
        }
    }

    /// Sets a breakpoint at the address that `address` writes in base 16.
    ///
    /// Without a live process, and only then, this is `NoChildProcess`;
    /// with one, a text that writes no address, and only that, is
    /// `InvalidAddress`. Neither changes the engine.
    ///
    /// - At an address with an enabled breakpoint nothing is left to do:
    ///   the call succeeds, no system call is made and the engine is
    ///   unchanged.
    /// - At an address with a disabled breakpoint, that breakpoint stays,
    ///   with the word it captured, and is enabled.
    /// - At an address without a breakpoint, one is installed and filed
    ///   under the address.
    ///
    /// Memory that cannot be read or written is `MemoryAccess`, with the
    /// engine unchanged. No other breakpoint is touched.
    pub fn set_breakpoint(&mut self, address: &str) -> (set: Result<(), DebuggerError>)
        ensures
            (set matches Err(DebuggerError::NoChildProcess)) <==> !old(self)@.is_live(),
            (set matches Err(DebuggerError::InvalidAddress)) <==> old(self)@.is_live()
                && spec_parse_address(address@) is None,
            old(self)@.is_live() && spec_parse_address(address@) is Some
                && old(self)@.needs_step_over(spec_parse_address(address@)->0) ==> set is Ok
                && *final(self) == *old(self),
            set matches Err(e) ==> *final(self) == *old(self) && (e == DebuggerError::NoChildProcess
                || e == DebuggerError::InvalidAddress || e == DebuggerError::MemoryAccess),
            set is Ok ==> ({
                let addr = spec_parse_address(address@)->0;
                let bp = final(self)@.breakpoints[addr];
                &&& old(self)@.is_live()
                &&& spec_parse_address(address@) is Some
                &&& final(self)@ == (DebuggerView {
                    breakpoints: old(self)@.breakpoints.insert(addr, bp),
                    ..old(self)@
                })
                &&& bp.spec_addr() == addr
                &&& bp.spec_is_enabled()
                &&& old(self)@.breakpoints.contains_key(addr) ==> bp.same_installation(
                    old(self)@.breakpoints[addr],
                )
                &&& !old(self)@.breakpoints.contains_key(addr) ==> bp.spec_pid()
                    == old(self)@.process->0.pid
            }),
    {
        proof {
            use_type_invariant(&*self);
        }
        let pid = match self.live_pid() {
            Some(pid) => pid,
            None => { return Err(DebuggerError::NoChildProcess); },
        };
        let addr = match parse_address(address) {
            Ok(addr) => addr,
            Err(e) => { return Err(e); },
        };
        let bp = match self.breakpoints.get(&addr) {
            Some(existing) => {
                let mut bp = *existing;
                if bp.is_enabled() {
                    assert(self@.breakpoints.insert(addr, bp) =~= self@.breakpoints);
                    return Ok(());
                }
                match bp.enable() {
                    Ok(()) => {},
                    Err(e) => { return Err(e); },
                }
                bp
            },
            None => match BreakPoint::new(pid, addr) {
                Ok(bp) => bp,
                Err(e) => { return Err(e); },
            },
        };
        self.file(bp);
        Ok(())
    }

    /// Tears the session down: kills the traced process if it has not
    /// exited, and forgets it.
    ///
    /// Without a live process nothing is done. A kill that fails is
    /// `ProcessAccess`, with the engine unchanged: the caller has no way
    /// left to end the process.
    pub fn terminate(&mut self) -> (terminated: Result<(), DebuggerError>)
        ensures
            !old(self)@.is_live() ==> terminated is Ok && *final(self) == *old(self),
            terminated is Ok && old(self)@.is_live() ==> final(self)@ == (DebuggerView {
                process: None,
                ..old(self)@
            }),
            terminated matches Err(e) ==> e == DebuggerError::ProcessAccess
                && *final(self) == *old(self),
    {
        proof {
            use_type_invariant(&*self);
        }
        let pid = match self.live_pid() {
            Some(pid) => pid,
            None => { return Ok(()); },
        };
        match kill(pid) {
            Ok(()) => {
                self.process = None;
                Ok(())
            },
            Err(_) => Err(DebuggerError::ProcessAccess),
        }
    }
}

} // verus!
