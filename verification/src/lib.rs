//! A minimal debugger engine for x86_64 Linux processes under `ptrace`.
//!
//! The engine owns one traced process, a table of software breakpoints keyed
//! by address, and a resolver from addresses to source lines. Every system
//! call goes through one small function that is trusted rather than proved
//! (module `tracee`, and the two loader calls in `source_code_locator`);
//! everything the engine decides from what those calls return is verified.
//!
//! Beside the engine stand the two pieces of a front end that are rules
//! rather than input and output: how a command line is read (`command`) and
//! how the source around a line is listed (`source_code_printer`).

pub mod address;
pub mod breakpoint;
pub mod command;
pub mod debugger;
pub mod error;
pub mod register;
pub mod source_code_locator;
pub mod source_code_printer;
pub mod tracee;
