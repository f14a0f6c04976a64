use build_debugger_in_rust::error::DebuggerError;
use build_debugger_in_rust::register::{read_register, write_register, Register, RegisterSet};

const NO_SUCH_PROCESS: i32 = i32::MAX;

#[test]
fn get_picks_the_register_asked_for() {
    let set = RegisterSet { rbp: 1, rip: 2, rsp: 3 };
    assert_eq!(set.get(Register::Rbp), 1);
    assert_eq!(set.get(Register::Rip), 2);
    assert_eq!(set.get(Register::Rsp), 3);
}

#[test]
fn set_changes_one_register_and_no_other() {
    let mut set = RegisterSet { rbp: 1, rip: 2, rsp: 3 };
    set.set(Register::Rip, 0x401000);
    assert_eq!(set, RegisterSet { rbp: 1, rip: 0x401000, rsp: 3 });
    set.set(Register::Rbp, u64::MAX);
    assert_eq!(set, RegisterSet { rbp: u64::MAX, rip: 0x401000, rsp: 3 });
    set.set(Register::Rsp, 0);
    assert_eq!(set, RegisterSet { rbp: u64::MAX, rip: 0x401000, rsp: 0 });
}

#[test]
fn a_written_register_reads_back() {
    for written in [Register::Rbp, Register::Rip, Register::Rsp] {
        for read in [Register::Rbp, Register::Rip, Register::Rsp] {
            let before = RegisterSet { rbp: 10, rip: 20, rsp: 30 };
            let mut after = before;
            after.set(written, 99);
            let expected = if read == written { 99 } else { before.get(read) };
            assert_eq!(after.get(read), expected);
        }
    }
}

#[test]
fn register_access_without_a_process_is_a_process_access_error() {
    assert_eq!(read_register(NO_SUCH_PROCESS, Register::Rip), Err(DebuggerError::ProcessAccess));
    assert_eq!(read_register(NO_SUCH_PROCESS, Register::Rbp), Err(DebuggerError::ProcessAccess));
    assert_eq!(
        write_register(NO_SUCH_PROCESS, Register::Rip, 0x401000),
        Err(DebuggerError::ProcessAccess)
    );
}
