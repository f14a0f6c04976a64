use build_debugger_in_rust::error::DebuggerError;

#[test]
fn messages_of_the_three_session_conditions() {
    assert_eq!(DebuggerError::Finished.message(), "Debuggee process is finished");
    assert_eq!(DebuggerError::NoChildProcess.message(), "No child process");
    assert_eq!(DebuggerError::SigIll.message(), "SIGILL received");
}

#[test]
fn every_condition_has_a_message_of_its_own() {
    let all = [
        DebuggerError::Finished,
        DebuggerError::NoChildProcess,
        DebuggerError::SigIll,
        DebuggerError::Launch,
        DebuggerError::InvalidAddress,
        DebuggerError::MemoryAccess,
        DebuggerError::ProcessAccess,
        DebuggerError::DebugInfo,
    ];
    for (i, a) in all.iter().enumerate() {
        assert!(!a.message().is_empty());
        for b in &all[i + 1..] {
            assert_ne!(a, b);
            assert_ne!(a.message(), b.message());
        }
    }
}
