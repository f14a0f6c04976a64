use build_debugger_in_rust::error::DebuggerError;
use build_debugger_in_rust::source_code_locator::{location, LineEntry, SourceCodeLocator};

/// Needs the Go executable `./examples/main`, whose `main.go` has the
/// instruction at 0x4ae682 on line 7. Where that file is not at hand there
/// is nothing to look up.
#[test]
fn test_source_code_locator() {
    if !std::path::Path::new("./examples/main").exists() {
        return;
    }
    let locator = SourceCodeLocator::new("./examples/main").unwrap();
    let mut got = locator.get_source_location(0x4ae682).unwrap();
    got = got.map(|m| (m.0.split("/").last().unwrap().to_string(), m.1));
    assert_eq!(got, Some(("main.go".to_string(), 7)));
}

#[test]
fn an_entry_with_file_and_line_is_a_location() {
    let entry = LineEntry { file: Some("/src/main.go".to_string()), line: Some(7) };
    assert_eq!(location(Some(entry)), Some(("/src/main.go".to_string(), 7)));
}

#[test]
fn a_lookup_that_found_nothing_is_no_location() {
    assert_eq!(location(None), None);
}

#[test]
fn an_entry_that_lacks_the_file_or_the_line_is_no_location() {
    assert_eq!(location(Some(LineEntry { file: None, line: Some(7) })), None);
    assert_eq!(location(Some(LineEntry { file: Some("main.go".to_string()), line: None })), None);
    assert_eq!(location(Some(LineEntry { file: None, line: None })), None);
}

#[test]
fn a_file_that_does_not_exist_is_a_debug_info_error() {
    assert!(matches!(
        SourceCodeLocator::new("/no/such/directory/no-such-executable"),
        Err(DebuggerError::DebugInfo)
    ));
}

#[test]
fn a_file_that_is_no_executable_is_a_debug_info_error() {
    assert!(matches!(SourceCodeLocator::new("/proc/self/cmdline"), Err(DebuggerError::DebugInfo)));
}

#[test]
fn an_address_that_no_entry_covers_resolves_to_no_location() {
    let locator = SourceCodeLocator::new("/proc/self/exe").expect("the running executable loads");
    assert_eq!(locator.get_source_location(u64::MAX), Ok(None));
    assert_eq!(locator.get_source_location(0xffff_8000_0000_0000), Ok(None));
}

#[test]
fn a_lookup_is_repeatable() {
    let locator = SourceCodeLocator::new("/proc/self/exe").expect("the running executable loads");
    for pc in [0u64, 0x1000, 0x401000, 0x4ae682, u64::MAX] {
        let first = locator.get_source_location(pc);
        assert_eq!(locator.get_source_location(pc), first);
        if let Ok(Some((_, line))) = first {
            assert!(line >= 1);
        }
    }
}

#[test]
fn two_resolvers_of_one_file_answer_alike() {
    let one = SourceCodeLocator::new("/proc/self/exe").expect("the running executable loads");
    let other = SourceCodeLocator::new("/proc/self/exe").expect("the running executable loads");
    for step in 0..512u64 {
        let pc = step * 0x40;
        let answer = one.get_source_location(pc);
        assert_eq!(other.get_source_location(pc), answer, "address {:#x}", pc);
        assert_eq!(one.get_source_location(pc), answer, "address {:#x}", pc);
    }
}
