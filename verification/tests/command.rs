use build_debugger_in_rust::command::{parse_command, Command};

#[test]
fn c_is_continue() {
    assert_eq!(parse_command("c"), Command::Continue);
}

#[test]
fn b_with_one_argument_is_break() {
    assert_eq!(parse_command("b 401000"), Command::Break("401000".to_string()));
    assert_eq!(parse_command("b main"), Command::Break("main".to_string()));
    assert_eq!(parse_command("b é"), Command::Break("é".to_string()));
}

#[test]
fn b_with_an_empty_argument_is_break_of_nothing() {
    assert_eq!(parse_command("b "), Command::Break(String::new()));
}

#[test]
fn b_with_another_number_of_arguments_is_a_usage_error() {
    assert_eq!(parse_command("b"), Command::BreakUsage);
    assert_eq!(parse_command("b 401000 401001"), Command::BreakUsage);
    assert_eq!(parse_command("b  401000"), Command::BreakUsage);
    assert_eq!(parse_command("b 401000 "), Command::BreakUsage);
}

#[test]
fn any_other_word_is_unknown() {
    assert_eq!(parse_command("step"), Command::Unknown("step".to_string()));
    assert_eq!(parse_command("break 401000"), Command::Unknown("break".to_string()));
    assert_eq!(parse_command("continue"), Command::Unknown("continue".to_string()));
    assert_eq!(parse_command("bb 1"), Command::Unknown("bb".to_string()));
    assert_eq!(parse_command("B 1"), Command::Unknown("B".to_string()));
    assert_eq!(parse_command("étape 1"), Command::Unknown("étape".to_string()));
}

#[test]
fn c_takes_no_argument_and_no_blank() {
    assert_eq!(parse_command("c "), Command::Unknown("c".to_string()));
    assert_eq!(parse_command("c 1"), Command::Unknown("c".to_string()));
    assert_eq!(parse_command(" c"), Command::Unknown(String::new()));
}

#[test]
fn an_empty_line_is_an_unknown_empty_word() {
    assert_eq!(parse_command(""), Command::Unknown(String::new()));
    assert_eq!(parse_command(" "), Command::Unknown(String::new()));
    assert_eq!(parse_command(" b 1"), Command::Unknown(String::new()));
}

#[test]
fn only_the_blank_separates() {
    assert_eq!(parse_command("b\t401000"), Command::Unknown("b\t401000".to_string()));
    assert_eq!(parse_command("b 40\t10"), Command::Break("40\t10".to_string()));
}
