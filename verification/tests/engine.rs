use parity_harness::engine::{
    command_line, escape_argument, escape_arguments, same_text, ExecutionResult,
};

#[test]
fn glob_characters_standing_alone_are_quoted() {
    assert_eq!(escape_argument("*"), "'*'");
    assert_eq!(escape_argument("?"), "'?'");
    assert_eq!(escape_argument("**"), "**");
    assert_eq!(escape_argument("a*"), "a*");
    assert_eq!(escape_argument("+"), "+");
    assert_eq!(escape_argument(""), "");
    let args = vec!["2".to_string(), "*".to_string(), "3".to_string()];
    assert_eq!(escape_arguments(&args), vec!["2".to_string(), "'*'".to_string(), "3".to_string()]);
}

#[test]
fn the_command_line_joins_command_and_arguments_with_spaces() {
    let args = vec!["2".to_string(), "'*'".to_string(), "3".to_string()];
    assert_eq!(command_line("./calc", &args), "./calc 2 '*' 3");
    assert_eq!(command_line("python3 calc.py", &vec![]), "python3 calc.py");
    assert_eq!(command_line("./calc", &vec!["1".to_string()]), "./calc 1");
}

#[test]
fn a_run_past_its_limit_reports_no_exit_code() {
    let late = ExecutionResult::captured("out".to_string(), "err".to_string(), Some(0), 30001, 30000);
    assert_eq!(late.exit_code, None);
    assert_eq!(late.error, Some("tempo limite excedido".to_string()));
    assert_eq!(late.stdout, "out");
    assert_eq!(late.elapsed_millis, 30001);
    assert!(late.is_well_formed());
    let in_time = ExecutionResult::captured("out".to_string(), String::new(), Some(3), 30000, 30000);
    assert_eq!(in_time.exit_code, Some(3));
    assert_eq!(in_time.error, None);
    assert!(in_time.is_well_formed());
}

#[test]
fn a_transport_failure_has_an_error_and_no_exit_code() {
    let failure = ExecutionResult::transport_failure("no such file".to_string(), 4);
    assert_eq!(failure.exit_code, None);
    assert_eq!(failure.error, Some("no such file".to_string()));
    assert_eq!(failure.stdout, "");
    assert_eq!(failure.stderr, "");
    assert_eq!(failure.elapsed_millis, 4);
    let odd = ExecutionResult {
        stdout: String::new(),
        stderr: String::new(),
        exit_code: Some(0),
        elapsed_millis: 0,
        error: Some("x".to_string()),
    };
    assert!(!odd.is_well_formed());
}

#[test]
fn texts_are_the_same_when_their_characters_are() {
    assert!(same_text("ação", "ação"));
    assert!(!same_text("a", "b"));
    assert!(!same_text("a", "ab"));
    assert!(same_text("", ""));
}
