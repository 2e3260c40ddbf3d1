use parity_harness::comparator::{
    compare, final_output, outputs_equivalent, outputs_match, usage_message,
};
use parity_harness::engine::ExecutionResult;

fn ran(stdout: &str, stderr: &str, code: i32, elapsed: u64) -> ExecutionResult {
    ExecutionResult::captured(stdout.to_string(), stderr.to_string(), Some(code), elapsed, 30000)
}

#[test]
fn usage_messages_pass_though_they_differ() {
    let legacy = "Uso: prog <numero1> op <numero2>";
    let new = "Uso: prog <numero1> <operator> <numero2>";
    assert!(outputs_equivalent(legacy, new));
    assert!(!outputs_match(legacy, new));
    let verdict = compare(&ran("", legacy, 1, 5), &ran(new, "", 1, 7), 1);
    assert!(verdict.passed);
    assert_eq!(verdict.legacy_final, legacy);
    assert_eq!(verdict.new_final, new);
    assert!(!verdict.detail.outputs_match);
}

#[test]
fn trailing_white_space_does_not_matter() {
    assert!(outputs_equivalent("5\n", "5"));
    assert!(outputs_equivalent("5 \t\r\n", "5\n\n"));
    let verdict = compare(&ran("5\n", "", 0, 1), &ran("5", "", 0, 1), 0);
    assert!(verdict.passed);
    assert!(verdict.detail.outputs_match);
    assert!(verdict.detail.exit_codes_match);
    assert_eq!(verdict.detail.differences, Vec::<String>::new());
    assert_eq!(verdict.legacy_final, "5\n");
}

#[test]
fn different_outputs_fail() {
    assert!(!outputs_equivalent("5", "6"));
    let verdict = compare(&ran("5", "", 0, 10), &ran("6", "", 0, 4), 0);
    assert!(!verdict.passed);
    assert_eq!(verdict.detail.differences, vec!["As saídas diferem".to_string()]);
    assert_eq!(verdict.detail.performance_diff, Some(-6));
}

#[test]
fn one_usage_message_alone_does_not_pass() {
    assert!(!outputs_equivalent("Uso: prog <numero1>", "Usage: prog <number1>"));
    assert!(usage_message("x Uso: y <numero1>"));
    assert!(!usage_message("Uso: prog"));
    assert!(!usage_message("<numero1>"));
}

#[test]
fn standard_error_stands_in_for_blank_standard_output() {
    assert_eq!(final_output("  \n", "falhou"), "falhou");
    assert_eq!(final_output("ok", "falhou"), "ok");
    assert_eq!(final_output("", ""), "");
}

#[test]
fn exit_codes_are_reported_and_decide_nothing() {
    let verdict = compare(&ran("5", "", 0, 3), &ran("5", "", 2, 8), 0);
    assert!(verdict.passed);
    assert!(!verdict.detail.exit_codes_match);
    assert_eq!(
        verdict.detail.differences,
        vec![
            "Os códigos de saída diferem".to_string(),
            "O código de saída do novo não é o esperado".to_string(),
        ]
    );
    assert_eq!(verdict.detail.performance_diff, Some(5));
    let both = compare(&ran("5", "", 1, 3), &ran("5", "", 1, 3), 0);
    assert!(both.passed);
    assert!(both.detail.exit_codes_match);
    assert_eq!(
        both.detail.differences,
        vec![
            "O código de saída do legado não é o esperado".to_string(),
            "O código de saída do novo não é o esperado".to_string(),
        ]
    );
}

#[test]
fn a_transport_error_fails_with_the_error_as_both_outputs() {
    let broken = ExecutionResult::transport_failure("sh: not found".to_string(), 2);
    let verdict = compare(&broken, &ran("5", "", 0, 1), 0);
    assert!(!verdict.passed);
    assert_eq!(verdict.legacy_final, "Erro: sh: not found");
    assert_eq!(verdict.new_final, "Erro: sh: not found");
    assert_eq!(verdict.detail.differences, vec!["Erro: sh: not found".to_string()]);
    assert_eq!(verdict.detail.performance_diff, None);
    let other = compare(&ran("5", "", 0, 1), &broken, 0);
    assert!(!other.passed);
    assert_eq!(other.new_final, "Erro: sh: not found");
    let late = ExecutionResult::captured("5".to_string(), String::new(), Some(0), 40000, 30000);
    let timed_out = compare(&ran("5", "", 0, 1), &late, 0);
    assert!(!timed_out.passed);
    assert_eq!(timed_out.legacy_final, "Erro: tempo limite excedido");
}

fn lasted(elapsed: u64) -> ExecutionResult {
    ExecutionResult::captured("5".to_string(), String::new(), Some(0), elapsed, u64::MAX)
}

#[test]
fn the_time_difference_is_left_out_where_it_does_not_fit() {
    let verdict = compare(&lasted(0), &lasted(u64::MAX), 0);
    assert!(verdict.passed);
    assert_eq!(verdict.detail.performance_diff, None);
    let back = compare(&lasted(1u64 << 63), &lasted(0), 0);
    assert_eq!(back.detail.performance_diff, Some(i64::MIN));
    let most = compare(&lasted(0), &lasted(i64::MAX as u64), 0);
    assert_eq!(most.detail.performance_diff, Some(i64::MAX));
    let too_far_back = compare(&lasted((1u64 << 63) + 1), &lasted(0), 0);
    assert_eq!(too_far_back.detail.performance_diff, None);
}
