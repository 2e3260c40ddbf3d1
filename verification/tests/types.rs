use parity_harness::types::{
    pending_test_cases, ComparisonResult, ExecutionInfo, FullTestFromAI, ProjectInfo, TestCase,
    TestStatus,
};

fn side() -> ExecutionInfo {
    ExecutionInfo {
        exec_type: "python".to_string(),
        source_file: "calc.py".to_string(),
        compile_command: Some("true".to_string()),
        execute_command: "python3 calc.py".to_string(),
        working_directory: "/new".to_string(),
    }
}

fn scenario(id: &str) -> FullTestFromAI {
    FullTestFromAI {
        id: id.to_string(),
        name: "adds".to_string(),
        description: "adds two numbers".to_string(),
        full_code: "2 + 3".to_string(),
        expected_exit_code: 0,
        timeout: None,
        legacy_exec: side(),
        new_exec: side(),
    }
}

#[test]
fn a_blank_record_is_pending() {
    let case = TestCase::default();
    assert_eq!(case.id, "");
    assert_eq!(case.name, "");
    assert_eq!(case.description, "");
    assert_eq!(case.full_code, "");
    assert_eq!(case.status, TestStatus::Pending);
    assert_eq!(case.execution_time, None);
    assert_eq!(case.legacy_output, None);
    assert_eq!(case.new_output, None);
    assert_eq!(case.comparison_result, None);
}

#[test]
fn scenarios_start_as_pending_records() {
    let cases = pending_test_cases(&vec![scenario("a"), scenario("b")]);
    assert_eq!(cases.len(), 2);
    assert_eq!(cases[0].id, "a");
    assert_eq!(cases[1].id, "b");
    assert_eq!(cases[1].name, "adds");
    assert_eq!(cases[1].description, "adds two numbers");
    assert_eq!(cases[1].full_code, "2 + 3");
    assert_eq!(cases[1].status, TestStatus::Pending);
    assert_eq!(cases[1], TestCase::pending(&scenario("b")));
    assert_eq!(pending_test_cases(&vec![]), vec![]);
}

#[test]
fn statuses_have_their_words() {
    assert_eq!(TestStatus::Pending.label(), "pending");
    assert_eq!(TestStatus::Running.label(), "running");
    assert_eq!(TestStatus::Passed.label(), "passed");
    assert_eq!(TestStatus::Failed.label(), "failed");
}

#[test]
fn a_copy_equals_what_it_copies() {
    let test = scenario("a");
    assert_eq!(test.clone(), test);
    let case = TestCase {
        legacy_output: Some("x".to_string()),
        comparison_result: Some(ComparisonResult {
            outputs_match: true,
            exit_codes_match: false,
            performance_diff: Some(-3),
            differences: vec!["a".to_string(), "b".to_string()],
        }),
        ..TestCase::pending(&test)
    };
    assert_eq!(case.clone(), case);
    let project = ProjectInfo {
        id: "1".to_string(),
        name: "calc".to_string(),
        legacy_path: "/old".to_string(),
        new_path: "/new".to_string(),
        project_type: "terminal".to_string(),
    };
    assert_eq!(project.clone(), project);
}
