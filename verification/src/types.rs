//! The records that the harness reads and writes, each with its view.

use crate::text::{option_text, texts};
use vstd::prelude::*;

verus! {

/// One comparison unit: a legacy project and the project that replaces it.
#[derive(Debug, PartialEq, Eq)]
pub struct ProjectInfo {
    pub id: String,
    pub name: String,
    pub legacy_path: String,
    pub new_path: String,
    pub project_type: String,
}

pub struct ProjectInfoView {
    pub id: Seq<char>,
    pub name: Seq<char>,
    pub legacy_path: Seq<char>,
    pub new_path: Seq<char>,
    pub project_type: Seq<char>,
}

impl View for ProjectInfo {
    type V = ProjectInfoView;

    open spec fn view(&self) -> ProjectInfoView {
        ProjectInfoView {
            id: self.id@,
            name: self.name@,
            legacy_path: self.legacy_path@,
            new_path: self.new_path@,
            project_type: self.project_type@,
        }
    }
}

impl Clone for ProjectInfo {
    fn clone(&self) -> (r: Self)
        ensures
            r@ == self@,
    {
        ProjectInfo {
            id: self.id.clone(),
            name: self.name.clone(),
            legacy_path: self.legacy_path.clone(),
            new_path: self.new_path.clone(),
            project_type: self.project_type.clone(),
        }
    }
}

/// How one side of a scenario is built and run.
#[derive(Debug, PartialEq, Eq)]
pub struct ExecutionInfo {
    pub exec_type: String,
    pub source_file: String,
    pub compile_command: Option<String>,
    pub execute_command: String,
    pub working_directory: String,
}

pub struct ExecutionInfoView {
    pub exec_type: Seq<char>,
    pub source_file: Seq<char>,
    pub compile_command: Option<Seq<char>>,
    pub execute_command: Seq<char>,
    pub working_directory: Seq<char>,
}

impl View for ExecutionInfo {
    type V = ExecutionInfoView;

    open spec fn view(&self) -> ExecutionInfoView {
        ExecutionInfoView {
            exec_type: self.exec_type@,
            source_file: self.source_file@,
            compile_command: option_text(self.compile_command),
            execute_command: self.execute_command@,
            working_directory: self.working_directory@,
        }
    }
}

impl Clone for ExecutionInfo {
    fn clone(&self) -> (r: Self)
        ensures
            r@ == self@,
    {
        ExecutionInfo {
            exec_type: self.exec_type.clone(),
            source_file: self.source_file.clone(),
            compile_command: clone_option_text(&self.compile_command),
            execute_command: self.execute_command.clone(),
            working_directory: self.working_directory.clone(),
        }
    }
}

/// A scenario: the text its arguments are derived from, and how each side is
/// built and run.
#[derive(Debug, PartialEq, Eq)]
pub struct FullTestFromAI {
    pub id: String,
    pub name: String,
    pub description: String,
    pub full_code: String,
    pub expected_exit_code: i32,
    pub timeout: Option<u64>,
    pub legacy_exec: ExecutionInfo,
    pub new_exec: ExecutionInfo,
}

pub struct FullTestView {
    pub id: Seq<char>,
    pub name: Seq<char>,
    pub description: Seq<char>,
    pub full_code: Seq<char>,
    pub expected_exit_code: i32,
    pub timeout: Option<u64>,
    pub legacy_exec: ExecutionInfoView,
    pub new_exec: ExecutionInfoView,
}

impl View for FullTestFromAI {
    type V = FullTestView;

    open spec fn view(&self) -> FullTestView {
        FullTestView {
            id: self.id@,
            name: self.name@,
            description: self.description@,
            full_code: self.full_code@,
            expected_exit_code: self.expected_exit_code,
            timeout: self.timeout,
            legacy_exec: self.legacy_exec@,
            new_exec: self.new_exec@,
        }
    }
}

impl Clone for FullTestFromAI {
    fn clone(&self) -> (r: Self)
        ensures
            r@ == self@,
    {
        FullTestFromAI {
            id: self.id.clone(),
            name: self.name.clone(),
            description: self.description.clone(),
            full_code: self.full_code.clone(),
            expected_exit_code: self.expected_exit_code,
            timeout: self.timeout,
            legacy_exec: self.legacy_exec.clone(),
            new_exec: self.new_exec.clone(),
        }
    }
}

/// Where a scenario stands.
#[derive(Clone, Copy, Debug, PartialEq, Eq, Structural)]
pub enum TestStatus {
    Pending,
    Running,
    Passed,
    Failed,
}

impl TestStatus {
    /// The word that stands for the status in stored records.
    pub open spec fn label_text(self) -> Seq<char> {
        match self {
            TestStatus::Pending => "pending"@,
            TestStatus::Running => "running"@,
            TestStatus::Passed => "passed"@,
            TestStatus::Failed => "failed"@,
        }
    }

    pub fn label(&self) -> (r: &'static str)
        ensures
            r@ == self.label_text(),
    {
        match self {
            TestStatus::Pending => "pending",
            TestStatus::Running => "running",
            TestStatus::Passed => "passed",
            TestStatus::Failed => "failed",
        }
    }
}

/// What the comparison of two executions found, beyond the verdict.
#[derive(Debug, PartialEq, Eq)]
pub struct ComparisonResult {
    /// Whether the two final outputs are equal once trimmed.
    pub outputs_match: bool,
    /// Whether the two programs ended with the same exit code.
    pub exit_codes_match: bool,
    /// The new side's running time minus the legacy side's, in milliseconds.
    pub performance_diff: Option<i64>,
    pub differences: Vec<String>,
}

pub struct ComparisonResultView {
    pub outputs_match: bool,
    pub exit_codes_match: bool,
    pub performance_diff: Option<i64>,
    pub differences: Seq<Seq<char>>,
}

impl View for ComparisonResult {
    type V = ComparisonResultView;

    open spec fn view(&self) -> ComparisonResultView {
        ComparisonResultView {
            outputs_match: self.outputs_match,
            exit_codes_match: self.exit_codes_match,
            performance_diff: self.performance_diff,
            differences: texts(self.differences@),
        }
    }
}

impl Clone for ComparisonResult {
    fn clone(&self) -> (r: Self)
        ensures
            r@ == self@,
    {
        ComparisonResult {
            outputs_match: self.outputs_match,
            exit_codes_match: self.exit_codes_match,
            performance_diff: self.performance_diff,
            differences: clone_texts(&self.differences),
        }
    }
}

pub open spec fn option_comparison(c: Option<ComparisonResult>) -> Option<ComparisonResultView> {
    match c {
        Some(c) => Some(c@),
        None => None,
    }
}

/// The record of one scenario and of its last execution.
#[derive(Debug, PartialEq, Eq)]
pub struct TestCase {
    pub id: String,
    pub name: String,
    pub description: String,
    pub full_code: String,
    pub status: TestStatus,
    pub execution_time: Option<u64>,
    pub legacy_output: Option<String>,
    pub new_output: Option<String>,
    pub comparison_result: Option<ComparisonResult>,
}

pub struct TestCaseView {
    pub id: Seq<char>,
    pub name: Seq<char>,
    pub description: Seq<char>,
    pub full_code: Seq<char>,
    pub status: TestStatus,
    pub execution_time: Option<u64>,
    pub legacy_output: Option<Seq<char>>,
    pub new_output: Option<Seq<char>>,
    pub comparison_result: Option<ComparisonResultView>,
}

impl View for TestCase {
    type V = TestCaseView;

    open spec fn view(&self) -> TestCaseView {
        TestCaseView {
            id: self.id@,
            name: self.name@,
            description: self.description@,
            full_code: self.full_code@,
            status: self.status,
            execution_time: self.execution_time,
            legacy_output: option_text(self.legacy_output),
            new_output: option_text(self.new_output),
            comparison_result: option_comparison(self.comparison_result),
        }
    }
}

impl Clone for TestCase {
    fn clone(&self) -> (r: Self)
        ensures
            r@ == self@,
    {
        let comparison_result = match &self.comparison_result {
            Some(c) => Some(c.clone()),
            None => None,
        };
        TestCase {
            id: self.id.clone(),
            name: self.name.clone(),
            description: self.description.clone(),
            full_code: self.full_code.clone(),
            status: self.status,
            execution_time: self.execution_time,
            legacy_output: clone_option_text(&self.legacy_output),
            new_output: clone_option_text(&self.new_output),
            comparison_result,
        }
    }
}

/// A record that is not tied to any scenario yet: empty texts, status pending.
pub open spec fn blank_case() -> TestCaseView {
    TestCaseView {
        id: Seq::empty(),
        name: Seq::empty(),
        description: Seq::empty(),
        full_code: Seq::empty(),
        status: TestStatus::Pending,
        execution_time: None,
        legacy_output: None,
        new_output: None,
        comparison_result: None,
    }
}

/// The record of a scenario that has not run yet.
pub open spec fn pending_case(test: FullTestView) -> TestCaseView {
    TestCaseView {
        id: test.id,
        name: test.name,
        description: test.description,
        full_code: test.full_code,
        ..blank_case()
    }
}

impl Default for TestCase {
    fn default() -> (r: Self)
        ensures
            r@ == blank_case(),
    {
        TestCase {
            id: String::new(),
            name: String::new(),
            description: String::new(),
            full_code: String::new(),
            status: TestStatus::Pending,
            execution_time: None,
            legacy_output: None,
            new_output: None,
            comparison_result: None,
        }
    }
}

impl TestCase {
    /// The record of `test` before it has run.
    pub fn pending(test: &FullTestFromAI) -> (r: TestCase)
        ensures
            r@ == pending_case(test@),
    {
        TestCase {
            id: test.id.clone(),
            name: test.name.clone(),
            description: test.description.clone(),
            full_code: test.full_code.clone(),
            status: TestStatus::Pending,
            execution_time: None,
            legacy_output: None,
            new_output: None,
            comparison_result: None,
        }
    }
}

/// The views of a list of scenarios.
pub open spec fn test_views(tests: Seq<FullTestFromAI>) -> Seq<FullTestView> {
    Seq::new(tests.len(), |i: int| tests[i]@)
}

/// The views of a list of records.
pub open spec fn case_views(cases: Seq<TestCase>) -> Seq<TestCaseView> {
    Seq::new(cases.len(), |i: int| cases[i]@)
}

/// The records of scenarios that have not run yet, in the scenarios' order.
pub fn pending_test_cases(tests: &Vec<FullTestFromAI>) -> (r: Vec<TestCase>)
    ensures
        case_views(r@) == test_views(tests@).map_values(|t: FullTestView| pending_case(t)),
{
    let mut r: Vec<TestCase> = Vec::new();
    let mut i: usize = 0;
    while i < tests.len()
        invariant
            i <= tests.len(),
            r@.len() == i,
            forall|j: int| 0 <= j < i ==> (#[trigger] r@[j])@ == pending_case(tests@[j]@),
        decreases tests.len() - i,
    {
        r.push(TestCase::pending(&tests[i]));
        i += 1;
    }
    assert(case_views(r@) =~= test_views(tests@).map_values(|t: FullTestView| pending_case(t)));
    r
}

/// The list of records that a test generator answers with.
#[derive(Debug, PartialEq, Eq)]
pub struct AITestResponse {
    pub tests: Vec<TestCase>,
}

/// One side of a scenario, ready to run: the command, its arguments as the
/// shell is to see them, and the limits of the run.
#[derive(Debug, PartialEq, Eq)]
pub struct ExecutableTest {
    pub test_case: TestCase,
    pub command: String,
    pub args: Vec<String>,
    pub working_directory: String,
    pub expected_exit_code: i32,
    pub timeout: u64,
}

pub struct ExecutableTestView {
    pub test_case: TestCaseView,
    pub command: Seq<char>,
    pub args: Seq<Seq<char>>,
    pub working_directory: Seq<char>,
    pub expected_exit_code: i32,
    pub timeout: u64,
}

impl View for ExecutableTest {
    type V = ExecutableTestView;

    open spec fn view(&self) -> ExecutableTestView {
        ExecutableTestView {
            test_case: self.test_case@,
            command: self.command@,
            args: texts(self.args@),
            working_directory: self.working_directory@,
            expected_exit_code: self.expected_exit_code,
            timeout: self.timeout,
        }
    }
}

pub fn clone_option_text(s: &Option<String>) -> (r: Option<String>)
    ensures
        option_text(r) == option_text(*s),
{
    match s {
        Some(s) => Some(s.clone()),
        None => None,
    }
}

pub fn clone_texts(v: &Vec<String>) -> (r: Vec<String>)
    ensures
        texts(r@) == texts(v@),
{
    let mut r: Vec<String> = Vec::new();
    let mut i: usize = 0;
    while i < v.len()
        invariant
            i <= v.len(),
            r@.len() == i,
            forall|j: int| 0 <= j < i ==> (#[trigger] r@[j])@ == v@[j]@,
        decreases v.len() - i,
    {
        r.push(v[i].clone());
        i += 1;
    }
    assert(texts(r@) =~= texts(v@));
    r
}

} // verus!
