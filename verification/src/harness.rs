//! The course of one scenario, as a state machine, and the tally of a suite.
//!
//! A scenario is built, legacy side first, where it names build commands, then
//! executed, legacy side first, then judged. The machine says which action is
//! due; whoever performs it hands back what happened. A failed build ends the
//! scenario as failed without a single execution. Scenarios do not touch one
//! another: each has a machine of its own.

use crate::comparator::{compare, compared, Comparison, ComparisonView};
use crate::engine::{
    escape_arguments, escaped_all, same_text, ExecutionResult, ExecutionResultView,
};
use crate::errors::EmptySuiteError;
use crate::extractor::{extract_test_inputs, extracted_inputs};
use crate::text::{glue, texts};
use crate::types::{
    case_views, pending_case, test_views, ExecutableTest, ExecutableTestView, ExecutionInfo,
    ExecutionInfoView, FullTestFromAI, FullTestView, TestCase, TestCaseView, TestStatus,
};
use vstd::prelude::*;

verus! {

/// The limit of an execution whose scenario names none, in milliseconds.
pub const DEFAULT_TIMEOUT: u64 = 30000;

pub const LEGACY_BUILD_FAILED: &'static str = "Erro na compilação legado: ";

pub const NEW_BUILD_FAILED: &'static str = "Erro na compilação novo: ";

pub const UNEXPECTED_EVENT: &'static str = "Evento inesperado para o estado do teste";

/// One of the two programs under comparison.
#[derive(Clone, Copy, Debug, PartialEq, Eq, Structural)]
pub enum Side {
    Legacy,
    New,
}

/// Where a scenario stands.
#[derive(Debug, PartialEq, Eq)]
pub enum Stage {
    /// The build of one side is due.
    Building(Side),
    /// The execution of the legacy side is due.
    ExecutingLegacy,
    /// The legacy side has run, with this result; the new side is due.
    ExecutingNew(ExecutionResult),
    /// The scenario is over, with this record.
    Done(TestCase),
}

pub enum StageView {
    Building(Side),
    ExecutingLegacy,
    ExecutingNew(ExecutionResultView),
    Done(TestCaseView),
}

impl View for Stage {
    type V = StageView;

    open spec fn view(&self) -> StageView {
        match self {
            Stage::Building(side) => StageView::Building(*side),
            Stage::ExecutingLegacy => StageView::ExecutingLegacy,
            Stage::ExecutingNew(r) => StageView::ExecutingNew(r@),
            Stage::Done(c) => StageView::Done(c@),
        }
    }
}

/// What is due next for a scenario.
#[derive(Debug, PartialEq, Eq)]
pub enum Action {
    /// Run this build command of this side through the shell.
    Build { side: Side, command: String },
    /// Run this side.
    Execute { side: Side, invocation: ExecutableTest },
    /// Nothing more: the scenario is over, with this record.
    Finish(TestCase),
}

pub enum ActionView {
    Build { side: Side, command: Seq<char> },
    Execute { side: Side, invocation: ExecutableTestView },
    Finish(TestCaseView),
}

impl View for Action {
    type V = ActionView;

    open spec fn view(&self) -> ActionView {
        match self {
            Action::Build { side, command } => ActionView::Build { side: *side, command: command@ },
            Action::Execute { side, invocation } => ActionView::Execute {
                side: *side,
                invocation: invocation@,
            },
            Action::Finish(c) => ActionView::Finish(c@),
        }
    }
}

/// What came of the action that was due.
#[derive(Debug, PartialEq, Eq)]
pub enum Event {
    /// The build command ended with success.
    BuildSucceeded,
    /// The build command failed or could not be started; what it reported.
    BuildFailed(String),
    /// The program was run, with this result.
    Executed(ExecutionResult),
}

pub enum EventView {
    BuildSucceeded,
    BuildFailed(Seq<char>),
    Executed(ExecutionResultView),
}

impl View for Event {
    type V = EventView;

    open spec fn view(&self) -> EventView {
        match self {
            Event::BuildSucceeded => EventView::BuildSucceeded,
            Event::BuildFailed(d) => EventView::BuildFailed(d@),
            Event::Executed(r) => EventView::Executed(r@),
        }
    }
}

/// One scenario under way: the scenario, the arguments derived for it, and
/// where it stands.
#[derive(Debug, PartialEq, Eq)]
pub struct ScenarioRun {
    pub test: FullTestFromAI,
    pub inputs: Vec<String>,
    pub stage: Stage,
}

pub struct ScenarioRunView {
    pub test: FullTestView,
    pub inputs: Seq<Seq<char>>,
    pub stage: StageView,
}

impl View for ScenarioRun {
    type V = ScenarioRunView;

    open spec fn view(&self) -> ScenarioRunView {
        ScenarioRunView { test: self.test@, inputs: texts(self.inputs@), stage: self.stage@ }
    }
}

pub open spec fn side_of(test: FullTestView, side: Side) -> ExecutionInfoView {
    match side {
        Side::Legacy => test.legacy_exec,
        Side::New => test.new_exec,
    }
}

/// The stage a scenario starts in: the first build it names, or the execution
/// of the legacy side where it names none.
pub open spec fn first_stage(test: FullTestView) -> StageView {
    if test.legacy_exec.compile_command is Some {
        StageView::Building(Side::Legacy)
    } else if test.new_exec.compile_command is Some {
        StageView::Building(Side::New)
    } else {
        StageView::ExecutingLegacy
    }
}

/// The stage after the build of `side` succeeded.
pub open spec fn stage_after_build(test: FullTestView, side: Side) -> StageView {
    if side == Side::Legacy && test.new_exec.compile_command is Some {
        StageView::Building(Side::New)
    } else {
        StageView::ExecutingLegacy
    }
}

pub open spec fn started(test: FullTestView, inputs: Seq<Seq<char>>) -> ScenarioRunView {
    ScenarioRunView { test, inputs, stage: first_stage(test) }
}

pub open spec fn timeout_of(test: FullTestView) -> u64 {
    match test.timeout {
        Some(t) => t,
        None => DEFAULT_TIMEOUT,
    }
}

/// One side of a scenario ready to run. Both sides get the same arguments.
pub open spec fn invocation_of(test: FullTestView, side: Side, inputs: Seq<Seq<char>>) ->
    ExecutableTestView {
    ExecutableTestView {
        test_case: pending_case(test),
        command: side_of(test, side).execute_command,
        args: escaped_all(inputs),
        working_directory: side_of(test, side).working_directory,
        expected_exit_code: test.expected_exit_code,
        timeout: timeout_of(test),
    }
}

/// The record of a scenario that failed before it could be judged.
pub open spec fn failed_case(test: FullTestView, message: Seq<char>, elapsed: u64) -> TestCaseView {
    TestCaseView {
        status: TestStatus::Failed,
        execution_time: Some(elapsed),
        legacy_output: Some(message),
        new_output: Some(message),
        ..pending_case(test)
    }
}

/// The record of a scenario whose two sides were compared.
pub open spec fn judged_case(test: FullTestView, verdict: ComparisonView, elapsed: u64) ->
    TestCaseView {
    TestCaseView {
        status: if verdict.passed {
            TestStatus::Passed
        } else {
            TestStatus::Failed
        },
        execution_time: Some(elapsed),
        legacy_output: Some(verdict.legacy_final),
        new_output: Some(verdict.new_final),
        comparison_result: Some(verdict.detail),
        ..pending_case(test)
    }
}

pub open spec fn build_failure_text(side: Side, diagnostics: Seq<char>) -> Seq<char> {
    match side {
        Side::Legacy => LEGACY_BUILD_FAILED@ + diagnostics,
        Side::New => NEW_BUILD_FAILED@ + diagnostics,
    }
}

/// The action that is due in a given state.
pub open spec fn action_of(run: ScenarioRunView) -> ActionView {
    match run.stage {
        StageView::Building(side) => ActionView::Build {
            side,
            command: match side_of(run.test, side).compile_command {
                Some(c) => c,
                None => Seq::empty(),
            },
        },
        StageView::ExecutingLegacy => ActionView::Execute {
            side: Side::Legacy,
            invocation: invocation_of(run.test, Side::Legacy, run.inputs),
        },
        StageView::ExecutingNew(_) => ActionView::Execute {
            side: Side::New,
            invocation: invocation_of(run.test, Side::New, run.inputs),
        },
        StageView::Done(c) => ActionView::Finish(c),
    }
}

/// The stage after `event`, which came `elapsed` milliseconds after the
/// scenario began. An event that does not answer the action that was due
/// fails the scenario; a scenario that is over stays as it is.
pub open spec fn next_stage(run: ScenarioRunView, event: EventView, elapsed: u64) -> StageView {
    match run.stage {
        StageView::Building(side) => match event {
            EventView::BuildSucceeded => stage_after_build(run.test, side),
            EventView::BuildFailed(d) => StageView::Done(
                failed_case(run.test, build_failure_text(side, d), elapsed),
            ),
            EventView::Executed(_) => StageView::Done(
                failed_case(run.test, UNEXPECTED_EVENT@, elapsed),
            ),
        },
        StageView::ExecutingLegacy => match event {
            EventView::Executed(r) => StageView::ExecutingNew(r),
            _ => StageView::Done(failed_case(run.test, UNEXPECTED_EVENT@, elapsed)),
        },
        StageView::ExecutingNew(legacy) => match event {
            EventView::Executed(new) => StageView::Done(
                judged_case(run.test, compared(legacy, new, run.test.expected_exit_code), elapsed),
            ),
            _ => StageView::Done(failed_case(run.test, UNEXPECTED_EVENT@, elapsed)),
        },
        StageView::Done(c) => StageView::Done(c),
    }
}

pub open spec fn next(run: ScenarioRunView, event: EventView, elapsed: u64) -> ScenarioRunView {
    ScenarioRunView { stage: next_stage(run, event, elapsed), ..run }
}

/// A build that fails ends the scenario at once as failed, with the record
/// of this scenario and no other; nothing is executed for it.
pub proof fn lemma_failed_build_fails_the_scenario(
    run: ScenarioRunView,
    side: Side,
    diagnostics: Seq<char>,
    elapsed: u64,
)
    requires
        run.stage == StageView::Building(side),
    ensures
        next(run, EventView::BuildFailed(diagnostics), elapsed).stage == StageView::Done(
            failed_case(run.test, build_failure_text(side, diagnostics), elapsed),
        ),
        failed_case(run.test, build_failure_text(side, diagnostics), elapsed).status
            == TestStatus::Failed,
        failed_case(run.test, build_failure_text(side, diagnostics), elapsed).id == run.test.id,
        action_of(next(run, EventView::BuildFailed(diagnostics), elapsed)) is Finish,
{
}

/// A scenario that is over stays over: no event changes its record.
pub proof fn lemma_done_is_final(run: ScenarioRunView, event: EventView, elapsed: u64)
    requires
        run.stage is Done,
    ensures
        next(run, event, elapsed) == run,
{
}

/// A scenario whose one side has a transport error is failed.
pub proof fn lemma_transport_error_fails_the_scenario(
    run: ScenarioRunView,
    legacy: ExecutionResultView,
    new: ExecutionResultView,
    elapsed: u64,
)
    requires
        run.stage == StageView::ExecutingNew(legacy),
        legacy.error is Some || new.error is Some,
    ensures
        next(run, EventView::Executed(new), elapsed).stage matches StageView::Done(c) && c.status
            == TestStatus::Failed,
{
}

fn failed(test: &FullTestFromAI, message: String, elapsed: u64) -> (r: TestCase)
    ensures
        r@ == failed_case(test@, message@, elapsed),
{
    let mut case = TestCase::pending(test);
    case.status = TestStatus::Failed;
    case.execution_time = Some(elapsed);
    case.legacy_output = Some(message.clone());
    case.new_output = Some(message);
    case
}

fn judged(test: &FullTestFromAI, verdict: Comparison, elapsed: u64) -> (r: TestCase)
    ensures
        r@ == judged_case(test@, verdict@, elapsed),
{
    let mut case = TestCase::pending(test);
    case.status = if verdict.passed {
        TestStatus::Passed
    } else {
        TestStatus::Failed
    };
    case.execution_time = Some(elapsed);
    case.legacy_output = Some(verdict.legacy_final);
    case.new_output = Some(verdict.new_final);
    case.comparison_result = Some(verdict.detail);
    case
}

fn invocation(test: &FullTestFromAI, side: Side, inputs: &Vec<String>) -> (r: ExecutableTest)
    ensures
        r@ == invocation_of(test@, side, texts(inputs@)),
{
    let exec: &ExecutionInfo = match side {
        Side::Legacy => &test.legacy_exec,
        Side::New => &test.new_exec,
    };
    ExecutableTest {
        test_case: TestCase::pending(test),
        command: exec.execute_command.clone(),
        args: escape_arguments(inputs),
        working_directory: exec.working_directory.clone(),
        expected_exit_code: test.expected_exit_code,
        timeout: match test.timeout {
            Some(t) => t,
            None => DEFAULT_TIMEOUT,
        },
    }
}

impl ScenarioRun {
    /// A scenario about to begin, with the arguments derived for it.
    pub fn begin(test: FullTestFromAI, inputs: Vec<String>) -> (r: ScenarioRun)
        ensures
            r@ == started(test@, texts(inputs@)),
    {
        let stage = if test.legacy_exec.compile_command.is_some() {
            Stage::Building(Side::Legacy)
        } else if test.new_exec.compile_command.is_some() {
            Stage::Building(Side::New)
        } else {
            Stage::ExecutingLegacy
        };
        ScenarioRun { test, inputs, stage }
    }

    /// A scenario about to begin, its arguments derived from its text.
    pub fn start(test: FullTestFromAI) -> (r: ScenarioRun)
        ensures
            r@ == started(test@, extracted_inputs(test@.full_code)),
    {
        let inputs = extract_test_inputs(test.full_code.as_str());
        Self::begin(test, inputs)
    }

    /// The action that is due.
    pub fn action(&self) -> (r: Action)
        ensures
            r@ == action_of(self@),
    {
        match &self.stage {
            Stage::Building(side) => {
                let exec: &ExecutionInfo = match side {
                    Side::Legacy => &self.test.legacy_exec,
                    Side::New => &self.test.new_exec,
                };
                let command = match &exec.compile_command {
                    Some(c) => c.clone(),
                    None => String::new(),
                };
                Action::Build { side: *side, command }
            },
            Stage::ExecutingLegacy => Action::Execute {
                side: Side::Legacy,
                invocation: invocation(&self.test, Side::Legacy, &self.inputs),
            },
            Stage::ExecutingNew(_) => Action::Execute {
                side: Side::New,
                invocation: invocation(&self.test, Side::New, &self.inputs),
            },
            Stage::Done(c) => Action::Finish(c.clone()),
        }
    }

    /// The state after `event`, which came `elapsed_millis` after the
    /// scenario began.
    pub fn advance(self, event: Event, elapsed_millis: u64) -> (r: ScenarioRun)
        ensures
            r@ == next(self@, event@, elapsed_millis),
    {
        let ScenarioRun { test, inputs, stage } = self;
        let stage = match stage {
            Stage::Building(side) => match event {
                Event::BuildSucceeded => match side {
                    Side::Legacy => if test.new_exec.compile_command.is_some() {
                        Stage::Building(Side::New)
                    } else {
                        Stage::ExecutingLegacy
                    },
                    Side::New => Stage::ExecutingLegacy,
                },
                Event::BuildFailed(d) => {
                    let message = match side {
                        Side::Legacy => glue(LEGACY_BUILD_FAILED, d.as_str()),
                        Side::New => glue(NEW_BUILD_FAILED, d.as_str()),
                    };
                    Stage::Done(failed(&test, message, elapsed_millis))
                },
                Event::Executed(_) => Stage::Done(
                    failed(&test, UNEXPECTED_EVENT.to_owned(), elapsed_millis),
                ),
            },
            Stage::ExecutingLegacy => match event {
                Event::Executed(r) => Stage::ExecutingNew(r),
                _ => Stage::Done(failed(&test, UNEXPECTED_EVENT.to_owned(), elapsed_millis)),
            },
            Stage::ExecutingNew(legacy) => match event {
                Event::Executed(new) => {
                    let verdict = compare(&legacy, &new, test.expected_exit_code);
                    Stage::Done(judged(&test, verdict, elapsed_millis))
                },
                _ => Stage::Done(failed(&test, UNEXPECTED_EVENT.to_owned(), elapsed_millis)),
            },
            Stage::Done(c) => Stage::Done(c),
        };
        ScenarioRun { test, inputs, stage }
    }

    /// The status of the scenario: running until it is over.
    pub fn status(&self) -> (r: TestStatus)
        ensures
            r == match self@.stage {
                StageView::Done(c) => c.status,
                _ => TestStatus::Running,
            },
    {
        match &self.stage {
            Stage::Done(c) => c.status,
            _ => TestStatus::Running,
        }
    }
}

/// How many of the records have the given status.
pub open spec fn count_status(cases: Seq<TestCaseView>, status: TestStatus) -> nat
    decreases cases.len(),
{
    if cases.len() == 0 {
        0
    } else if cases.last().status == status {
        count_status(cases.drop_last(), status) + 1
    } else {
        count_status(cases.drop_last(), status)
    }
}

/// The tally of a suite.
#[derive(Clone, Copy, Debug, PartialEq, Eq, Structural)]
pub struct Summary {
    pub total: usize,
    pub passed: usize,
    pub failed: usize,
}

/// The tally of the records of a suite.
pub fn summarize(outcomes: &Vec<TestCase>) -> (r: Summary)
    ensures
        r.total == outcomes@.len(),
        r.passed == count_status(case_views(outcomes@), TestStatus::Passed),
        r.failed == count_status(case_views(outcomes@), TestStatus::Failed),
{
    let mut passed: usize = 0;
    let mut failed: usize = 0;
    let mut i: usize = 0;
    while i < outcomes.len()
        invariant
            i <= outcomes.len(),
            passed == count_status(case_views(outcomes@).take(i as int), TestStatus::Passed),
            failed == count_status(case_views(outcomes@).take(i as int), TestStatus::Failed),
            passed <= i,
            failed <= i,
        decreases outcomes.len() - i,
    {
        proof {
            let next = case_views(outcomes@).take(i + 1);
            assert(next.drop_last() =~= case_views(outcomes@).take(i as int));
            assert(next.last() == outcomes@[i as int]@);
        }
        match outcomes[i].status {
            TestStatus::Passed => {
                passed += 1;
            },
            TestStatus::Failed => {
                failed += 1;
            },
            _ => {},
        }
        i += 1;
    }
    assert(case_views(outcomes@).take(outcomes@.len() as int) =~= case_views(outcomes@));
    Summary { total: outcomes.len(), passed, failed }
}

/// The first position at or after `from` of a record with the given id, or
/// the length of `cases` where there is none.
pub open spec fn record_position(cases: Seq<TestCaseView>, id: Seq<char>, from: int) -> int
    decreases cases.len() - from,
{
    if 0 <= from < cases.len() && cases[from].id != id {
        record_position(cases, id, from + 1)
    } else {
        from
    }
}

/// The records with `outcome` among them: in the place of the first record
/// of the same scenario, or at the end where the scenario has none yet.
pub open spec fn recorded(cases: Seq<TestCaseView>, outcome: TestCaseView) -> Seq<TestCaseView> {
    let at = record_position(cases, outcome.id, 0);
    if at < cases.len() {
        cases.update(at, outcome)
    } else {
        cases.push(outcome)
    }
}

/// Records the outcome of a scenario. It takes the place of an earlier
/// outcome of the same scenario; outcomes are not merged.
pub fn record_outcome(outcomes: &mut Vec<TestCase>, outcome: TestCase)
    ensures
        case_views(final(outcomes)@) == recorded(case_views(old(outcomes)@), outcome@),
{
    let ghost before = case_views(outcomes@);
    let mut at: usize = 0;
    while at < outcomes.len()
        invariant
            at <= outcomes.len(),
            outcomes@ == old(outcomes)@,
            before == case_views(outcomes@),
            record_position(before, outcome@.id, at as int) == record_position(
                before,
                outcome@.id,
                0,
            ),
        decreases outcomes.len() - at,
    {
        if same_text(outcomes[at].id.as_str(), outcome.id.as_str()) {
            outcomes.push(outcome);
            let _ = outcomes.swap_remove(at);
            assert(case_views(outcomes@) =~= before.update(at as int, outcome@));
            return ;
        }
        at += 1;
    }
    outcomes.push(outcome);
    assert(case_views(outcomes@) =~= before.push(outcome@));
}

/// A suite under way: the scenario that is running, the scenarios still to
/// come, in order, and the outcomes so far.
#[derive(Debug, PartialEq, Eq)]
pub struct Suite {
    pub current: Option<ScenarioRun>,
    pub remaining: Vec<FullTestFromAI>,
    pub outcomes: Vec<TestCase>,
}

pub struct SuiteView {
    pub current: Option<ScenarioRunView>,
    pub remaining: Seq<FullTestView>,
    pub outcomes: Seq<TestCaseView>,
}

impl View for Suite {
    type V = SuiteView;

    open spec fn view(&self) -> SuiteView {
        SuiteView {
            current: match self.current {
                Some(run) => Some(run@),
                None => None,
            },
            remaining: test_views(self.remaining@),
            outcomes: case_views(self.outcomes@),
        }
    }
}

impl SuiteView {
    /// The scenario that is running is not over: a scenario that is over
    /// has made room for the next one.
    pub open spec fn well_formed(self) -> bool {
        match self.current {
            Some(run) => !(run.stage is Done),
            None => self.remaining.len() == 0,
        }
    }
}

/// The scenario to run once the one before it is over: the first of those
/// still to come, begun with the arguments derived from its text.
pub open spec fn following(remaining: Seq<FullTestView>) -> Option<ScenarioRunView> {
    if remaining.len() > 0 {
        Some(started(remaining[0], extracted_inputs(remaining[0].full_code)))
    } else {
        None
    }
}

/// A suite about to begin, with its first scenario running.
pub open spec fn opened(tests: Seq<FullTestView>) -> SuiteView {
    SuiteView {
        current: following(tests),
        remaining: tests.drop_first(),
        outcomes: Seq::empty(),
    }
}

/// The suite after `event` came for the scenario that is running. Where the
/// event ends the scenario, its outcome is recorded and the next scenario
/// begins, however the scenario ended.
pub open spec fn suite_next(suite: SuiteView, event: EventView, elapsed: u64) -> SuiteView {
    match suite.current {
        Some(run) => match next(run, event, elapsed).stage {
            StageView::Done(outcome) => SuiteView {
                current: following(suite.remaining),
                remaining: if suite.remaining.len() > 0 {
                    suite.remaining.drop_first()
                } else {
                    suite.remaining
                },
                outcomes: recorded(suite.outcomes, outcome),
            },
            _ => SuiteView { current: Some(next(run, event, elapsed)), ..suite },
        },
        None => suite,
    }
}

pub open spec fn option_action(action: Option<Action>) -> Option<ActionView> {
    match action {
        Some(a) => Some(a@),
        None => None,
    }
}

/// A suite does not stop at a failed build: the scenario gets its failed
/// outcome, and the next scenario, if there is one, begins.
pub proof fn lemma_suite_goes_on_after_a_failed_build(
    suite: SuiteView,
    side: Side,
    diagnostics: Seq<char>,
    elapsed: u64,
)
    requires
        suite.current matches Some(run) && run.stage == StageView::Building(side),
    ensures
        suite_next(suite, EventView::BuildFailed(diagnostics), elapsed).outcomes == recorded(
            suite.outcomes,
            failed_case(suite.current->0.test, build_failure_text(side, diagnostics), elapsed),
        ),
        suite_next(suite, EventView::BuildFailed(diagnostics), elapsed).current == following(
            suite.remaining,
        ),
        suite.remaining.len() > 0 ==> suite_next(
            suite,
            EventView::BuildFailed(diagnostics),
            elapsed,
        ).current is Some,
{
}

/// Every step keeps a suite well formed.
pub proof fn lemma_suite_stays_well_formed(suite: SuiteView, event: EventView, elapsed: u64)
    requires
        suite.well_formed(),
    ensures
        suite_next(suite, event, elapsed).well_formed(),
{
}

impl Suite {
    fn following(remaining: &mut Vec<FullTestFromAI>) -> (r: Option<ScenarioRun>)
        ensures
            match r {
                Some(run) => following(test_views(old(remaining)@)) == Some(run@) && test_views(
                    final(remaining)@,
                ) == test_views(old(remaining)@).drop_first(),
                None => following(test_views(old(remaining)@)) is None && final(remaining)@ == old(
                    remaining,
                )@,
            },
    {
        if remaining.len() > 0 {
            let ghost before = test_views(remaining@);
            let test = remaining.remove(0);
            assert(test_views(remaining@) =~= before.drop_first());
            assert(test@ == before[0]);
            Some(ScenarioRun::start(test))
        } else {
            None
        }
    }

    /// A suite about to begin. A suite without a scenario cannot run.
    pub fn open(tests: Vec<FullTestFromAI>) -> (r: Result<Suite, EmptySuiteError>)
        ensures
            match r {
                Ok(suite) => tests@.len() > 0 && suite@ == opened(test_views(tests@))
                    && suite@.well_formed(),
                Err(_) => tests@.len() == 0,
            },
    {
        let mut remaining = tests;
        match Self::following(&mut remaining) {
            Some(run) => {
                let outcomes: Vec<TestCase> = Vec::new();
                assert(case_views(outcomes@) =~= Seq::empty());
                Ok(Suite { current: Some(run), remaining, outcomes })
            },
            None => Err(EmptySuiteError),
        }
    }

    /// The action that is due, or nothing where the suite is over.
    pub fn action(&self) -> (r: Option<Action>)
        ensures
            option_action(r) == match self@.current {
                Some(run) => Some(action_of(run)),
                None => None,
            },
    {
        match &self.current {
            Some(run) => Some(run.action()),
            None => None,
        }
    }

    /// The suite after `event`, which came `elapsed_millis` after the
    /// scenario that is running began.
    pub fn advance(self, event: Event, elapsed_millis: u64) -> (r: Suite)
        ensures
            r@ == suite_next(self@, event@, elapsed_millis),
            self@.well_formed() ==> r@.well_formed(),
    {
        let Suite { current, remaining, outcomes } = self;
        match current {
            Some(run) => {
                let ScenarioRun { test, inputs, stage } = run.advance(event, elapsed_millis);
                match stage {
                    Stage::Done(outcome) => {
                        let mut remaining = remaining;
                        let mut outcomes = outcomes;
                        record_outcome(&mut outcomes, outcome);
                        let current = Self::following(&mut remaining);
                        Suite { current, remaining, outcomes }
                    },
                    stage => Suite {
                        current: Some(ScenarioRun { test, inputs, stage }),
                        remaining,
                        outcomes,
                    },
                }
            },
            None => Suite { current: None, remaining, outcomes },
        }
    }

    /// Whether every scenario has its outcome.
    pub fn is_over(&self) -> (r: bool)
        ensures
            r == (self@.current is None),
    {
        self.current.is_none()
    }

    /// The tally of the outcomes so far.
    pub fn summary(&self) -> (r: Summary)
        ensures
            r.total == self@.outcomes.len(),
            r.passed == count_status(self@.outcomes, TestStatus::Passed),
            r.failed == count_status(self@.outcomes, TestStatus::Failed),
    {
        summarize(&self.outcomes)
    }
}

} // verus!
