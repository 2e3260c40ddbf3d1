//! Reading the scenarios out of the answer of a test generator.
//!
//! The answer is a chat completion whose first choice carries, as text, a
//! JSON document with a member `tests`. Each element of `tests` that has the
//! shape of a scenario is taken; an element that has not is rejected and
//! named, and the others proceed.

use crate::errors::{ParseError, ParseErrorView};
use crate::harness::DEFAULT_TIMEOUT;
use crate::json::{as_text, element, json_document, member, parse_json, JsonModel, JsonValue};
use crate::text::{glue, decimal, decimal_digits, option_text, string_of};
use crate::types::{
    test_views, ExecutionInfo, ExecutionInfoView, FullTestFromAI, FullTestView,
};
use vstd::prelude::*;

verus! {

/// What stands before the position of a scenario in the id made up for it.
pub const ID_PREFIX: &'static str = "test-";

/// The text of a member that has to be a string.
pub open spec fn required_text(value: JsonModel, key: Seq<char>) -> Option<Seq<char>> {
    match member(value, key) {
        Some(JsonModel::Text(t)) => Some(t),
        _ => None,
    }
}

/// The text of a member that may be missing or null; nothing at all where
/// the member is there and is no string.
pub open spec fn optional_text(value: JsonModel, key: Seq<char>) -> Option<Option<Seq<char>>> {
    match member(value, key) {
        None => Some(None),
        Some(JsonModel::Null) => Some(None),
        Some(JsonModel::Text(t)) => Some(Some(t)),
        _ => None,
    }
}

/// The exit code in a member that has to be an integer of 32 bits.
pub open spec fn required_code(value: JsonModel, key: Seq<char>) -> Option<i32> {
    match member(value, key) {
        Some(JsonModel::Integer(n)) => if i32::MIN <= n <= i32::MAX {
            Some(n as i32)
        } else {
            None
        },
        _ => None,
    }
}

/// The limit in a member that may be missing or null; nothing at all where
/// the member is there and is no integer from 0 to the largest of 64 bits.
pub open spec fn optional_limit(value: JsonModel, key: Seq<char>) -> Option<Option<u64>> {
    match member(value, key) {
        None => Some(None),
        Some(JsonModel::Null) => Some(None),
        Some(JsonModel::Integer(n)) => if 0 <= n <= u64::MAX {
            Some(Some(n as u64))
        } else {
            None
        },
        _ => None,
    }
}

/// How one side is built and run, where the value has that shape.
pub open spec fn execution_info_of(value: JsonModel) -> Option<ExecutionInfoView> {
    if required_text(value, "type"@) is Some && required_text(value, "sourceFile"@) is Some
        && optional_text(value, "compileCommand"@) is Some && required_text(
        value,
        "executeCommand"@,
    ) is Some && required_text(value, "workingDirectory"@) is Some {
        Some(
            ExecutionInfoView {
                exec_type: required_text(value, "type"@)->0,
                source_file: required_text(value, "sourceFile"@)->0,
                compile_command: optional_text(value, "compileCommand"@)->0,
                execute_command: required_text(value, "executeCommand"@)->0,
                working_directory: required_text(value, "workingDirectory"@)->0,
            },
        )
    } else {
        None
    }
}

pub open spec fn side_info(value: JsonModel, key: Seq<char>) -> Option<ExecutionInfoView> {
    match member(value, key) {
        Some(side) => execution_info_of(side),
        None => None,
    }
}

/// The scenario that a value holds, where it has the shape of one.
pub open spec fn scenario_of(value: JsonModel) -> Option<FullTestView> {
    if required_text(value, "id"@) is Some && required_text(value, "name"@) is Some
        && required_text(value, "description"@) is Some && required_text(value, "fullCode"@)
        is Some && required_code(value, "expectedExitCode"@) is Some && optional_limit(
        value,
        "timeout"@,
    ) is Some && side_info(value, "legacyExec"@) is Some && side_info(value, "newExec"@) is Some {
        Some(
            FullTestView {
                id: required_text(value, "id"@)->0,
                name: required_text(value, "name"@)->0,
                description: required_text(value, "description"@)->0,
                full_code: required_text(value, "fullCode"@)->0,
                expected_exit_code: required_code(value, "expectedExitCode"@)->0,
                timeout: optional_limit(value, "timeout"@)->0,
                legacy_exec: side_info(value, "legacyExec"@)->0,
                new_exec: side_info(value, "newExec"@)->0,
            },
        )
    } else {
        None
    }
}

/// A scenario with what it left open filled in: an empty id becomes `test-`
/// and its place in the list, counted from 1, and a missing limit becomes
/// the default one.
pub open spec fn completed(test: FullTestView, index: nat) -> FullTestView {
    FullTestView {
        id: if test.id.len() == 0 {
            ID_PREFIX@ + decimal(index + 1)
        } else {
            test.id
        },
        timeout: match test.timeout {
            Some(t) => Some(t),
            None => Some(DEFAULT_TIMEOUT),
        },
        ..test
    }
}

/// The scenarios among `items`, completed, in order.
pub open spec fn accepted(items: Seq<JsonModel>) -> Seq<FullTestView>
    decreases items.len(),
{
    if items.len() == 0 {
        Seq::empty()
    } else {
        match scenario_of(items.last()) {
            Some(test) => accepted(items.drop_last()).push(
                completed(test, (items.len() - 1) as nat),
            ),
            None => accepted(items.drop_last()),
        }
    }
}

/// The positions among `items` of what is no scenario, in order.
pub open spec fn rejected(items: Seq<JsonModel>) -> Seq<int>
    decreases items.len(),
{
    if items.len() == 0 {
        Seq::empty()
    } else {
        match scenario_of(items.last()) {
            Some(_) => rejected(items.drop_last()),
            None => rejected(items.drop_last()).push(items.len() - 1),
        }
    }
}

/// The scenarios read from an answer, and the positions of the elements that
/// were rejected.
#[derive(Debug, PartialEq, Eq)]
pub struct ParsedSuite {
    pub tests: Vec<FullTestFromAI>,
    pub rejected: Vec<usize>,
}

pub struct ParsedSuiteView {
    pub tests: Seq<FullTestView>,
    pub rejected: Seq<int>,
}

impl View for ParsedSuite {
    type V = ParsedSuiteView;

    open spec fn view(&self) -> ParsedSuiteView {
        ParsedSuiteView {
            tests: test_views(self.tests@),
            rejected: Seq::new(self.rejected@.len(), |i: int| self.rejected@[i] as int),
        }
    }
}

impl ParsedSuite {
    /// The error that tells of one rejected element.
    pub fn rejection(&self, which: usize) -> (r: Option<ParseError>)
        ensures
            match r {
                Some(e) => which < self.rejected@.len() && e@ == ParseErrorView::InvalidTest(
                    self.rejected@[which as int],
                ),
                None => which >= self.rejected@.len(),
            },
    {
        if which < self.rejected.len() {
            Some(ParseError::InvalidTest(self.rejected[which]))
        } else {
            None
        }
    }
}

/// What a payload gives: the scenarios of its member `tests`, or why there
/// are none.
pub open spec fn suite_of_payload(payload: JsonModel) -> Result<ParsedSuiteView, ParseErrorView> {
    match member(payload, "tests"@) {
        None => Err(ParseErrorView::MissingTests),
        Some(JsonModel::Array(items)) => if accepted(items).len() == 0 {
            Err(ParseErrorView::NoValidTest)
        } else {
            Ok(ParsedSuiteView { tests: accepted(items), rejected: rejected(items) })
        },
        Some(_) => Err(ParseErrorView::TestsNotArray),
    }
}

/// The text that the first choice of a chat completion carries.
pub open spec fn content_of(response: JsonModel) -> Option<Seq<char>> {
    match member(response, "choices"@) {
        Some(choices) => match element(choices, 0) {
            Some(choice) => match member(choice, "message"@) {
                Some(message) => match member(message, "content"@) {
                    Some(content) => as_text(content),
                    None => None,
                },
                None => None,
            },
            None => None,
        },
        None => None,
    }
}

/// What the content of an answer gives.
pub open spec fn suite_of_content(content: Seq<char>) -> Result<ParsedSuiteView, ParseErrorView> {
    match json_document(content) {
        Ok(payload) => suite_of_payload(payload),
        Err(reason) => Err(ParseErrorView::InvalidJson { reason }),
    }
}

/// What the body of an answer gives.
pub open spec fn suite_of_response(body: Seq<char>) -> Result<ParsedSuiteView, ParseErrorView> {
    match json_document(body) {
        Ok(response) => match content_of(response) {
            Some(content) => suite_of_content(content),
            None => Err(ParseErrorView::InvalidResponse),
        },
        Err(_) => Err(ParseErrorView::InvalidResponse),
    }
}

pub open spec fn suite_view(r: Result<ParsedSuite, ParseError>) -> Result<
    ParsedSuiteView,
    ParseErrorView,
> {
    match r {
        Ok(s) => Ok(s@),
        Err(e) => Err(e@),
    }
}

fn text_member(value: &JsonValue, key: &str) -> (r: Option<String>)
    ensures
        option_text(r) == required_text(value@, key@),
{
    match value.get(key) {
        Some(JsonValue::Text(t)) => Some(t.clone()),
        _ => None,
    }
}

fn optional_text_member(value: &JsonValue, key: &str) -> (r: Option<Option<String>>)
    ensures
        match r {
            Some(t) => optional_text(value@, key@) == Some(option_text(t)),
            None => optional_text(value@, key@) is None,
        },
{
    match value.get(key) {
        None => Some(None),
        Some(JsonValue::Null) => Some(None),
        Some(JsonValue::Text(t)) => Some(Some(t.clone())),
        _ => None,
    }
}

fn code_member(value: &JsonValue, key: &str) -> (r: Option<i32>)
    ensures
        r == required_code(value@, key@),
{
    match value.get(key) {
        Some(JsonValue::Integer(n)) => if -0x8000_0000 <= *n && *n <= 0x7fff_ffff {
            Some(*n as i32)
        } else {
            None
        },
        _ => None,
    }
}

fn limit_member(value: &JsonValue, key: &str) -> (r: Option<Option<u64>>)
    ensures
        r == optional_limit(value@, key@),
{
    match value.get(key) {
        None => Some(None),
        Some(JsonValue::Null) => Some(None),
        Some(JsonValue::Integer(n)) => if 0 <= *n && *n <= 0xffff_ffff_ffff_ffff {
            Some(Some(*n as u64))
        } else {
            None
        },
        _ => None,
    }
}

/// How one side is built and run, read from a value.
pub fn execution_info(value: &JsonValue) -> (r: Option<ExecutionInfo>)
    ensures
        match r {
            Some(info) => execution_info_of(value@) == Some(info@),
            None => execution_info_of(value@) is None,
        },
{
    let exec_type = match text_member(value, "type") {
        Some(t) => t,
        None => {
            return None;
        },
    };
    let source_file = match text_member(value, "sourceFile") {
        Some(t) => t,
        None => {
            return None;
        },
    };
    let compile_command = match optional_text_member(value, "compileCommand") {
        Some(t) => t,
        None => {
            return None;
        },
    };
    let execute_command = match text_member(value, "executeCommand") {
        Some(t) => t,
        None => {
            return None;
        },
    };
    let working_directory = match text_member(value, "workingDirectory") {
        Some(t) => t,
        None => {
            return None;
        },
    };
    Some(
        ExecutionInfo { exec_type, source_file, compile_command, execute_command, working_directory },
    )
}

fn side_member(value: &JsonValue, key: &str) -> (r: Option<ExecutionInfo>)
    ensures
        match r {
            Some(info) => side_info(value@, key@) == Some(info@),
            None => side_info(value@, key@) is None,
        },
{
    match value.get(key) {
        Some(side) => execution_info(side),
        None => None,
    }
}

/// The scenario that a value holds, as it stands there.
pub fn scenario(value: &JsonValue) -> (r: Option<FullTestFromAI>)
    ensures
        match r {
            Some(test) => scenario_of(value@) == Some(test@),
            None => scenario_of(value@) is None,
        },
{
    let id = match text_member(value, "id") {
        Some(t) => t,
        None => {
            return None;
        },
    };
    let name = match text_member(value, "name") {
        Some(t) => t,
        None => {
            return None;
        },
    };
    let description = match text_member(value, "description") {
        Some(t) => t,
        None => {
            return None;
        },
    };
    let full_code = match text_member(value, "fullCode") {
        Some(t) => t,
        None => {
            return None;
        },
    };
    let expected_exit_code = match code_member(value, "expectedExitCode") {
        Some(c) => c,
        None => {
            return None;
        },
    };
    let timeout = match limit_member(value, "timeout") {
        Some(t) => t,
        None => {
            return None;
        },
    };
    let legacy_exec = match side_member(value, "legacyExec") {
        Some(e) => e,
        None => {
            return None;
        },
    };
    let new_exec = match side_member(value, "newExec") {
        Some(e) => e,
        None => {
            return None;
        },
    };
    Some(
        FullTestFromAI {
            id,
            name,
            description,
            full_code,
            expected_exit_code,
            timeout,
            legacy_exec,
            new_exec,
        },
    )
}

/// Fills in what a scenario left open, for the scenario at position `index`
/// of its list.
pub fn complete(test: FullTestFromAI, index: usize) -> (r: FullTestFromAI)
    requires
        index < usize::MAX,
    ensures
        r@ == completed(test@, index as nat),
{
    let mut test = test;
    if test.id.as_str().unicode_len() == 0 {
        let digits = string_of(&decimal_digits(index + 1));
        test.id = glue(ID_PREFIX, digits.as_str());
    }
    if test.timeout.is_none() {
        test.timeout = Some(DEFAULT_TIMEOUT);
    }
    test
}

/// The scenarios of a payload.
pub fn scenarios_from_payload(payload: &JsonValue) -> (r: Result<ParsedSuite, ParseError>)
    ensures
        suite_view(r) == suite_of_payload(payload@),
{
    let items = match payload.get("tests") {
        None => {
            return Err(ParseError::MissingTests);
        },
        Some(JsonValue::Array(items)) => items,
        Some(_) => {
            return Err(ParseError::TestsNotArray);
        },
    };
    let ghost models = payload.get_tests_model();
    let mut tests: Vec<FullTestFromAI> = Vec::new();
    let mut refused: Vec<usize> = Vec::new();
    let mut i: usize = 0;
    while i < items.len()
        invariant
            i <= items.len(),
            models.len() == items@.len(),
            forall|j: int| 0 <= j < models.len() ==> #[trigger] models[j] == items@[j].model(),
            test_views(tests@) == accepted(models.take(i as int)),
            Seq::new(refused@.len(), |k: int| refused@[k] as int) == rejected(
                models.take(i as int),
            ),
        decreases items.len() - i,
    {
        proof {
            let next = models.take(i + 1);
            assert(next.drop_last() =~= models.take(i as int));
            assert(next.last() == items@[i as int].model());
        }
        match scenario(&items[i]) {
            Some(test) => {
                let ghost before = test_views(tests@);
                let done = complete(test, i);
                tests.push(done);
                assert(test_views(tests@) =~= before.push(done@));
            },
            None => {
                let ghost before = Seq::new(refused@.len(), |k: int| refused@[k] as int);
                refused.push(i);
                assert(Seq::new(refused@.len(), |k: int| refused@[k] as int) =~= before.push(
                    i as int,
                ));
            },
        }
        i += 1;
    }
    assert(models.take(models.len() as int) =~= models);
    if tests.len() == 0 {
        Err(ParseError::NoValidTest)
    } else {
        Ok(ParsedSuite { tests, rejected: refused })
    }
}

impl JsonValue {
    /// The elements of the member `tests`, where it is an array.
    pub open spec fn get_tests_model(&self) -> Seq<JsonModel> {
        match member(self@, "tests"@) {
            Some(JsonModel::Array(items)) => items,
            _ => Seq::empty(),
        }
    }
}

/// The text that the first choice of a chat completion carries.
pub fn response_content(response: &JsonValue) -> (r: Option<String>)
    ensures
        option_text(r) == content_of(response@),
{
    let choices = match response.get("choices") {
        Some(v) => v,
        None => {
            return None;
        },
    };
    let choice = match choices.at(0) {
        Some(v) => v,
        None => {
            return None;
        },
    };
    let message = match choice.get("message") {
        Some(v) => v,
        None => {
            return None;
        },
    };
    match message.get("content") {
        Some(JsonValue::Text(t)) => Some(t.clone()),
        _ => None,
    }
}

/// The scenarios in the content of an answer.
pub fn scenarios_from_content(content: &str) -> (r: Result<ParsedSuite, ParseError>)
    ensures
        suite_view(r) == suite_of_content(content@),
{
    match parse_json(content) {
        Ok(payload) => scenarios_from_payload(&payload),
        Err(reason) => Err(ParseError::InvalidJson { reason }),
    }
}

/// The scenarios in the body of the answer of a test generator.
pub fn extract_full_tests_from_response(body: &str) -> (r: Result<ParsedSuite, ParseError>)
    ensures
        suite_view(r) == suite_of_response(body@),
{
    let response = match parse_json(body) {
        Ok(v) => v,
        Err(_) => {
            return Err(ParseError::InvalidResponse);
        },
    };
    match response_content(&response) {
        Some(content) => scenarios_from_content(content.as_str()),
        None => Err(ParseError::InvalidResponse),
    }
}

} // verus!
