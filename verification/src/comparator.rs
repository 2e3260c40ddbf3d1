//! Deciding whether two executions show the same behaviour.
//!
//! Each side is judged by its final output: what it wrote to standard output,
//! or to standard error where standard output holds nothing but white space.
//! Two sides agree when their final outputs are equal once trimmed, or when
//! both are usage messages. Exit codes are reported and decide nothing.

use crate::engine::{ExecutionResult, ExecutionResultView};
use crate::text::{
    all_white_space, chars_of, glue, contains, contains_text, is_blank,
    lemma_trim_ignores_trailing_space, same, texts, trim, trimmed,
};
use crate::types::{ComparisonResult, ComparisonResultView};
use vstd::prelude::*;

verus! {

/// The word that opens a usage message.
pub const USAGE_MARKER: &'static str = "Uso:";

/// The placeholder that every usage message holds.
pub const OPERAND_MARKER: &'static str = "<numero1>";

/// What stands before the message of a transport error in an outcome.
pub const ERROR_PREFIX: &'static str = "Erro: ";

pub const OUTPUTS_DIFFER: &'static str = "As saídas diferem";

pub const EXIT_CODES_DIFFER: &'static str = "Os códigos de saída diferem";

pub const LEGACY_EXIT_UNEXPECTED: &'static str = "O código de saída do legado não é o esperado";

pub const NEW_EXIT_UNEXPECTED: &'static str = "O código de saída do novo não é o esperado";

/// The output by which one side is judged.
pub open spec fn final_text(stdout: Seq<char>, stderr: Seq<char>) -> Seq<char> {
    if trimmed(stdout).len() > 0 {
        stdout
    } else {
        stderr
    }
}

pub open spec fn is_usage_message(output: Seq<char>) -> bool {
    contains_text(output, USAGE_MARKER@) && contains_text(output, OPERAND_MARKER@)
}

/// Whether two final outputs are equal once trimmed.
pub open spec fn same_output(legacy: Seq<char>, new: Seq<char>) -> bool {
    trimmed(legacy) == trimmed(new)
}

/// Whether two final outputs show the same behaviour.
pub open spec fn equivalent(legacy: Seq<char>, new: Seq<char>) -> bool {
    same_output(legacy, new) || (is_usage_message(legacy) && is_usage_message(new))
}

/// The new side's running time less the legacy side's, where it fits.
pub open spec fn time_difference(legacy: u64, new: u64) -> Option<i64> {
    if i64::MIN <= new - legacy <= i64::MAX {
        Some((new - legacy) as i64)
    } else {
        None
    }
}

/// What is to be said of two executions that both ran, in this order: that
/// the outputs differ, that the exit codes differ, that the legacy exit code
/// is not the expected one, and the same of the new one.
pub open spec fn differences_of(
    legacy: ExecutionResultView,
    new: ExecutionResultView,
    expected: i32,
) -> Seq<Seq<char>> {
    let outputs = if same_output(
        final_text(legacy.stdout, legacy.stderr),
        final_text(new.stdout, new.stderr),
    ) {
        Seq::<Seq<char>>::empty()
    } else {
        seq![OUTPUTS_DIFFER@]
    };
    let codes = if legacy.exit_code == new.exit_code {
        outputs
    } else {
        outputs.push(EXIT_CODES_DIFFER@)
    };
    let old_side = if legacy.exit_code == Some(expected) {
        codes
    } else {
        codes.push(LEGACY_EXIT_UNEXPECTED@)
    };
    if new.exit_code == Some(expected) {
        old_side
    } else {
        old_side.push(NEW_EXIT_UNEXPECTED@)
    }
}

/// The verdict on one scenario with the evidence for it.
#[derive(Debug, PartialEq, Eq)]
pub struct Comparison {
    pub passed: bool,
    pub legacy_final: String,
    pub new_final: String,
    pub detail: ComparisonResult,
}

pub struct ComparisonView {
    pub passed: bool,
    pub legacy_final: Seq<char>,
    pub new_final: Seq<char>,
    pub detail: ComparisonResultView,
}

impl View for Comparison {
    type V = ComparisonView;

    open spec fn view(&self) -> ComparisonView {
        ComparisonView {
            passed: self.passed,
            legacy_final: self.legacy_final@,
            new_final: self.new_final@,
            detail: self.detail@,
        }
    }
}

/// The verdict where one side has a transport error: failed, with the error
/// as the final output of both sides.
pub open spec fn transport_verdict(message: Seq<char>) -> ComparisonView {
    ComparisonView {
        passed: false,
        legacy_final: ERROR_PREFIX@ + message,
        new_final: ERROR_PREFIX@ + message,
        detail: ComparisonResultView {
            outputs_match: false,
            exit_codes_match: false,
            performance_diff: None,
            differences: seq![ERROR_PREFIX@ + message],
        },
    }
}

/// The verdict on two executions. A transport error on the legacy side comes
/// before one on the new side.
pub open spec fn compared(
    legacy: ExecutionResultView,
    new: ExecutionResultView,
    expected: i32,
) -> ComparisonView {
    if legacy.error is Some {
        transport_verdict(legacy.error->0)
    } else if new.error is Some {
        transport_verdict(new.error->0)
    } else {
        let legacy_final = final_text(legacy.stdout, legacy.stderr);
        let new_final = final_text(new.stdout, new.stderr);
        ComparisonView {
            passed: equivalent(legacy_final, new_final),
            legacy_final,
            new_final,
            detail: ComparisonResultView {
                outputs_match: same_output(legacy_final, new_final),
                exit_codes_match: legacy.exit_code == new.exit_code,
                performance_diff: time_difference(legacy.elapsed_millis, new.elapsed_millis),
                differences: differences_of(legacy, new, expected),
            },
        }
    }
}

/// Two final outputs that differ in nothing but the white space after them
/// show the same behaviour.
pub proof fn lemma_trailing_white_space_is_ignored(
    output: Seq<char>,
    legacy_tail: Seq<char>,
    new_tail: Seq<char>,
)
    requires
        all_white_space(legacy_tail),
        all_white_space(new_tail),
    ensures
        same_output(output + legacy_tail, output + new_tail),
        equivalent(output + legacy_tail, output + new_tail),
{
    lemma_trim_ignores_trailing_space(output, legacy_tail);
    lemma_trim_ignores_trailing_space(output, new_tail);
}

/// Two executions without transport error pass whenever their final outputs
/// are equal once trimmed, whatever their exit codes.
pub proof fn lemma_equal_outputs_pass(
    legacy: ExecutionResultView,
    new: ExecutionResultView,
    expected: i32,
)
    requires
        legacy.error is None,
        new.error is None,
        same_output(final_text(legacy.stdout, legacy.stderr), final_text(new.stdout, new.stderr)),
    ensures
        compared(legacy, new, expected).passed,
{
}

/// The output by which a side is judged.
pub fn final_output(stdout: &str, stderr: &str) -> (r: String)
    ensures
        r@ == final_text(stdout@, stderr@),
{
    if is_blank(&chars_of(stdout)) {
        stderr.to_owned()
    } else {
        stdout.to_owned()
    }
}

pub fn usage_message(output: &str) -> (r: bool)
    ensures
        r == is_usage_message(output@),
{
    let chars = chars_of(output);
    contains(&chars, &chars_of(USAGE_MARKER)) && contains(&chars, &chars_of(OPERAND_MARKER))
}

pub fn outputs_match(legacy_final: &str, new_final: &str) -> (r: bool)
    ensures
        r == same_output(legacy_final@, new_final@),
{
    same(&trim(&chars_of(legacy_final)), &trim(&chars_of(new_final)))
}

/// Whether two final outputs show the same behaviour.
pub fn outputs_equivalent(legacy_final: &str, new_final: &str) -> (r: bool)
    ensures
        r == equivalent(legacy_final@, new_final@),
{
    outputs_match(legacy_final, new_final) || (usage_message(legacy_final) && usage_message(
        new_final,
    ))
}

fn same_code(a: Option<i32>, b: Option<i32>) -> (r: bool)
    ensures
        r == (a == b),
{
    match (a, b) {
        (Some(x), Some(y)) => x == y,
        (None, None) => true,
        _ => false,
    }
}

fn elapsed_difference(legacy: u64, new: u64) -> (r: Option<i64>)
    ensures
        r == time_difference(legacy, new),
{
    if new >= legacy {
        let d: u64 = new - legacy;
        if d <= 0x7fff_ffff_ffff_ffff {
            Some(d as i64)
        } else {
            None
        }
    } else {
        let d: u64 = legacy - new;
        if d <= 0x7fff_ffff_ffff_ffff {
            Some(-(d as i64))
        } else if d == 0x8000_0000_0000_0000 {
            Some(i64::MIN)
        } else {
            None
        }
    }
}

fn transport_comparison(message: &str) -> (r: Comparison)
    ensures
        r@ == transport_verdict(message@),
{
    let mut differences: Vec<String> = Vec::new();
    differences.push(glue(ERROR_PREFIX, message));
    assert(texts(differences@) =~= seq![ERROR_PREFIX@ + message@]);
    Comparison {
        passed: false,
        legacy_final: glue(ERROR_PREFIX, message),
        new_final: glue(ERROR_PREFIX, message),
        detail: ComparisonResult {
            outputs_match: false,
            exit_codes_match: false,
            performance_diff: None,
            differences,
        },
    }
}

fn list_differences(
    legacy: &ExecutionResult,
    new: &ExecutionResult,
    expected: i32,
    same: bool,
) -> (r: Vec<String>)
    requires
        same == same_output(
            final_text(legacy@.stdout, legacy@.stderr),
            final_text(new@.stdout, new@.stderr),
        ),
    ensures
        texts(r@) == differences_of(legacy@, new@, expected),
{
    let mut r: Vec<String> = Vec::new();
    assert(texts(r@) =~= Seq::<Seq<char>>::empty());
    if !same {
        r.push(OUTPUTS_DIFFER.to_owned());
        assert(texts(r@) =~= seq![OUTPUTS_DIFFER@]);
    }
    if !same_code(legacy.exit_code, new.exit_code) {
        let ghost before = texts(r@);
        r.push(EXIT_CODES_DIFFER.to_owned());
        assert(texts(r@) =~= before.push(EXIT_CODES_DIFFER@));
    }
    if !same_code(legacy.exit_code, Some(expected)) {
        let ghost before = texts(r@);
        r.push(LEGACY_EXIT_UNEXPECTED.to_owned());
        assert(texts(r@) =~= before.push(LEGACY_EXIT_UNEXPECTED@));
    }
    if !same_code(new.exit_code, Some(expected)) {
        let ghost before = texts(r@);
        r.push(NEW_EXIT_UNEXPECTED.to_owned());
        assert(texts(r@) =~= before.push(NEW_EXIT_UNEXPECTED@));
    }
    r
}

/// The verdict on the two executions of one scenario.
pub fn compare(legacy: &ExecutionResult, new: &ExecutionResult, expected_exit_code: i32) -> (r:
    Comparison)
    ensures
        r@ == compared(legacy@, new@, expected_exit_code),
        (legacy@.error is Some || new@.error is Some) ==> !r.passed,
{
    match &legacy.error {
        Some(message) => {
            return transport_comparison(message.as_str());
        },
        None => {},
    }
    match &new.error {
        Some(message) => {
            return transport_comparison(message.as_str());
        },
        None => {},
    }
    let legacy_final = final_output(legacy.stdout.as_str(), legacy.stderr.as_str());
    let new_final = final_output(new.stdout.as_str(), new.stderr.as_str());
    let same = outputs_match(legacy_final.as_str(), new_final.as_str());
    let passed = same || (usage_message(legacy_final.as_str()) && usage_message(
        new_final.as_str(),
    ));
    let differences = list_differences(legacy, new, expected_exit_code, same);
    Comparison {
        passed,
        legacy_final,
        new_final,
        detail: ComparisonResult {
            outputs_match: same,
            exit_codes_match: same_code(legacy.exit_code, new.exit_code),
            performance_diff: elapsed_difference(legacy.elapsed_millis, new.elapsed_millis),
            differences,
        },
    }
}

} // verus!
