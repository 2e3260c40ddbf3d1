//! Deriving the command-line arguments of a scenario from its free text.
//!
//! The text is cleaned of comments and blank lines and scanned four times
//! with regular expressions. A fixed order of layers then decides which
//! arguments the scenario gets; the first layer that applies wins.

use crate::text::{
    chars_of, contains, contains_text, is_blank, is_numeric_char, join, joined, lines, lines_of,
    lowercase_of, option_text, rows, starts_with, string_of, texts, trim, trimmed, has_char,
    has_prefix,
};
use vstd::prelude::*;

verus! {

/// A number, whole or decimal, or a single arithmetic operator.
pub const TOKEN_PATTERN: &'static str = "(\\d+\\.?\\d*|[+\\-*/%^])";

/// A declaration that binds a number to a name; the number is group 1.
pub const DECLARATION_PATTERN: &'static str =
    "(?:let|const|int|float|double)\\s+\\w+\\s*=\\s*(\\d+\\.?\\d*)\\s*;?";

/// A single arithmetic operator other than `%`.
pub const OPERATOR_PATTERN: &'static str = "([+\\-*/^])";

/// A call of the form `name(number, operator, number)`; the three arguments
/// are groups 1 to 3.
pub const CALL_PATTERN: &'static str =
    "[a-zA-Z_]\\w*\\s*\\(\\s*(\\d+\\.?\\d*)\\s*,\\s*([+\\-*/^])\\s*,\\s*(\\d+\\.?\\d*)\\s*\\)";

/// The characters that count as arithmetic operators.
pub const OPERATORS: &'static str = "+-*/%^";

/// What `Regex::captures_iter` finds of `pattern` in `text`: for each match in
/// turn the text of every group, group 0 being the whole match, with `None`
/// for a group that took no part in it. `None` as a whole where `Regex::new`
/// does not accept `pattern`.
pub uninterp spec fn regex_captures(pattern: Seq<char>, text: Seq<char>) -> Option<
    Seq<Seq<Option<Seq<char>>>>,
>;

pub open spec fn capture_views(all: Seq<Vec<Option<String>>>) -> Seq<Seq<Option<Seq<char>>>> {
    Seq::new(all.len(), |i: int| Seq::new(all[i]@.len(), |j: int| option_text(all[i]@[j])))
}

pub open spec fn option_capture_views(all: Option<Vec<Vec<Option<String>>>>) -> Option<
    Seq<Seq<Option<Seq<char>>>>,
> {
    match all {
        Some(all) => Some(capture_views(all@)),
        None => None,
    }
}

/// Compiles `pattern` with `Regex::new` and collects what
/// `Regex::captures_iter` yields on `text`, each group of each match as an
/// owned string. Both calls depend on their arguments alone; the contract
/// gives the result its name and claims nothing else of it.
#[verifier::external_body]
fn capture_all(pattern: &str, text: &str) -> (r: Option<Vec<Vec<Option<String>>>>)
    ensures
        option_capture_views(r) == regex_captures(pattern@, text@),
{
    match regex::Regex::new(pattern) {
        Ok(re) => Some(
            re.captures_iter(text).map(
                |found| found.iter().map(|group| group.map(|m| m.as_str().to_owned())).collect(),
            ).collect(),
        ),
        Err(_) => None,
    }
}

/// The matches of a pattern, or none at all for a pattern that is no regular
/// expression.
pub open spec fn found(all: Option<Seq<Seq<Option<Seq<char>>>>>) -> Seq<Seq<Option<Seq<char>>>> {
    match all {
        Some(all) => all,
        None => Seq::empty(),
    }
}

/// The text of group `k` of one match, if the group took part in it.
pub open spec fn group_of(groups: Seq<Option<Seq<char>>>, k: int) -> Option<Seq<char>> {
    if 0 <= k < groups.len() {
        groups[k]
    } else {
        None
    }
}

/// The texts of group `k` over all matches, in order; a match in which the
/// group took no part adds nothing.
pub open spec fn captured(all: Seq<Seq<Option<Seq<char>>>>, k: int) -> Seq<Seq<char>>
    decreases all.len(),
{
    if all.len() == 0 {
        Seq::empty()
    } else {
        match group_of(all.last(), k) {
            Some(t) => captured(all.drop_last(), k).push(t),
            None => captured(all.drop_last(), k),
        }
    }
}

/// The three arguments of the first call found, if there is one.
pub open spec fn first_call(all: Seq<Seq<Option<Seq<char>>>>) -> Option<
    (Seq<char>, Seq<char>, Seq<char>),
> {
    if all.len() > 0 && group_of(all[0], 1) is Some && group_of(all[0], 2) is Some && group_of(
        all[0],
        3,
    ) is Some {
        Some((group_of(all[0], 1)->0, group_of(all[0], 2)->0, group_of(all[0], 3)->0))
    } else {
        None
    }
}

pub open spec fn first_of(items: Seq<Seq<char>>) -> Option<Seq<char>> {
    if items.len() > 0 {
        Some(items[0])
    } else {
        None
    }
}

/// What the four scans of a cleaned text found.
#[derive(Debug, PartialEq, Eq)]
pub struct Scans {
    /// The numbers and operators of the text, in order.
    pub tokens: Vec<String>,
    /// The numbers bound by declarations, in order.
    pub declared: Vec<String>,
    /// The first operator of the text other than `%`.
    pub operator: Option<String>,
    /// The arguments of the first call of the form `name(number, operator, number)`.
    pub call: Option<(String, String, String)>,
}

pub struct ScansView {
    pub tokens: Seq<Seq<char>>,
    pub declared: Seq<Seq<char>>,
    pub operator: Option<Seq<char>>,
    pub call: Option<(Seq<char>, Seq<char>, Seq<char>)>,
}

impl View for Scans {
    type V = ScansView;

    open spec fn view(&self) -> ScansView {
        ScansView {
            tokens: texts(self.tokens@),
            declared: texts(self.declared@),
            operator: option_text(self.operator),
            call: match self.call {
                Some(c) => Some((c.0@, c.1@, c.2@)),
                None => None,
            },
        }
    }
}

/// What the four scans find in `clean`.
pub open spec fn scans_of(clean: Seq<char>) -> ScansView {
    ScansView {
        tokens: captured(found(regex_captures(TOKEN_PATTERN@, clean)), 0),
        declared: captured(found(regex_captures(DECLARATION_PATTERN@, clean)), 1),
        operator: first_of(captured(found(regex_captures(OPERATOR_PATTERN@, clean)), 0)),
        call: first_call(found(regex_captures(CALL_PATTERN@, clean))),
    }
}

/// Whether a line stays in the cleaned text: it is not blank and does not
/// start with `//` once trimmed.
pub open spec fn is_kept_line(line: Seq<char>) -> bool {
    trimmed(line).len() > 0 && !starts_with(trimmed(line), "//"@)
}

pub open spec fn kept_lines(lines: Seq<Seq<char>>) -> Seq<Seq<char>>
    decreases lines.len(),
{
    if lines.len() == 0 {
        Seq::empty()
    } else if is_kept_line(lines.last()) {
        kept_lines(lines.drop_last()).push(lines.last())
    } else {
        kept_lines(lines.drop_last())
    }
}

/// The text without its comment lines and blank lines, the lines that stay
/// joined by single spaces.
pub open spec fn cleaned(text: Seq<char>) -> Seq<char> {
    joined(kept_lines(lines_of(text)), seq![' '])
}

/// The layer that decides the arguments of a scenario.
#[derive(Clone, Copy, Debug, PartialEq, Eq, Structural)]
pub enum Layer {
    /// Three tokens or more: they are the arguments.
    Tokens,
    /// One number and one operator: an invocation left incomplete on purpose.
    IncompleteInvocation,
    /// Two declared numbers or more, with the first operator after the first.
    Declarations,
    /// The three arguments of a call.
    Call,
    /// The operands `a` and `b` with an operator: the example values 5 and 3.
    ExampleOperands,
    /// A scenario that asks for no arguments.
    NoArguments,
    /// Fewer than three tokens, taken as they are.
    Partial,
    /// Nothing to go by.
    Nothing,
}

pub open spec fn starts_numeric(token: Seq<char>) -> bool {
    token.len() > 0 && is_numeric_char(token[0])
}

/// Whether `token` reads as an operator: it stands somewhere in the list of
/// operator characters.
pub open spec fn is_operator_token(token: Seq<char>) -> bool {
    contains_text(OPERATORS@, token)
}

pub open spec fn has_operator_char(token: Seq<char>) -> bool {
    exists|i: int| 0 <= i < token.len() && OPERATORS@.contains(#[trigger] token[i])
}

/// Whether `tokens` are two of which one starts with a numeric character.
pub open spec fn has_number(tokens: Seq<Seq<char>>) -> bool {
    tokens.len() == 2 && (starts_numeric(tokens[0]) || starts_numeric(tokens[1]))
}

/// Whether `tokens` are two of which one reads as an operator.
pub open spec fn has_operator(tokens: Seq<Seq<char>>) -> bool {
    tokens.len() == 2 && (is_operator_token(tokens[0]) || is_operator_token(tokens[1]))
}

/// Two tokens of which one starts a number and one reads as an operator.
pub open spec fn is_incomplete_pair(tokens: Seq<Seq<char>>) -> bool {
    has_number(tokens) && has_operator(tokens)
}

pub open spec fn names_both_operands(clean: Seq<char>) -> bool {
    contains_text(clean, "a"@) && contains_text(clean, "b"@)
}

/// Whether a text, given with its lowercase form, asks for a run without
/// arguments: it is blank, or its lowercase form speaks of usage or of no
/// arguments.
pub open spec fn is_usage_given(clean: Seq<char>, lowered: Seq<char>) -> bool {
    ||| trimmed(clean).len() == 0
    ||| contains_text(lowered, "usage"@)
    ||| contains_text(lowered, "sem argumentos"@)
    ||| contains_text(lowered, "no args"@)
}

/// Whether the text asks for a run without arguments, in whatever case.
pub open spec fn is_usage_text(clean: Seq<char>) -> bool {
    is_usage_given(clean, lowercase_of(clean))
}

/// The layer that decides, given whether one of two tokens starts a number
/// and given the lowercase form of the text.
pub open spec fn layer_given(
    clean: Seq<char>,
    scans: ScansView,
    number: bool,
    lowered: Seq<char>,
) -> Layer {
    if scans.tokens.len() >= 3 {
        Layer::Tokens
    } else if number && has_operator(scans.tokens) {
        Layer::IncompleteInvocation
    } else if scans.declared.len() >= 2 {
        Layer::Declarations
    } else if scans.call is Some {
        Layer::Call
    } else if names_both_operands(clean) && scans.tokens.len() > 0 && has_operator_char(
        scans.tokens[0],
    ) {
        Layer::ExampleOperands
    } else if is_usage_given(clean, lowered) {
        Layer::NoArguments
    } else if scans.tokens.len() > 0 {
        Layer::Partial
    } else {
        Layer::Nothing
    }
}

/// The layer that decides the arguments of a cleaned text.
pub open spec fn deciding_layer(clean: Seq<char>, scans: ScansView) -> Layer {
    layer_given(clean, scans, has_number(scans.tokens), lowercase_of(clean))
}

/// The declared values with the operator, if there is one, after the first.
pub open spec fn spliced(values: Seq<Seq<char>>, operator: Option<Seq<char>>) -> Seq<Seq<char>> {
    match operator {
        Some(op) => if values.len() >= 1 {
            values.insert(1, op)
        } else {
            seq![op]
        },
        None => values,
    }
}

/// The arguments that `layer` gives.
pub open spec fn layer_inputs(layer: Layer, scans: ScansView) -> Seq<Seq<char>> {
    match layer {
        Layer::Tokens | Layer::IncompleteInvocation | Layer::Partial => scans.tokens,
        Layer::Declarations => spliced(scans.declared, scans.operator),
        Layer::Call => match scans.call {
            Some(c) => seq![c.0, c.1, c.2],
            None => Seq::empty(),
        },
        Layer::ExampleOperands => if scans.tokens.len() > 0 {
            seq!["5"@, scans.tokens[0], "3"@]
        } else {
            Seq::empty()
        },
        Layer::NoArguments | Layer::Nothing => Seq::empty(),
    }
}

/// The arguments derived from a cleaned text and what its scans found, given
/// whether one of two tokens starts a number and given the lowercase form of
/// the text.
pub open spec fn derived_given(
    clean: Seq<char>,
    scans: ScansView,
    number: bool,
    lowered: Seq<char>,
) -> Seq<Seq<char>> {
    layer_inputs(layer_given(clean, scans, number, lowered), scans)
}

/// The arguments derived from a cleaned text and what its scans found.
pub open spec fn derived_inputs(clean: Seq<char>, scans: ScansView) -> Seq<Seq<char>> {
    derived_given(clean, scans, has_number(scans.tokens), lowercase_of(clean))
}

/// The arguments derived from the text of a scenario.
pub open spec fn extracted_inputs(text: Seq<char>) -> Seq<Seq<char>> {
    derived_inputs(cleaned(text), scans_of(cleaned(text)))
}

/// Deriving the arguments of a text again gives the same list: what
/// `extract_test_inputs` returns is what `extracted_inputs` says of the text,
/// whenever it is called.
pub proof fn lemma_extraction_repeats(text: Seq<char>, first: Seq<Seq<char>>, second: Seq<Seq<char>>)
    requires
        first == extracted_inputs(text),
        second == extracted_inputs(text),
    ensures
        first == second,
{
}

/// The text of a scenario without its comment lines and blank lines.
pub fn clean_scenario_text(text: &str) -> (r: String)
    ensures
        r@ == cleaned(text@),
{
    let all = lines(&chars_of(text));
    let comment = chars_of("//");
    let mut kept: Vec<Vec<char>> = Vec::new();
    let mut i: usize = 0;
    while i < all.len()
        invariant
            i <= all.len(),
            comment@ == "//"@,
            rows(kept@) == kept_lines(rows(all@).take(i as int)),
        decreases all.len() - i,
    {
        proof {
            let next = rows(all@).take(i + 1);
            assert(next.drop_last() =~= rows(all@).take(i as int));
            assert(next.last() == all@[i as int]@);
        }
        let t = trim(&all[i]);
        if t.len() > 0 && !has_prefix(&t, &comment) {
            let ghost before = rows(kept@);
            let line = all[i].clone();
            assert(line@ == all@[i as int]@);
            kept.push(line);
            assert(rows(kept@) =~= before.push(all@[i as int]@));
        }
        i += 1;
    }
    assert(rows(all@).take(all@.len() as int) =~= rows(all@));
    let mut space: Vec<char> = Vec::new();
    space.push(' ');
    assert(space@ =~= seq![' ']);
    let clean = join(&kept, &space);
    string_of(&clean)
}

fn group_texts(all: &Vec<Vec<Option<String>>>, k: usize) -> (r: Vec<String>)
    ensures
        texts(r@) == captured(capture_views(all@), k as int),
{
    let mut r: Vec<String> = Vec::new();
    let mut i: usize = 0;
    while i < all.len()
        invariant
            i <= all.len(),
            texts(r@) == captured(capture_views(all@).take(i as int), k as int),
        decreases all.len() - i,
    {
        proof {
            let next = capture_views(all@).take(i + 1);
            assert(next.drop_last() =~= capture_views(all@).take(i as int));
            assert(next.last() == capture_views(all@)[i as int]);
        }
        if k < all[i].len() {
            match &all[i][k] {
                Some(t) => {
                    let ghost before = texts(r@);
                    r.push(t.clone());
                    assert(texts(r@) =~= before.push(t@));
                },
                None => {},
            }
        }
        i += 1;
    }
    assert(capture_views(all@).take(all@.len() as int) =~= capture_views(all@));
    r
}

fn matches_of(pattern: &str, text: &str) -> (r: Vec<Vec<Option<String>>>)
    ensures
        capture_views(r@) == found(regex_captures(pattern@, text@)),
{
    match capture_all(pattern, text) {
        Some(all) => all,
        None => {
            let none: Vec<Vec<Option<String>>> = Vec::new();
            assert(capture_views(none@) =~= Seq::empty());
            none
        },
    }
}

fn call_arguments(all: &Vec<Vec<Option<String>>>) -> (r: Option<(String, String, String)>)
    ensures
        match r {
            Some(c) => first_call(capture_views(all@)) == Some((c.0@, c.1@, c.2@)),
            None => first_call(capture_views(all@)) is None,
        },
{
    if all.len() == 0 || all[0].len() < 4 {
        return None;
    }
    let groups = &all[0];
    assert(capture_views(all@)[0] =~= Seq::new(
        groups@.len(),
        |j: int| option_text(groups@[j]),
    ));
    match (&groups[1], &groups[2], &groups[3]) {
        (Some(a), Some(b), Some(c)) => Some((a.clone(), b.clone(), c.clone())),
        _ => None,
    }
}

/// Runs the four scans on a cleaned text.
pub fn scan(clean: &str) -> (r: Scans)
    ensures
        r@ == scans_of(clean@),
{
    let tokens = group_texts(&matches_of(TOKEN_PATTERN, clean), 0);
    let declared = group_texts(&matches_of(DECLARATION_PATTERN, clean), 1);
    let operators = group_texts(&matches_of(OPERATOR_PATTERN, clean), 0);
    let operator = if operators.len() > 0 {
        Some(operators[0].clone())
    } else {
        None
    };
    let call = call_arguments(&matches_of(CALL_PATTERN, clean));
    Scans { tokens, declared, operator, call }
}

fn token_starts_numeric(token: &String) -> (r: bool)
    ensures
        r == starts_numeric(token@),
{
    let chars = chars_of(token.as_str());
    chars.len() > 0 && chars[0].is_numeric()
}

fn token_is_operator(token: &String) -> (r: bool)
    ensures
        r == is_operator_token(token@),
{
    contains(&chars_of(OPERATORS), &chars_of(token.as_str()))
}

fn token_has_operator_char(token: &String) -> (r: bool)
    ensures
        r == has_operator_char(token@),
{
    let chars = chars_of(token.as_str());
    let operators = chars_of(OPERATORS);
    let mut i: usize = 0;
    while i < chars.len()
        invariant
            i <= chars.len(),
            chars@ == token@,
            operators@ == OPERATORS@,
            forall|j: int| 0 <= j < i ==> !OPERATORS@.contains(#[trigger] token@[j]),
        decreases chars.len() - i,
    {
        if has_char(&operators, chars[i]) {
            return true;
        }
        i += 1;
    }
    false
}

fn usage_given(clean: &str, lowered: &str) -> (r: bool)
    ensures
        r == is_usage_given(clean@, lowered@),
{
    if is_blank(&chars_of(clean)) {
        return true;
    }
    let lower = chars_of(lowered);
    contains(&lower, &chars_of("usage")) || contains(&lower, &chars_of("sem argumentos"))
        || contains(&lower, &chars_of("no args"))
}

fn pair_has_operator(tokens: &Vec<String>) -> (r: bool)
    ensures
        r == has_operator(texts(tokens@)),
{
    tokens.len() == 2 && (token_is_operator(&tokens[0]) || token_is_operator(&tokens[1]))
}

/// Whether `tokens` are two of which one starts with a numeric character.
pub fn pair_has_number(tokens: &Vec<String>) -> (r: bool)
    ensures
        r == has_number(texts(tokens@)),
{
    tokens.len() == 2 && (token_starts_numeric(&tokens[0]) || token_starts_numeric(&tokens[1]))
}

/// The layer that decides, given a cleaned text, what its scans found,
/// whether one of two tokens starts a number, and the lowercase form of the
/// text.
pub fn decide_given(clean: &str, scans: &Scans, number: bool, lowered: &str) -> (r: Layer)
    ensures
        r == layer_given(clean@, scans@, number, lowered@),
{
    let tokens = &scans.tokens;
    if tokens.len() >= 3 {
        return Layer::Tokens;
    }
    if number && pair_has_operator(tokens) {
        return Layer::IncompleteInvocation;
    }
    if scans.declared.len() >= 2 {
        return Layer::Declarations;
    }
    if scans.call.is_some() {
        return Layer::Call;
    }
    let text = chars_of(clean);
    if contains(&text, &chars_of("a")) && contains(&text, &chars_of("b")) && tokens.len() > 0
        && token_has_operator_char(&tokens[0]) {
        return Layer::ExampleOperands;
    }
    if usage_given(clean, lowered) {
        return Layer::NoArguments;
    }
    if tokens.len() > 0 {
        Layer::Partial
    } else {
        Layer::Nothing
    }
}

/// The layer that decides, given a cleaned text and what its scans found.
pub fn decide(clean: &str, scans: &Scans) -> (r: Layer)
    ensures
        r == deciding_layer(clean@, scans@),
{
    let number = pair_has_number(&scans.tokens);
    let lowered = clean.to_lowercase();
    decide_given(clean, scans, number, lowered.as_str())
}

/// The arguments that `layer` gives, from what the scans found.
pub fn inputs_of_layer(layer: Layer, scans: Scans) -> (r: Vec<String>)
    ensures
        texts(r@) == layer_inputs(layer, scans@),
{
    match layer {
        Layer::Tokens | Layer::IncompleteInvocation | Layer::Partial => scans.tokens,
        Layer::Declarations => {
            let mut values = scans.declared;
            match scans.operator {
                Some(op) => {
                    if values.len() >= 1 {
                        let ghost before = texts(values@);
                        values.insert(1, op);
                        assert(texts(values@) =~= before.insert(1, op@));
                    } else {
                        let ghost before = texts(values@);
                        values.push(op);
                        assert(texts(values@) =~= seq![op@]);
                    }
                    values
                },
                None => values,
            }
        },
        Layer::Call => match scans.call {
            Some(c) => {
                let mut r: Vec<String> = Vec::new();
                r.push(c.0);
                r.push(c.1);
                r.push(c.2);
                assert(texts(r@) =~= seq![c.0@, c.1@, c.2@]);
                r
            },
            None => {
                let r: Vec<String> = Vec::new();
                assert(texts(r@) =~= Seq::empty());
                r
            },
        },
        Layer::ExampleOperands => {
            let mut r: Vec<String> = Vec::new();
            if scans.tokens.len() > 0 {
                r.push("5".to_owned());
                r.push(scans.tokens[0].clone());
                r.push("3".to_owned());
                assert(texts(r@) =~= seq!["5"@, scans.tokens@[0]@, "3"@]);
            } else {
                assert(texts(r@) =~= Seq::empty());
            }
            r
        },
        Layer::NoArguments | Layer::Nothing => {
            let r: Vec<String> = Vec::new();
            assert(texts(r@) =~= Seq::empty());
            r
        },
    }
}

/// The arguments derived from a cleaned text and what its scans found, given
/// whether one of two tokens starts a number and given the lowercase form of
/// the text.
pub fn derive_inputs_given(clean: &str, scans: Scans, number: bool, lowered: &str) -> (r: Vec<
    String,
>)
    ensures
        texts(r@) == derived_given(clean@, scans@, number, lowered@),
{
    let layer = decide_given(clean, &scans, number, lowered);
    inputs_of_layer(layer, scans)
}

/// The arguments derived from a cleaned text and what its scans found.
pub fn derive_inputs(clean: &str, scans: Scans) -> (r: Vec<String>)
    ensures
        texts(r@) == derived_inputs(clean@, scans@),
{
    let number = pair_has_number(&scans.tokens);
    let lowered = clean.to_lowercase();
    derive_inputs_given(clean, scans, number, lowered.as_str())
}

/// The command-line arguments derived from the text of a scenario. The list
/// may be empty; the same text always gives the same list.
pub fn extract_test_inputs(test_code: &str) -> (r: Vec<String>)
    ensures
        texts(r@) == extracted_inputs(test_code@),
{
    let clean = clean_scenario_text(test_code);
    let scans = scan(clean.as_str());
    derive_inputs(clean.as_str(), scans)
}

} // verus!
