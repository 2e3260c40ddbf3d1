//! What the execution of one side needs and what it yields: the command line
//! handed to the shell, and the record of a run.

use crate::text::{chars_of, glue, join, joined, option_text, rows, same, string_of, texts};
use crate::types::clone_option_text;
use vstd::prelude::*;

verus! {

/// The message of a run that was stopped for taking too long.
pub const TIMEOUT_MESSAGE: &'static str = "tempo limite excedido";

/// What one run of one program gave. A run that could not be started, or that
/// was stopped for taking too long, has an `error` and no exit code.
#[derive(Debug, PartialEq, Eq)]
pub struct ExecutionResult {
    pub stdout: String,
    pub stderr: String,
    pub exit_code: Option<i32>,
    pub elapsed_millis: u64,
    pub error: Option<String>,
}

pub struct ExecutionResultView {
    pub stdout: Seq<char>,
    pub stderr: Seq<char>,
    pub exit_code: Option<i32>,
    pub elapsed_millis: u64,
    pub error: Option<Seq<char>>,
}

impl ExecutionResultView {
    /// A run with an error in its transport reports no exit code.
    pub open spec fn well_formed(self) -> bool {
        self.error is Some ==> self.exit_code is None
    }
}

impl View for ExecutionResult {
    type V = ExecutionResultView;

    open spec fn view(&self) -> ExecutionResultView {
        ExecutionResultView {
            stdout: self.stdout@,
            stderr: self.stderr@,
            exit_code: self.exit_code,
            elapsed_millis: self.elapsed_millis,
            error: option_text(self.error),
        }
    }
}

impl Clone for ExecutionResult {
    fn clone(&self) -> (r: Self)
        ensures
            r@ == self@,
    {
        ExecutionResult {
            stdout: self.stdout.clone(),
            stderr: self.stderr.clone(),
            exit_code: self.exit_code,
            elapsed_millis: self.elapsed_millis,
            error: clone_option_text(&self.error),
        }
    }
}

/// The record of a run that ended after `elapsed_millis`, under a limit of
/// `timeout_millis`.
pub open spec fn settled(
    stdout: Seq<char>,
    stderr: Seq<char>,
    exit_code: Option<i32>,
    elapsed_millis: u64,
    timeout_millis: u64,
) -> ExecutionResultView {
    if elapsed_millis > timeout_millis {
        ExecutionResultView {
            stdout,
            stderr,
            exit_code: None,
            elapsed_millis,
            error: Some(TIMEOUT_MESSAGE@),
        }
    } else {
        ExecutionResultView { stdout, stderr, exit_code, elapsed_millis, error: None }
    }
}

impl ExecutionResult {
    /// The record of a run that ended: what it printed and its exit code, or a
    /// transport error in place of the exit code where it ran past its limit.
    pub fn captured(
        stdout: String,
        stderr: String,
        exit_code: Option<i32>,
        elapsed_millis: u64,
        timeout_millis: u64,
    ) -> (r: ExecutionResult)
        ensures
            r@ == settled(stdout@, stderr@, exit_code, elapsed_millis, timeout_millis),
            r@.well_formed(),
            elapsed_millis > timeout_millis ==> r@.error is Some && r@.exit_code is None,
    {
        if elapsed_millis > timeout_millis {
            ExecutionResult {
                stdout,
                stderr,
                exit_code: None,
                elapsed_millis,
                error: Some(TIMEOUT_MESSAGE.to_owned()),
            }
        } else {
            ExecutionResult { stdout, stderr, exit_code, elapsed_millis, error: None }
        }
    }

    /// The record of a run that could not be started or was cut short.
    pub fn transport_failure(message: String, elapsed_millis: u64) -> (r: ExecutionResult)
        ensures
            r@ == (ExecutionResultView {
                stdout: Seq::empty(),
                stderr: Seq::empty(),
                exit_code: None,
                elapsed_millis,
                error: Some(message@),
            }),
            r@.well_formed(),
    {
        ExecutionResult {
            stdout: String::new(),
            stderr: String::new(),
            exit_code: None,
            elapsed_millis,
            error: Some(message),
        }
    }

    /// Whether the record is consistent.
    pub fn is_well_formed(&self) -> (r: bool)
        ensures
            r == self@.well_formed(),
    {
        self.error.is_none() || self.exit_code.is_none()
    }
}

/// An argument as the shell is to see it: `*` and `?` standing alone are put
/// in single quotes, every other argument is left as it is.
pub open spec fn escaped(argument: Seq<char>) -> Seq<char> {
    if argument == seq!['*'] {
        seq!['\'', '*', '\'']
    } else if argument == seq!['?'] {
        seq!['\'', '?', '\'']
    } else {
        argument
    }
}

pub open spec fn escaped_all(arguments: Seq<Seq<char>>) -> Seq<Seq<char>> {
    Seq::new(arguments.len(), |i: int| escaped(arguments[i]))
}

/// The line handed to the shell: the command, then the arguments separated by
/// single spaces; the command alone where there is no argument.
pub open spec fn shell_line(command: Seq<char>, arguments: Seq<Seq<char>>) -> Seq<char> {
    if arguments.len() == 0 {
        command
    } else {
        command + seq![' '] + joined(arguments, seq![' '])
    }
}

pub fn escape_argument(argument: &str) -> (r: String)
    ensures
        r@ == escaped(argument@),
{
    let chars = chars_of(argument);
    if chars.len() == 1 && (chars[0] == '*' || chars[0] == '?') {
        assert(chars@ =~= seq![chars@[0]]);
        let mut r: Vec<char> = Vec::new();
        r.push('\'');
        r.push(chars[0]);
        r.push('\'');
        assert(r@ =~= seq!['\'', chars@[0], '\'']);
        string_of(&r)
    } else {
        proof {
            if chars@.len() == 1 {
                assert(chars@[0] != '*' && chars@[0] != '?');
                assert(seq!['*'][0] == '*');
                assert(seq!['?'][0] == '?');
            } else {
                assert(seq!['*'].len() == 1);
                assert(seq!['?'].len() == 1);
            }
        }
        string_of(&chars)
    }
}

pub fn escape_arguments(arguments: &Vec<String>) -> (r: Vec<String>)
    ensures
        texts(r@) == escaped_all(texts(arguments@)),
{
    let mut r: Vec<String> = Vec::new();
    let mut i: usize = 0;
    while i < arguments.len()
        invariant
            i <= arguments.len(),
            r@.len() == i,
            forall|j: int| 0 <= j < i ==> (#[trigger] r@[j])@ == escaped(arguments@[j]@),
        decreases arguments.len() - i,
    {
        r.push(escape_argument(arguments[i].as_str()));
        i += 1;
    }
    assert(texts(r@) =~= escaped_all(texts(arguments@)));
    r
}

/// The line handed to the shell for `command` with `arguments`, which are
/// taken as they are.
pub fn command_line(command: &str, arguments: &Vec<String>) -> (r: String)
    ensures
        r@ == shell_line(command@, texts(arguments@)),
{
    if arguments.len() == 0 {
        return command.to_owned();
    }
    let mut parts: Vec<Vec<char>> = Vec::new();
    let mut i: usize = 0;
    while i < arguments.len()
        invariant
            i <= arguments.len(),
            parts@.len() == i,
            forall|j: int| 0 <= j < i ==> (#[trigger] parts@[j])@ == arguments@[j]@,
        decreases arguments.len() - i,
    {
        parts.push(chars_of(arguments[i].as_str()));
        i += 1;
    }
    assert(rows(parts@) =~= texts(arguments@));
    let mut space: Vec<char> = Vec::new();
    space.push(' ');
    assert(space@ =~= seq![' ']);
    let tail = string_of(&join(&parts, &space));
    let mut r = glue(command, " ");
    proof {
        reveal_strlit(" ");
        assert(" "@ =~= seq![' ']);
    }
    r.append(tail.as_str());
    r
}

/// Whether two texts are the same.
pub fn same_text(a: &str, b: &str) -> (r: bool)
    ensures
        r == (a@ == b@),
{
    same(&chars_of(a), &chars_of(b))
}

} // verus!
