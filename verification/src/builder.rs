//! Turning a source file into something that runs.
//!
//! The extension of the file decides what has to happen: nothing for scripts
//! and for files that are executable already, one compiler call for the
//! compiled languages. The plan says which program to call and what runs
//! afterwards; whoever calls the program reports how it ended.

use crate::errors::{BuildError, BuildErrorView};
use crate::paths::{
    directory, directory_of, extension, extension_of, file_name, file_name_of, is_file_name,
    join_path, path_in, stem, stem_of, valid_file_name,
};
use crate::project::ProjectService;
use crate::text::{
    chars_of, glue, ends_with, has_prefix, has_suffix, lowercase_of, option_text, same,
    starts_with, string_of, texts,
};
use vstd::prelude::*;

verus! {

/// The recipe by which a source file is built and run.
#[derive(Clone, Copy, Debug, PartialEq, Eq, Structural)]
pub enum Toolchain {
    C,
    Cpp,
    Python,
    JavaScript,
    Rust,
    Go,
    Java,
    Unknown,
}

/// The toolchain of the files with a given extension.
pub open spec fn toolchain_of(ext: Seq<char>) -> Toolchain {
    if ext == "c"@ {
        Toolchain::C
    } else if ext == "cpp"@ || ext == "cc"@ || ext == "cxx"@ {
        Toolchain::Cpp
    } else if ext == "py"@ {
        Toolchain::Python
    } else if ext == "js"@ || ext == "ts"@ {
        Toolchain::JavaScript
    } else if ext == "rs"@ {
        Toolchain::Rust
    } else if ext == "go"@ {
        Toolchain::Go
    } else if ext == "java"@ {
        Toolchain::Java
    } else {
        Toolchain::Unknown
    }
}

/// What was found out about a source file before planning its build.
#[derive(Clone, Copy, Debug, PartialEq, Eq, Structural)]
pub struct SourceProbe {
    /// Whether the file exists.
    pub exists: bool,
    /// Whether the file can be executed as it is.
    pub executable: bool,
    /// Whether the directory of the file holds a package manifest.
    pub has_manifest: bool,
}

/// One call of a build tool, and what runs once it has succeeded.
#[derive(Debug, PartialEq, Eq)]
pub struct BuildCommand {
    pub program: String,
    pub args: Vec<String>,
    /// The directory to call the program in; the caller's own where `None`.
    pub working_directory: Option<String>,
    /// The command that runs the program once it is built.
    pub runnable: String,
    /// The name of the tool, for the message that it could not be started.
    pub tool: String,
    /// The name of the language, for the message that the build failed.
    pub language: String,
}

pub struct BuildCommandView {
    pub program: Seq<char>,
    pub args: Seq<Seq<char>>,
    pub working_directory: Option<Seq<char>>,
    pub runnable: Seq<char>,
    pub tool: Seq<char>,
    pub language: Seq<char>,
}

impl View for BuildCommand {
    type V = BuildCommandView;

    open spec fn view(&self) -> BuildCommandView {
        BuildCommandView {
            program: self.program@,
            args: texts(self.args@),
            working_directory: option_text(self.working_directory),
            runnable: self.runnable@,
            tool: self.tool@,
            language: self.language@,
        }
    }
}

/// What has to happen before a source file runs.
#[derive(Debug, PartialEq, Eq)]
pub enum BuildPlan {
    /// Nothing: this command runs it.
    Ready(String),
    /// Nothing that is known: the extension is unknown, and the file is
    /// handed on as it is, for the caller may know how to run it.
    Unchecked(String),
    /// This call of a build tool.
    Compile(BuildCommand),
}

pub enum BuildPlanView {
    Ready(Seq<char>),
    Unchecked(Seq<char>),
    Compile(BuildCommandView),
}

impl View for BuildPlan {
    type V = BuildPlanView;

    open spec fn view(&self) -> BuildPlanView {
        match self {
            BuildPlan::Ready(p) => BuildPlanView::Ready(p@),
            BuildPlan::Unchecked(p) => BuildPlanView::Unchecked(p@),
            BuildPlan::Compile(c) => BuildPlanView::Compile(c@),
        }
    }
}

/// How a call of a build tool ended.
#[derive(Debug, PartialEq, Eq)]
pub enum BuildOutcome {
    /// The tool ran; whether it reported success, and what it wrote to
    /// standard error.
    Finished { success: bool, diagnostics: String },
    /// The tool could not be started, for this reason.
    NotStarted(String),
}

/// The artifact of a source file: beside it, named as the file without its
/// extension.
pub open spec fn artifact_of(source: Seq<char>) -> Seq<char> {
    path_in(directory_of(source), stem_of(file_name_of(source)))
}

/// The directory to call a tool in for a source file.
pub open spec fn build_directory(source: Seq<char>) -> Option<Seq<char>> {
    if directory_of(source).len() == 0 {
        None
    } else {
        Some(directory_of(source))
    }
}

/// The name of the package in the directory of a source file: the name of
/// that directory, or `program` where it has none.
pub open spec fn package_name(source: Seq<char>) -> Seq<char> {
    if is_file_name(file_name_of(directory_of(source))) {
        file_name_of(directory_of(source))
    } else {
        "program"@
    }
}

/// Where the release build of the package leaves its program.
pub open spec fn release_artifact(source: Seq<char>) -> Seq<char> {
    path_in(path_in(path_in(directory_of(source), "target"@), "release"@), package_name(source))
}

/// The manifest that makes the directory of a source file a package.
pub open spec fn manifest_of(source: Seq<char>) -> Seq<char> {
    path_in(directory_of(source), "Cargo.toml"@)
}

/// A compiler call of the form `program -o artifact source`.
pub open spec fn compiler_call(
    program: Seq<char>,
    language: Seq<char>,
    source: Seq<char>,
) -> BuildCommandView {
    BuildCommandView {
        program,
        args: seq!["-o"@, artifact_of(source), source],
        working_directory: None,
        runnable: artifact_of(source),
        tool: program,
        language,
    }
}

/// The build call for a source file of a compiled language.
pub open spec fn build_call(
    toolchain: Toolchain,
    source: Seq<char>,
    has_manifest: bool,
) -> BuildCommandView {
    match toolchain {
        Toolchain::Cpp => compiler_call("g++"@, "C++"@, source),
        Toolchain::Rust => if has_manifest {
            BuildCommandView {
                program: "cargo"@,
                args: seq!["build"@, "--release"@],
                working_directory: build_directory(source),
                runnable: release_artifact(source),
                tool: "cargo"@,
                language: "Rust com cargo"@,
            }
        } else {
            compiler_call("rustc"@, "Rust"@, source)
        },
        Toolchain::Go => BuildCommandView {
            program: "go"@,
            args: seq!["build"@, "-o"@, artifact_of(source), source],
            working_directory: None,
            runnable: artifact_of(source),
            tool: "go build"@,
            language: "Go"@,
        },
        Toolchain::Java => BuildCommandView {
            program: "javac"@,
            args: seq![source],
            working_directory: build_directory(source),
            runnable: "java "@ + stem_of(file_name_of(source)),
            tool: "javac"@,
            language: "Java"@,
        },
        _ => compiler_call("gcc"@, "C"@, source),
    }
}

pub open spec fn needs_build(toolchain: Toolchain) -> bool {
    toolchain != Toolchain::Python && toolchain != Toolchain::JavaScript && toolchain
        != Toolchain::Unknown
}

/// What has to happen before `source` runs, given what was found out of it.
pub open spec fn planned(source: Seq<char>, probe: SourceProbe) -> Result<
    BuildPlanView,
    BuildErrorView,
> {
    let toolchain = toolchain_of(extension_of(file_name_of(source)));
    if !probe.exists {
        Err(BuildErrorView::SourceMissing(source))
    } else if probe.executable {
        Ok(BuildPlanView::Ready(source))
    } else if toolchain == Toolchain::Unknown {
        Ok(BuildPlanView::Unchecked(source))
    } else if !needs_build(toolchain) {
        Ok(BuildPlanView::Ready(source))
    } else {
        Ok(BuildPlanView::Compile(build_call(toolchain, source, probe.has_manifest)))
    }
}

/// What a build call that ended gives: the runnable command, or the error.
pub open spec fn concluded(
    command: BuildCommandView,
    finished: bool,
    success: bool,
    report: Seq<char>,
) -> Result<Seq<char>, BuildErrorView> {
    if !finished {
        Err(BuildErrorView::ToolUnavailable { tool: command.tool, reason: report })
    } else if success {
        Ok(command.runnable)
    } else {
        Err(BuildErrorView::CompilationFailed { language: command.language, diagnostics: report })
    }
}

pub open spec fn result_view(r: Result<String, BuildError>) -> Result<Seq<char>, BuildErrorView> {
    match r {
        Ok(s) => Ok(s@),
        Err(e) => Err(e@),
    }
}

pub open spec fn plan_view(r: Result<BuildPlan, BuildError>) -> Result<
    BuildPlanView,
    BuildErrorView,
> {
    match r {
        Ok(p) => Ok(p@),
        Err(e) => Err(e@),
    }
}

/// The toolchain of the files with the given extension.
pub fn toolchain_for(ext: &str) -> (r: Toolchain)
    ensures
        r == toolchain_of(ext@),
{
    let e = chars_of(ext);
    if same(&e, &chars_of("c")) {
        Toolchain::C
    } else if same(&e, &chars_of("cpp")) || same(&e, &chars_of("cc")) || same(
        &e,
        &chars_of("cxx"),
    ) {
        Toolchain::Cpp
    } else if same(&e, &chars_of("py")) {
        Toolchain::Python
    } else if same(&e, &chars_of("js")) || same(&e, &chars_of("ts")) {
        Toolchain::JavaScript
    } else if same(&e, &chars_of("rs")) {
        Toolchain::Rust
    } else if same(&e, &chars_of("go")) {
        Toolchain::Go
    } else if same(&e, &chars_of("java")) {
        Toolchain::Java
    } else {
        Toolchain::Unknown
    }
}

fn artifact(source: &Vec<char>) -> (r: String)
    ensures
        r@ == artifact_of(source@),
{
    string_of(&join_path(&directory(source), &stem(&file_name(source))))
}

fn working_directory(source: &Vec<char>) -> (r: Option<String>)
    ensures
        option_text(r) == build_directory(source@),
{
    let dir = directory(source);
    if dir.len() == 0 {
        None
    } else {
        Some(string_of(&dir))
    }
}

fn compiler(program: &str, language: &str, source: &Vec<char>) -> (r: BuildCommand)
    ensures
        r@ == compiler_call(program@, language@, source@),
{
    let mut args: Vec<String> = Vec::new();
    args.push("-o".to_owned());
    args.push(artifact(source));
    args.push(string_of(source));
    assert(texts(args@) =~= seq!["-o"@, artifact_of(source@), source@]);
    BuildCommand {
        program: program.to_owned(),
        args,
        working_directory: None,
        runnable: artifact(source),
        tool: program.to_owned(),
        language: language.to_owned(),
    }
}

fn cargo_build(source: &Vec<char>) -> (r: BuildCommand)
    ensures
        r@ == build_call(Toolchain::Rust, source@, true),
{
    let dir = directory(source);
    let dir_name = file_name(&dir);
    let package = if valid_file_name(&dir_name) {
        dir_name
    } else {
        chars_of("program")
    };
    let target = join_path(&dir, &chars_of("target"));
    let release = join_path(&target, &chars_of("release"));
    let runnable = string_of(&join_path(&release, &package));
    let mut args: Vec<String> = Vec::new();
    args.push("build".to_owned());
    args.push("--release".to_owned());
    assert(texts(args@) =~= seq!["build"@, "--release"@]);
    BuildCommand {
        program: "cargo".to_owned(),
        args,
        working_directory: working_directory(source),
        runnable,
        tool: "cargo".to_owned(),
        language: "Rust com cargo".to_owned(),
    }
}

fn go_build(source: &Vec<char>) -> (r: BuildCommand)
    ensures
        r@ == build_call(Toolchain::Go, source@, false),
        r@ == build_call(Toolchain::Go, source@, true),
{
    let mut args: Vec<String> = Vec::new();
    args.push("build".to_owned());
    args.push("-o".to_owned());
    args.push(artifact(source));
    args.push(string_of(source));
    assert(texts(args@) =~= seq!["build"@, "-o"@, artifact_of(source@), source@]);
    BuildCommand {
        program: "go".to_owned(),
        args,
        working_directory: None,
        runnable: artifact(source),
        tool: "go build".to_owned(),
        language: "Go".to_owned(),
    }
}

fn java_build(source: &Vec<char>) -> (r: BuildCommand)
    ensures
        r@ == build_call(Toolchain::Java, source@, false),
        r@ == build_call(Toolchain::Java, source@, true),
{
    let mut args: Vec<String> = Vec::new();
    args.push(string_of(source));
    assert(texts(args@) =~= seq![source@]);
    let class = string_of(&stem(&file_name(source)));
    BuildCommand {
        program: "javac".to_owned(),
        args,
        working_directory: working_directory(source),
        runnable: glue("java ", class.as_str()),
        tool: "javac".to_owned(),
        language: "Java".to_owned(),
    }
}

impl ProjectService {
    /// What has to happen before `source_path` runs.
    pub fn ensure_executable(source_path: &str, probe: &SourceProbe) -> (r: Result<
        BuildPlan,
        BuildError,
    >)
        ensures
            plan_view(r) == planned(source_path@, *probe),
    {
        if !probe.exists {
            return Err(BuildError::SourceMissing(source_path.to_owned()));
        }
        if probe.executable {
            return Ok(BuildPlan::Ready(source_path.to_owned()));
        }
        let source = chars_of(source_path);
        let name = file_name(&source);
        let ext = string_of(&extension(&name));
        let toolchain = toolchain_for(ext.as_str());
        match toolchain {
            Toolchain::Unknown => {
                return Ok(BuildPlan::Unchecked(source_path.to_owned()));
            },
            Toolchain::Python | Toolchain::JavaScript => {
                return Ok(BuildPlan::Ready(source_path.to_owned()));
            },
            _ => {},
        }
        let command = match toolchain {
            Toolchain::Cpp => compiler("g++", "C++", &source),
            Toolchain::Rust => if probe.has_manifest {
                cargo_build(&source)
            } else {
                compiler("rustc", "Rust", &source)
            },
            Toolchain::Go => go_build(&source),
            Toolchain::Java => java_build(&source),
            _ => compiler("gcc", "C", &source),
        };
        Ok(BuildPlan::Compile(command))
    }

    /// The manifest whose presence makes the directory of `source_path` a
    /// package.
    pub fn manifest_path(source_path: &str) -> (r: String)
        ensures
            r@ == manifest_of(source_path@),
    {
        let source = chars_of(source_path);
        string_of(&join_path(&directory(&source), &chars_of("Cargo.toml")))
    }

    /// What a build call that ended gives: the command that runs the
    /// program, or the error with what the tool reported.
    pub fn conclude_build(command: &BuildCommand, outcome: BuildOutcome) -> (r: Result<
        String,
        BuildError,
    >)
        ensures
            result_view(r) == match outcome {
                BuildOutcome::Finished { success, diagnostics } => concluded(
                    command@,
                    true,
                    success,
                    diagnostics@,
                ),
                BuildOutcome::NotStarted(reason) => concluded(command@, false, false, reason@),
            },
    {
        match outcome {
            BuildOutcome::Finished { success, diagnostics } => {
                if success {
                    Ok(command.runnable.clone())
                } else {
                    Err(
                        BuildError::CompilationFailed {
                            language: command.language.clone(),
                            diagnostics,
                        },
                    )
                }
            },
            BuildOutcome::NotStarted(reason) => Err(
                BuildError::ToolUnavailable { tool: command.tool.clone(), reason },
            ),
        }
    }

    /// The plans for the two sides of a project, the legacy side first; the
    /// error of the legacy side where both have one.
    pub fn ensure_both_executables(
        legacy_source: &str,
        legacy_probe: &SourceProbe,
        new_source: &str,
        new_probe: &SourceProbe,
    ) -> (r: Result<(BuildPlan, BuildPlan), BuildError>)
        ensures
            match r {
                Ok(plans) => planned(legacy_source@, *legacy_probe) == Ok::<
                    BuildPlanView,
                    BuildErrorView,
                >(plans.0@) && planned(new_source@, *new_probe) == Ok::<
                    BuildPlanView,
                    BuildErrorView,
                >(plans.1@),
                Err(e) => if planned(legacy_source@, *legacy_probe) is Err {
                    planned(legacy_source@, *legacy_probe) == Err::<BuildPlanView, BuildErrorView>(
                        e@,
                    )
                } else {
                    planned(new_source@, *new_probe) == Err::<BuildPlanView, BuildErrorView>(e@)
                },
            },
    {
        let legacy = match Self::ensure_executable(legacy_source, legacy_probe) {
            Ok(plan) => plan,
            Err(e) => {
                return Err(e);
            },
        };
        match Self::ensure_executable(new_source, new_probe) {
            Ok(plan) => Ok((legacy, plan)),
            Err(e) => Err(e),
        }
    }

    /// Whether a file name marks a program that Windows can execute.
    pub fn has_executable_extension(file_path: &str) -> (r: bool)
        ensures
            r == ends_with(lowercase_of(file_path@), ".exe"@),
    {
        let lowered = file_path.to_lowercase();
        has_suffix(&chars_of(lowered.as_str()), &chars_of(".exe"))
    }

    /// Whether the content of a file starts with `#!`, the mark of a script
    /// that names its interpreter.
    pub fn has_shebang(content: &str) -> (r: bool)
        ensures
            r == starts_with(content@, "#!"@),
    {
        has_prefix(&chars_of(content), &chars_of("#!"))
    }
}

} // verus!
