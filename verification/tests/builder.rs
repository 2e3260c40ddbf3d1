use parity_harness::builder::{
    toolchain_for, BuildCommand, BuildOutcome, BuildPlan, SourceProbe, Toolchain,
};
use parity_harness::errors::BuildError;
use parity_harness::project::ProjectService;

const SOURCE: SourceProbe = SourceProbe { exists: true, executable: false, has_manifest: false };

const PACKAGE: SourceProbe = SourceProbe { exists: true, executable: false, has_manifest: true };

fn strings(items: &[&str]) -> Vec<String> {
    items.iter().map(|s| s.to_string()).collect()
}

fn command(path: &str, probe: &SourceProbe) -> BuildCommand {
    match ProjectService::ensure_executable(path, probe) {
        Ok(BuildPlan::Compile(c)) => c,
        other => panic!("no build planned: {:?}", other),
    }
}

#[test]
fn the_extension_decides_the_toolchain() {
    assert_eq!(toolchain_for("c"), Toolchain::C);
    for ext in ["cpp", "cc", "cxx"] {
        assert_eq!(toolchain_for(ext), Toolchain::Cpp);
    }
    assert_eq!(toolchain_for("py"), Toolchain::Python);
    assert_eq!(toolchain_for("js"), Toolchain::JavaScript);
    assert_eq!(toolchain_for("ts"), Toolchain::JavaScript);
    assert_eq!(toolchain_for("rs"), Toolchain::Rust);
    assert_eq!(toolchain_for("go"), Toolchain::Go);
    assert_eq!(toolchain_for("java"), Toolchain::Java);
    assert_eq!(toolchain_for(""), Toolchain::Unknown);
    assert_eq!(toolchain_for("C"), Toolchain::Unknown);
    assert_eq!(toolchain_for("rb"), Toolchain::Unknown);
}

#[test]
fn a_missing_source_is_an_error() {
    let probe = SourceProbe { exists: false, executable: true, has_manifest: true };
    let error = ProjectService::ensure_executable("/p/calc.c", &probe).unwrap_err();
    assert_eq!(error, BuildError::SourceMissing("/p/calc.c".to_string()));
    assert_eq!(error.message(), "Arquivo não encontrado: /p/calc.c");
}

#[test]
fn an_executable_file_is_ready_whatever_its_extension() {
    let probe = SourceProbe { exists: true, executable: true, has_manifest: false };
    for path in ["/p/calc.c", "/p/calc", "/p/run.sh"] {
        assert_eq!(
            ProjectService::ensure_executable(path, &probe),
            Ok(BuildPlan::Ready(path.to_string()))
        );
    }
}

#[test]
fn scripts_need_no_build() {
    for path in ["/p/calc.py", "/p/calc.js", "calc.ts"] {
        assert_eq!(
            ProjectService::ensure_executable(path, &SOURCE),
            Ok(BuildPlan::Ready(path.to_string()))
        );
    }
}

#[test]
fn an_unknown_extension_passes_through_unchecked() {
    for path in ["/p/calc.rb", "/p/calc", "/p/.c", "/p.c/calc"] {
        assert_eq!(
            ProjectService::ensure_executable(path, &SOURCE),
            Ok(BuildPlan::Unchecked(path.to_string()))
        );
    }
}

#[test]
fn c_and_cpp_are_compiled_beside_the_source() {
    let c = command("/p/calc.c", &SOURCE);
    assert_eq!(c.program, "gcc");
    assert_eq!(c.args, strings(&["-o", "/p/calc", "/p/calc.c"]));
    assert_eq!(c.working_directory, None);
    assert_eq!(c.runnable, "/p/calc");
    assert_eq!(c.tool, "gcc");
    assert_eq!(c.language, "C");
    let cpp = command("src/calc.v2.cpp", &PACKAGE);
    assert_eq!(cpp.program, "g++");
    assert_eq!(cpp.args, strings(&["-o", "src/calc.v2", "src/calc.v2.cpp"]));
    assert_eq!(cpp.runnable, "src/calc.v2");
    assert_eq!(cpp.language, "C++");
    let bare = command("calc.cc", &SOURCE);
    assert_eq!(bare.args, strings(&["-o", "calc", "calc.cc"]));
    assert_eq!(bare.runnable, "calc");
}

#[test]
fn rust_is_built_by_the_package_or_as_a_single_file() {
    let package = command("/w/calc/main.rs", &PACKAGE);
    assert_eq!(package.program, "cargo");
    assert_eq!(package.args, strings(&["build", "--release"]));
    assert_eq!(package.working_directory, Some("/w/calc".to_string()));
    assert_eq!(package.runnable, "/w/calc/target/release/calc");
    assert_eq!(package.language, "Rust com cargo");
    let rootless = command("main.rs", &PACKAGE);
    assert_eq!(rootless.working_directory, None);
    assert_eq!(rootless.runnable, "target/release/program");
    let at_root = command("/main.rs", &PACKAGE);
    assert_eq!(at_root.working_directory, Some("/".to_string()));
    assert_eq!(at_root.runnable, "/target/release/program");
    let single = command("/w/calc/main.rs", &SOURCE);
    assert_eq!(single.program, "rustc");
    assert_eq!(single.args, strings(&["-o", "/w/calc/main", "/w/calc/main.rs"]));
    assert_eq!(single.runnable, "/w/calc/main");
    assert_eq!(single.language, "Rust");
    assert_eq!(ProjectService::manifest_path("/w/calc/main.rs"), "/w/calc/Cargo.toml");
    assert_eq!(ProjectService::manifest_path("main.rs"), "Cargo.toml");
}

#[test]
fn go_and_java_have_their_own_calls() {
    let go = command("/p/calc.go", &SOURCE);
    assert_eq!(go.program, "go");
    assert_eq!(go.args, strings(&["build", "-o", "/p/calc", "/p/calc.go"]));
    assert_eq!(go.runnable, "/p/calc");
    assert_eq!(go.tool, "go build");
    assert_eq!(go.language, "Go");
    let java = command("/p/Calc.java", &SOURCE);
    assert_eq!(java.program, "javac");
    assert_eq!(java.args, strings(&["/p/Calc.java"]));
    assert_eq!(java.working_directory, Some("/p".to_string()));
    assert_eq!(java.runnable, "java Calc");
    assert_eq!(java.language, "Java");
}

#[test]
fn a_build_ends_with_the_runnable_command_or_an_error() {
    let c = command("/p/calc.c", &SOURCE);
    let done = BuildOutcome::Finished { success: true, diagnostics: "warning".to_string() };
    assert_eq!(ProjectService::conclude_build(&c, done), Ok("/p/calc".to_string()));
    let broken = BuildOutcome::Finished { success: false, diagnostics: "calc.c:1: error".to_string() };
    let error = ProjectService::conclude_build(&c, broken).unwrap_err();
    assert_eq!(
        error,
        BuildError::CompilationFailed {
            language: "C".to_string(),
            diagnostics: "calc.c:1: error".to_string()
        }
    );
    assert_eq!(error.message(), "Erro na compilação C: calc.c:1: error");
    let absent = BuildOutcome::NotStarted("No such file or directory".to_string());
    let error = ProjectService::conclude_build(&command("/p/calc.go", &SOURCE), absent).unwrap_err();
    assert_eq!(error.message(), "Erro ao executar go build: No such file or directory");
}

#[test]
fn both_sides_are_planned_legacy_first() {
    let missing = SourceProbe { exists: false, executable: false, has_manifest: false };
    let both = ProjectService::ensure_both_executables("/o/calc.c", &SOURCE, "/n/calc.py", &SOURCE);
    let (legacy, new) = both.unwrap();
    assert!(matches!(legacy, BuildPlan::Compile(_)));
    assert_eq!(new, BuildPlan::Ready("/n/calc.py".to_string()));
    let first = ProjectService::ensure_both_executables("/o/calc.c", &missing, "/n/calc.py", &missing);
    assert_eq!(first.unwrap_err(), BuildError::SourceMissing("/o/calc.c".to_string()));
    let second = ProjectService::ensure_both_executables("/o/calc.c", &SOURCE, "/n/calc.py", &missing);
    assert_eq!(second.unwrap_err(), BuildError::SourceMissing("/n/calc.py".to_string()));
}

#[test]
fn shebang_and_executable_extension_are_recognised() {
    assert!(ProjectService::has_shebang("#!/bin/sh\necho"));
    assert!(ProjectService::has_shebang("#!"));
    assert!(!ProjectService::has_shebang("#"));
    assert!(!ProjectService::has_shebang(" #!/bin/sh"));
    assert!(!ProjectService::has_shebang(""));
    assert!(ProjectService::has_executable_extension("C:\\calc.EXE"));
    assert!(ProjectService::has_executable_extension("calc.exe"));
    assert!(!ProjectService::has_executable_extension("calc.exe.txt"));
}
