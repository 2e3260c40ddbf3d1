use parity_harness::errors::PathError;
use parity_harness::project::{PathKind, ProjectService, SourceFile};
use parity_harness::types::ProjectInfo;

fn project(id: &str) -> ProjectInfo {
    ProjectInfo {
        id: id.to_string(),
        name: format!("project {}", id),
        legacy_path: format!("/old/{}", id),
        new_path: format!("/new/{}", id),
        project_type: "terminal".to_string(),
    }
}

fn file(path: &str, content: &str) -> SourceFile {
    SourceFile { path: path.to_string(), content: content.to_string() }
}

#[test]
fn a_missing_root_fails_validation() {
    let p = project("a");
    let kinds = [PathKind::Missing, PathKind::File, PathKind::Directory];
    for other in kinds {
        assert_eq!(
            ProjectService::validate_project_paths(&p, PathKind::Missing, other),
            Err(PathError::LegacyMissing("/old/a".to_string()))
        );
    }
    for other in [PathKind::File, PathKind::Directory] {
        assert_eq!(
            ProjectService::validate_project_paths(&p, other, PathKind::Missing),
            Err(PathError::NewMissing("/new/a".to_string()))
        );
    }
}

#[test]
fn a_root_that_is_a_file_fails_validation() {
    let p = project("a");
    for other in [PathKind::File, PathKind::Directory] {
        assert_eq!(
            ProjectService::validate_project_paths(&p, PathKind::File, other),
            Err(PathError::LegacyNotDirectory("/old/a".to_string()))
        );
    }
    assert_eq!(
        ProjectService::validate_project_paths(&p, PathKind::Directory, PathKind::File),
        Err(PathError::NewNotDirectory("/new/a".to_string()))
    );
    assert_eq!(
        ProjectService::validate_project_paths(&p, PathKind::Directory, PathKind::Directory),
        Ok(())
    );
}

#[test]
fn path_errors_say_what_is_wrong() {
    assert_eq!(
        PathError::LegacyMissing("/o".to_string()).message(),
        "Diretório legado não encontrado: /o"
    );
    assert_eq!(
        PathError::NewMissing("/n".to_string()).message(),
        "Diretório novo não encontrado: /n"
    );
    assert_eq!(
        PathError::LegacyNotDirectory("/o".to_string()).message(),
        "Path legado não é um diretório: /o"
    );
    assert_eq!(
        PathError::NewNotDirectory("/n".to_string()).message(),
        "Path novo não é um diretório: /n"
    );
}

#[test]
fn a_project_is_found_by_its_id() {
    let mut second = project("b");
    second.name = "second b".to_string();
    let projects = vec![project("a"), project("b"), second, project("c")];
    assert_eq!(ProjectService::load_project("b", &projects), Some(project("b")));
    assert_eq!(ProjectService::load_project("c", &projects), Some(project("c")));
    assert_eq!(ProjectService::load_project("d", &projects), None);
    assert_eq!(ProjectService::load_project("a", &vec![]), None);
}

#[test]
fn source_code_is_gathered_under_headers() {
    let files = vec![
        file("/p/calc.c", "int main() {}"),
        file("/p/README.md", "read me"),
        file("/p/run.sh", "#!/bin/sh\n"),
    ];
    let code = ProjectService::read_project_code("/p", &files).unwrap();
    assert_eq!(
        code,
        "\n// === ARQUIVO: /p/calc.c ===\nint main() {}\n\n// === ARQUIVO: /p/run.sh ===\n#!/bin/sh\n\n"
    );
}

#[test]
fn a_project_without_source_code_cannot_be_read() {
    let files = vec![file("/p/README.md", "read me")];
    let error = ProjectService::read_project_code("/p", &files).unwrap_err();
    assert_eq!(error.project_path, "/p");
    assert!(ProjectService::read_project_code("/p", &vec![]).is_err());
    let empty = vec![file("/p/a.c", "")];
    assert_eq!(
        ProjectService::read_project_code("/p", &empty),
        Ok("\n// === ARQUIVO: /p/a.c ===\n\n".to_string())
    );
}

#[test]
fn both_sides_are_read_legacy_first() {
    let p = project("a");
    let legacy = vec![file("/old/a/x.c", "x")];
    let new = vec![file("/new/a/x.py", "y")];
    let (l, n) = ProjectService::read_both_project_codes(&p, &legacy, &new).unwrap();
    assert_eq!(l, "\n// === ARQUIVO: /old/a/x.c ===\nx\n");
    assert_eq!(n, "\n// === ARQUIVO: /new/a/x.py ===\ny\n");
    let none: Vec<SourceFile> = vec![];
    assert_eq!(
        ProjectService::read_both_project_codes(&p, &none, &none).unwrap_err().project_path,
        "/old/a"
    );
    assert_eq!(
        ProjectService::read_both_project_codes(&p, &legacy, &none).unwrap_err().project_path,
        "/new/a"
    );
}
