//! Project pairs: looking one up, checking its two roots, and gathering the
//! source code of a project into one text.

use crate::engine::same_text;
use crate::errors::{DiscoveryError, PathError};
use crate::resolver::{is_candidate, is_source_file};
use crate::types::ProjectInfo;
use vstd::prelude::*;

verus! {

/// The operations on project pairs. It holds no state.
pub struct ProjectService;

/// What stands at a path.
#[derive(Clone, Copy, Debug, PartialEq, Eq, Structural)]
pub enum PathKind {
    Missing,
    File,
    Directory,
}

/// A source file that was read: where it is and what it holds.
#[derive(Debug, PartialEq, Eq)]
pub struct SourceFile {
    pub path: String,
    pub content: String,
}

pub struct SourceFileView {
    pub path: Seq<char>,
    pub content: Seq<char>,
}

impl View for SourceFile {
    type V = SourceFileView;

    open spec fn view(&self) -> SourceFileView {
        SourceFileView { path: self.path@, content: self.content@ }
    }
}

pub open spec fn file_views(files: Seq<SourceFile>) -> Seq<SourceFileView> {
    Seq::new(files.len(), |i: int| files[i]@)
}

/// One file in the gathered text: a header line that names it, then what it
/// holds, then a line feed.
pub open spec fn section_of(file: SourceFileView) -> Seq<char> {
    "\n// === ARQUIVO: "@ + file.path + " ===\n"@ + file.content + "\n"@
}

/// The sections of the files that hold source code, in the files' order.
pub open spec fn gathered(files: Seq<SourceFileView>) -> Seq<char>
    decreases files.len(),
{
    if files.len() == 0 {
        Seq::empty()
    } else if is_candidate(files.last().path) {
        gathered(files.drop_last()) + section_of(files.last())
    } else {
        gathered(files.drop_last())
    }
}

/// The first position at or after `from` of a project with the given id, or
/// the length of `projects` where there is none.
pub open spec fn position_of(projects: Seq<ProjectInfo>, id: Seq<char>, from: int) -> int
    decreases projects.len() - from,
{
    if 0 <= from < projects.len() && projects[from].id@ != id {
        position_of(projects, id, from + 1)
    } else {
        from
    }
}

impl ProjectService {
    /// The first of `projects` with the given id.
    pub fn load_project(project_id: &str, projects: &Vec<ProjectInfo>) -> (r: Option<ProjectInfo>)
        ensures
            match r {
                Some(p) => position_of(projects@, project_id@, 0) < projects@.len() && p@
                    == projects@[position_of(projects@, project_id@, 0)]@,
                None => position_of(projects@, project_id@, 0) >= projects@.len(),
            },
    {
        let mut i: usize = 0;
        while i < projects.len()
            invariant
                i <= projects.len(),
                position_of(projects@, project_id@, i as int) == position_of(
                    projects@,
                    project_id@,
                    0,
                ),
            decreases projects.len() - i,
        {
            if same_text(projects[i].id.as_str(), project_id) {
                return Some(projects[i].clone());
            }
            i += 1;
        }
        None
    }

    /// Whether the two roots of `project` are directories, given what stands
    /// at each. A missing root is reported before a root that is a file, and
    /// the legacy root before the new one.
    pub fn validate_project_paths(project: &ProjectInfo, legacy: PathKind, new: PathKind) -> (r:
        Result<(), PathError>)
        ensures
            match r {
                Ok(_) => legacy == PathKind::Directory && new == PathKind::Directory,
                Err(PathError::LegacyMissing(p)) => legacy == PathKind::Missing && p@
                    == project.legacy_path@,
                Err(PathError::NewMissing(p)) => legacy != PathKind::Missing && new
                    == PathKind::Missing && p@ == project.new_path@,
                Err(PathError::LegacyNotDirectory(p)) => legacy == PathKind::File && new
                    != PathKind::Missing && p@ == project.legacy_path@,
                Err(PathError::NewNotDirectory(p)) => legacy == PathKind::Directory && new
                    == PathKind::File && p@ == project.new_path@,
            },
            (legacy == PathKind::Missing || new == PathKind::Missing) ==> r is Err,
    {
        match legacy {
            PathKind::Missing => {
                return Err(PathError::LegacyMissing(project.legacy_path.clone()));
            },
            _ => {},
        }
        match new {
            PathKind::Missing => {
                return Err(PathError::NewMissing(project.new_path.clone()));
            },
            _ => {},
        }
        match legacy {
            PathKind::File => {
                return Err(PathError::LegacyNotDirectory(project.legacy_path.clone()));
            },
            _ => {},
        }
        match new {
            PathKind::File => Err(PathError::NewNotDirectory(project.new_path.clone())),
            _ => Ok(()),
        }
    }

    /// The source code of a project as one text, from the files that were
    /// read under `project_path`. Files that hold no source code are passed
    /// over; a project without any source code is an error.
    pub fn read_project_code(project_path: &str, files: &Vec<SourceFile>) -> (r: Result<
        String,
        DiscoveryError,
    >)
        ensures
            match r {
                Ok(code) => code@ == gathered(file_views(files@)) && code@.len() > 0,
                Err(e) => gathered(file_views(files@)).len() == 0 && e.project_path@
                    == project_path@,
            },
    {
        let mut code = String::new();
        let mut empty = true;
        let mut i: usize = 0;
        while i < files.len()
            invariant
                i <= files.len(),
                code@ == gathered(file_views(files@).take(i as int)),
                empty == (code@.len() == 0),
            decreases files.len() - i,
        {
            proof {
                let next = file_views(files@).take(i + 1);
                assert(next.drop_last() =~= file_views(files@).take(i as int));
                assert(next.last() == files@[i as int]@);
            }
            if is_source_file(files[i].path.as_str()) {
                proof {
                    reveal_strlit("\n");
                }
                let ghost before = code@;
                code.append("\n// === ARQUIVO: ");
                code.append(files[i].path.as_str());
                code.append(" ===\n");
                code.append(files[i].content.as_str());
                code.append("\n");
                assert(code@ =~= before + section_of(files@[i as int]@));
                empty = false;
            }
            i += 1;
        }
        assert(file_views(files@).take(files@.len() as int) =~= file_views(files@));
        if empty {
            Err(DiscoveryError { project_path: project_path.to_owned() })
        } else {
            Ok(code)
        }
    }

    /// The source code of the two sides of `project`, the legacy side first.
    pub fn read_both_project_codes(
        project: &ProjectInfo,
        legacy_files: &Vec<SourceFile>,
        new_files: &Vec<SourceFile>,
    ) -> (r: Result<(String, String), DiscoveryError>)
        ensures
            match r {
                Ok(codes) => codes.0@ == gathered(file_views(legacy_files@)) && codes.0@.len() > 0
                    && codes.1@ == gathered(file_views(new_files@)) && codes.1@.len() > 0,
                Err(e) => if gathered(file_views(legacy_files@)).len() == 0 {
                    e.project_path@ == project.legacy_path@
                } else {
                    gathered(file_views(new_files@)).len() == 0 && e.project_path@
                        == project.new_path@
                },
            },
    {
        let legacy = match Self::read_project_code(project.legacy_path.as_str(), legacy_files) {
            Ok(code) => code,
            Err(e) => {
                return Err(e);
            },
        };
        match Self::read_project_code(project.new_path.as_str(), new_files) {
            Ok(code) => Ok((legacy, code)),
            Err(e) => Err(e),
        }
    }
}

} // verus!
