//! Finding the entry point of a project among its source files.
//!
//! Every file with a known source extension is a candidate and gets a score
//! from its name and from where it lies: a file directly in the project root
//! earns a bonus that a file further down does not. The first candidate that
//! scores 90 or more is taken at once; failing that, the candidate with the
//! highest score, and of several the one that came first.

use crate::errors::DiscoveryError;
use crate::paths::{
    extension, extension_of, file_name, file_name_of, lemma_last_position_bounds,
};
use crate::project::ProjectService;
use crate::text::{
    chars_of, contains, contains_text, ends_with, has_char, has_prefix, has_suffix, last_index,
    last_position, lowercase_of, occurs_at, same, slice, slice_texts, starts_with, string_of,
    texts,
};
use crate::types::ProjectInfo;
use vstd::prelude::*;

verus! {

/// The score from which on a candidate is taken without looking further.
pub const SHORT_CIRCUIT_SCORE: i32 = 90;

/// The names that entry points usually have, the likeliest first.
pub open spec fn canonical_names() -> Seq<Seq<char>> {
    seq![
        "main"@,
        "app"@,
        "index"@,
        "start"@,
        "run"@,
        "cli"@,
        "server"@,
        "client"@,
        "entry"@,
        "init"@,
        "bootstrap"@,
        "program"@,
        "application"@,
    ]
}

/// Whether files with this extension hold source code.
pub open spec fn is_source_extension(ext: Seq<char>) -> bool {
    ||| ext == "py"@
    ||| ext == "js"@
    ||| ext == "ts"@
    ||| ext == "sh"@
    ||| ext == "bash"@
    ||| ext == "rb"@
    ||| ext == "php"@
    ||| ext == "java"@
    ||| ext == "cpp"@
    ||| ext == "c"@
    ||| ext == "rs"@
}

/// Whether the file at `path` is a candidate.
pub open spec fn is_candidate(path: Seq<char>) -> bool {
    is_source_extension(extension_of(file_name_of(path)))
}

/// The first position at or after `from` where `names` holds `stem`, or a
/// position past the end of `names` if there is none.
pub open spec fn first_match(names: Seq<Seq<char>>, stem: Seq<char>, from: int) -> int
    decreases names.len() - from,
{
    if 0 <= from < names.len() && names[from] != stem {
        first_match(names, stem, from + 1)
    } else {
        from
    }
}

/// A lowercased name without its last dot and what follows it.
pub open spec fn base_name(lower: Seq<char>) -> Seq<char> {
    let dot = last_position(lower, '.', lower.len() as int);
    if dot >= 0 {
        lower.subrange(0, dot)
    } else {
        lower
    }
}

/// 100 for the first of `names`, 5 less for each place further down, and
/// nothing for a name that is not among them.
pub open spec fn exact_bonus(names: Seq<Seq<char>>, base: Seq<char>) -> int {
    let rank = first_match(names, base, 0);
    if rank < names.len() {
        100 - 5 * rank
    } else {
        0
    }
}

pub open spec fn keyword_bonus(lower: Seq<char>) -> int {
    (if contains_text(lower, "main"@) || contains_text(lower, "start"@) || contains_text(
        lower,
        "run"@,
    ) {
        50int
    } else {
        0
    }) + (if contains_text(lower, "app"@) || contains_text(lower, "cli"@) || contains_text(
        lower,
        "server"@,
    ) {
        40int
    } else {
        0
    }) + (if contains_text(lower, "index"@) || contains_text(lower, "entry"@) || contains_text(
        lower,
        "init"@,
    ) {
        30int
    } else {
        0
    })
}

/// Whether a name holds no path separator, `/` or `\\`.
pub open spec fn has_no_separator(name: Seq<char>) -> bool {
    !name.contains('/') && !name.contains('\\')
}

/// 20 for a file that lies directly in the project root.
pub open spec fn root_bonus(in_root: bool) -> int {
    if in_root {
        20
    } else {
        0
    }
}

/// Whether a lowercased name looks like a configuration file, a test or a
/// hidden file.
pub open spec fn is_penalised(lower: Seq<char>) -> bool {
    ||| contains_text(lower, "config"@)
    ||| contains_text(lower, "test"@)
    ||| contains_text(lower, "spec"@)
    ||| starts_with(lower, "."@)
}

pub open spec fn penalty(lower: Seq<char>) -> int {
    if is_penalised(lower) {
        30
    } else {
        0
    }
}

pub open spec fn extension_bonus(lower: Seq<char>) -> int {
    (if ends_with(lower, ".py"@) {
        10int
    } else {
        0
    }) + (if ends_with(lower, ".js"@) || ends_with(lower, ".ts"@) {
        8int
    } else {
        0
    }) + (if ends_with(lower, ".sh"@) || ends_with(lower, ".bash"@) {
        15int
    } else {
        0
    }) + (if ends_with(lower, ".rs"@) {
        12int
    } else {
        0
    }) + (if ends_with(lower, ".go"@) {
        12int
    } else {
        0
    })
}

/// The sum of the bonuses of a lowercased name, less its penalty.
pub open spec fn lowered_raw_score(lower: Seq<char>, in_root: bool, names: Seq<Seq<char>>) -> int {
    exact_bonus(names, base_name(lower)) + keyword_bonus(lower) + root_bonus(in_root) - penalty(
        lower,
    ) + extension_bonus(lower)
}

/// The score of a lowercased name, in the project root or not: the sum of
/// its bonuses less its penalty, or 0 where that is negative.
pub open spec fn lowered_score(lower: Seq<char>, in_root: bool, names: Seq<Seq<char>>) -> int {
    if lowered_raw_score(lower, in_root, names) < 0 {
        0
    } else {
        lowered_raw_score(lower, in_root, names)
    }
}

/// The score of a name as it is given: the name counts as lying in the root
/// where it holds no path separator.
pub open spec fn executable_score(file_name: Seq<char>, names: Seq<Seq<char>>) -> int {
    lowered_score(lowercase_of(file_name), has_no_separator(file_name), names)
}

/// The path of a file as seen from the project root: the path without the
/// root and the separator after it. A path that does not lie under the root
/// stands as it is.
pub open spec fn relative_name(root: Seq<char>, path: Seq<char>) -> Seq<char> {
    if root.len() == 0 || !starts_with(path, root) {
        path
    } else if root.last() == '/' {
        path.subrange(root.len() as int, path.len() as int)
    } else if path.len() > root.len() && path[root.len() as int] == '/' {
        path.subrange(root.len() as int + 1, path.len() as int)
    } else {
        path
    }
}

/// Whether the file at `path` lies directly in the project root.
pub open spec fn lies_in_root(root: Seq<char>, path: Seq<char>) -> bool {
    has_no_separator(relative_name(root, path))
}

/// The score of the candidate at `path` in the project at `root`, by the
/// canonical names: the name of the file decides all but the root bonus,
/// which goes to the files directly in the root.
pub open spec fn candidate_score(root: Seq<char>, path: Seq<char>) -> int {
    lowered_score(lowercase_of(file_name_of(path)), lies_in_root(root, path), canonical_names())
}

/// Whether the file at position `i` is the entry point among `files`: it is
/// the first candidate that scores 90 or more, or no candidate scores that
/// much and none scores more than it, nor as much before it.
pub open spec fn is_entry_point(root: Seq<char>, files: Seq<Seq<char>>, i: int) -> bool {
    &&& 0 <= i < files.len()
    &&& is_candidate(files[i])
    &&& forall|j: int|
        0 <= j < i && is_candidate(#[trigger] files[j]) ==> candidate_score(root, files[j]) < 90
            && candidate_score(root, files[j]) < candidate_score(root, files[i])
    &&& candidate_score(root, files[i]) < 90 ==> forall|j: int|
        i < j < files.len() && is_candidate(#[trigger] files[j]) ==> candidate_score(
            root,
            files[j],
        ) <= candidate_score(root, files[i])
}

/// A search for the entry point under way: the best candidate so far with
/// its score, and whether the search is settled by a candidate that scored
/// 90 or more.
#[derive(Debug, PartialEq, Eq)]
pub struct EntryPointSearch {
    pub project_path: String,
    pub best: Option<(String, i32)>,
    pub settled: bool,
}

pub struct EntryPointSearchView {
    pub project_path: Seq<char>,
    pub best: Option<(Seq<char>, int)>,
    pub settled: bool,
}

impl View for EntryPointSearch {
    type V = EntryPointSearchView;

    open spec fn view(&self) -> EntryPointSearchView {
        EntryPointSearchView {
            project_path: self.project_path@,
            best: match self.best {
                Some(b) => Some((b.0@, b.1 as int)),
                None => None,
            },
            settled: self.settled,
        }
    }
}

/// A search that has seen no file yet.
pub open spec fn search_begun(root: Seq<char>) -> EntryPointSearchView {
    EntryPointSearchView { project_path: root, best: None, settled: false }
}

/// Whether a score is higher than that of the best candidate so far; any
/// score is where there is no candidate yet.
pub open spec fn beats_the_best(search: EntryPointSearchView, score: int) -> bool {
    match search.best {
        Some(best) => score > best.1,
        None => true,
    }
}

/// The search after one more file. A settled search takes no further file;
/// a file that is no candidate changes nothing; a candidate that scores 90
/// or more settles the search; any other candidate becomes the best one
/// where it scores more than the best so far.
pub open spec fn offered(search: EntryPointSearchView, path: Seq<char>) -> EntryPointSearchView {
    let score = candidate_score(search.project_path, path);
    if search.settled || !is_candidate(path) {
        search
    } else if score >= 90 {
        EntryPointSearchView { best: Some((path, score)), settled: true, ..search }
    } else if beats_the_best(search, score) {
        EntryPointSearchView { best: Some((path, score)), ..search }
    } else {
        search
    }
}

/// The search after the given files, in order.
pub open spec fn searched(root: Seq<char>, files: Seq<Seq<char>>) -> EntryPointSearchView
    decreases files.len(),
{
    if files.len() == 0 {
        search_begun(root)
    } else {
        offered(searched(root, files.drop_last()), files.last())
    }
}

/// The file that a search has found, if it has found one.
pub open spec fn found_by(search: EntryPointSearchView) -> Option<Seq<char>> {
    match search.best {
        Some(b) => Some(b.0),
        None => None,
    }
}

/// A search that is settled stays as it is, whatever files follow.
pub proof fn lemma_settled_search_stays(root: Seq<char>, files: Seq<Seq<char>>, k: int)
    requires
        0 <= k <= files.len(),
        searched(root, files.take(k)).settled,
    ensures
        searched(root, files) == searched(root, files.take(k)),
    decreases files.len() - k,
{
    if k < files.len() {
        assert(files.take(k + 1).drop_last() =~= files.take(k));
        assert(files.take(k + 1).last() == files[k]);
        lemma_settled_search_stays(root, files, k + 1);
    } else {
        assert(files.take(k) =~= files);
    }
}

/// A lowercased name starts with its base name.
pub proof fn lemma_base_name_is_prefix(lower: Seq<char>)
    ensures
        occurs_at(lower, base_name(lower), 0),
{
    lemma_last_position_bounds(lower, '.', lower.len() as int);
    assert(lower.subrange(0, lower.len() as int) =~= lower);
}

/// A name holds every word with which its base name starts.
pub proof fn lemma_prefix_of_base_is_contained(lower: Seq<char>, word: Seq<char>)
    requires
        occurs_at(base_name(lower), word, 0),
    ensures
        contains_text(lower, word),
{
    lemma_base_name_is_prefix(lower);
    let base = base_name(lower);
    assert(lower.subrange(0, word.len() as int) =~= base.subrange(0, word.len() as int));
    assert(occurs_at(lower, word, 0));
}

/// Each canonical name stands at its own rank and nowhere before it.
pub proof fn lemma_canonical_rank(rank: int)
    requires
        0 <= rank < canonical_names().len(),
    ensures
        first_match(canonical_names(), canonical_names()[rank], 0) == rank,
{
    reveal_strlit("main");
    reveal_strlit("app");
    reveal_strlit("index");
    reveal_strlit("start");
    reveal_strlit("run");
    reveal_strlit("cli");
    reveal_strlit("server");
    reveal_strlit("client");
    reveal_strlit("entry");
    reveal_strlit("init");
    reveal_strlit("bootstrap");
    reveal_strlit("program");
    reveal_strlit("application");
    let names = canonical_names();
    assert forall|i: int, j: int| 0 <= i < j < names.len() implies names[i] != names[j] by {
        assert(names[i].len() != names[j].len() || names[i][0] != names[j][0] || names[i][1]
            != names[j][1] || names[i][2] != names[j][2]);
    }
    lemma_first_match_at(names, names[rank], 0, rank);
}

/// Where `stem` stands at `rank` and nowhere from `from` up to it, the first
/// match from `from` on is `rank`.
pub proof fn lemma_first_match_at(names: Seq<Seq<char>>, stem: Seq<char>, from: int, rank: int)
    requires
        0 <= from <= rank < names.len(),
        names[rank] == stem,
        forall|i: int| from <= i < rank ==> names[i] != stem,
    ensures
        first_match(names, stem, from) == rank,
    decreases rank - from,
{
    if from < rank {
        lemma_first_match_at(names, stem, from + 1, rank);
    }
}

/// What the canonical name at `rank` earns by the words it holds.
pub open spec fn own_keyword_bonus(rank: int) -> int {
    if rank == 0 || rank == 3 || rank == 4 {
        50
    } else if rank == 1 || rank == 5 || rank == 6 || rank == 7 || rank == 12 {
        40
    } else if rank == 2 || rank == 8 || rank == 9 {
        30
    } else {
        0
    }
}

/// A name whose base name is canonical earns at least what that canonical
/// name earns by the words it holds.
pub proof fn lemma_canonical_keyword_bonus(lower: Seq<char>, rank: int)
    requires
        0 <= rank < canonical_names().len(),
        base_name(lower) == canonical_names()[rank],
    ensures
        keyword_bonus(lower) >= own_keyword_bonus(rank),
{
    reveal_strlit("main");
    reveal_strlit("app");
    reveal_strlit("index");
    reveal_strlit("start");
    reveal_strlit("run");
    reveal_strlit("cli");
    reveal_strlit("server");
    reveal_strlit("client");
    reveal_strlit("entry");
    reveal_strlit("init");
    reveal_strlit("application");
    let base = base_name(lower);
    let word = if rank == 7 {
        "cli"@
    } else if rank == 12 {
        "app"@
    } else {
        base
    };
    if rank != 10 && rank != 11 {
        assert(base.subrange(0, word.len() as int) =~= word);
        lemma_prefix_of_base_is_contained(lower, word);
    }
}

/// A name whose lowercase form, less its extension, is a canonical
/// entry-point name scores at least what the rank of that name, the words in
/// it and its place give, less the penalty. Directly in the project root
/// that is 90 or more, so that the search stops at the file, for the names
/// `main` to `client` in every case, and for `entry`, `init` and
/// `application` where the name is not penalised; for the names `main` to
/// `run` it is 90 or more wherever the file lies.
pub proof fn lemma_canonical_names_short_circuit(lower: Seq<char>, in_root: bool, rank: int)
    requires
        0 <= rank < canonical_names().len(),
        base_name(lower) == canonical_names()[rank],
    ensures
        lowered_score(lower, in_root, canonical_names()) >= 100 - 5 * rank + own_keyword_bonus(rank)
            + root_bonus(in_root) - penalty(lower),
        in_root && rank <= 7 ==> lowered_score(lower, in_root, canonical_names()) >= 90,
        in_root && (rank == 8 || rank == 9 || rank == 12) && !is_penalised(lower) ==> lowered_score(
            lower,
            in_root,
            canonical_names(),
        ) >= 90,
        rank <= 4 ==> lowered_score(lower, in_root, canonical_names()) >= 90,
{
    lemma_canonical_rank(rank);
    lemma_canonical_keyword_bonus(lower, rank);
    assert(exact_bonus(canonical_names(), base_name(lower)) == 100 - 5 * rank);
    assert(extension_bonus(lower) >= 0);
}

/// A candidate directly in the project root whose name is canonical is
/// scored as the law of the canonical names says.
pub proof fn lemma_root_candidate_score(root: Seq<char>, path: Seq<char>, rank: int)
    requires
        0 <= rank < canonical_names().len(),
        base_name(lowercase_of(file_name_of(path))) == canonical_names()[rank],
        lies_in_root(root, path),
    ensures
        rank <= 7 ==> candidate_score(root, path) >= 90,
        (rank == 8 || rank == 9 || rank == 12) && !is_penalised(lowercase_of(file_name_of(path)))
            ==> candidate_score(root, path) >= 90,
{
    lemma_canonical_names_short_circuit(lowercase_of(file_name_of(path)), true, rank);
}

fn first_match_index(names: &[&str], base: &Vec<char>) -> (rank: usize)
    ensures
        rank == first_match(slice_texts(names@), base@, 0),
        rank <= names.len(),
{
    let mut rank: usize = 0;
    while rank < names.len()
        invariant
            rank <= names.len(),
            first_match(slice_texts(names@), base@, rank as int) == first_match(
                slice_texts(names@),
                base@,
                0,
            ),
        decreases names.len() - rank,
    {
        let name = chars_of(names[rank]);
        if same(&name, base) {
            return rank;
        }
        rank += 1;
    }
    rank
}

fn source_extension(ext: &Vec<char>) -> (r: bool)
    ensures
        r == is_source_extension(ext@),
{
    same(ext, &chars_of("py")) || same(ext, &chars_of("js")) || same(ext, &chars_of("ts")) || same(
        ext,
        &chars_of("sh"),
    ) || same(ext, &chars_of("bash")) || same(ext, &chars_of("rb")) || same(ext, &chars_of("php"))
        || same(ext, &chars_of("java")) || same(ext, &chars_of("cpp")) || same(ext, &chars_of("c"))
        || same(ext, &chars_of("rs"))
}

fn exact_points(names: &[&str], lower: &Vec<char>) -> (r: i128)
    ensures
        r == exact_bonus(slice_texts(names@), base_name(lower@)),
        100 - 5 * usize::MAX <= r <= 100,
{
    let base = match last_index(lower, '.') {
        Some(dot) => slice(lower, 0, dot),
        None => {
            let all = slice(lower, 0, lower.len());
            assert(all@ =~= lower@);
            all
        },
    };
    let rank = first_match_index(names, &base);
    if rank < names.len() {
        100 - 5 * (rank as i128)
    } else {
        0
    }
}

fn keyword_points(lower: &Vec<char>) -> (r: i128)
    ensures
        r == keyword_bonus(lower@),
        0 <= r <= 120,
{
    let entry: i128 = if contains(lower, &chars_of("main")) || contains(lower, &chars_of("start"))
        || contains(lower, &chars_of("run")) {
        50
    } else {
        0
    };
    let program: i128 = if contains(lower, &chars_of("app")) || contains(lower, &chars_of("cli"))
        || contains(lower, &chars_of("server")) {
        40
    } else {
        0
    };
    let start: i128 = if contains(lower, &chars_of("index")) || contains(lower, &chars_of("entry"))
        || contains(lower, &chars_of("init")) {
        30
    } else {
        0
    };
    entry + program + start
}

fn penalty_points(lower: &Vec<char>) -> (r: i128)
    ensures
        r == penalty(lower@),
        0 <= r <= 30,
{
    if contains(lower, &chars_of("config")) || contains(lower, &chars_of("test")) || contains(
        lower,
        &chars_of("spec"),
    ) || has_prefix(lower, &chars_of(".")) {
        30
    } else {
        0
    }
}

fn extension_points(lower: &Vec<char>) -> (r: i128)
    ensures
        r == extension_bonus(lower@),
        0 <= r <= 57,
{
    let python: i128 = if has_suffix(lower, &chars_of(".py")) {
        10
    } else {
        0
    };
    let script: i128 = if has_suffix(lower, &chars_of(".js")) || has_suffix(
        lower,
        &chars_of(".ts"),
    ) {
        8
    } else {
        0
    };
    let shell: i128 = if has_suffix(lower, &chars_of(".sh")) || has_suffix(
        lower,
        &chars_of(".bash"),
    ) {
        15
    } else {
        0
    };
    let rust: i128 = if has_suffix(lower, &chars_of(".rs")) {
        12
    } else {
        0
    };
    let go: i128 = if has_suffix(lower, &chars_of(".go")) {
        12
    } else {
        0
    };
    python + script + shell + rust + go
}

/// Whether the file at `path` holds source code, by its extension.
pub fn is_source_file(path: &str) -> (r: bool)
    ensures
        r == is_candidate(path@),
{
    source_extension(&extension(&file_name(&chars_of(path))))
}

/// The canonical entry-point names, the likeliest first.
pub fn canonical_entry_points() -> (names: Vec<&'static str>)
    ensures
        slice_texts(names@) == canonical_names(),
{
    let names = vec![
        "main",
        "app",
        "index",
        "start",
        "run",
        "cli",
        "server",
        "client",
        "entry",
        "init",
        "bootstrap",
        "program",
        "application",
    ];
    assert(slice_texts(names@) =~= canonical_names());
    names
}

fn no_separator(name: &Vec<char>) -> (r: bool)
    ensures
        r == has_no_separator(name@),
{
    !has_char(name, '/') && !has_char(name, '\\')
}

fn in_root(root: &Vec<char>, path: &Vec<char>) -> (r: bool)
    ensures
        r == lies_in_root(root@, path@),
{
    if root.len() == 0 || !has_prefix(path, root) {
        return no_separator(path);
    }
    if root[root.len() - 1] == '/' {
        no_separator(&slice(path, root.len(), path.len()))
    } else if path.len() > root.len() && path[root.len()] == '/' {
        no_separator(&slice(path, root.len() + 1, path.len()))
    } else {
        no_separator(path)
    }
}

impl ProjectService {
    /// The score of a name that is in lowercase already, for a file that
    /// lies in the project root or does not, given the entry-point names to
    /// look for.
    pub fn score_lowered_name(lower: &str, in_root: bool, priority_names: &[&str]) -> (score: i32)
        ensures
            score == lowered_score(lower@, in_root, slice_texts(priority_names@)),
    {
        let lower = chars_of(lower);
        let exact = exact_points(priority_names, &lower);
        let keyword = keyword_points(&lower);
        let root: i128 = if in_root {
            20
        } else {
            0
        };
        let penalty = penalty_points(&lower);
        let extension = extension_points(&lower);
        let total: i128 = exact + keyword + root - penalty + extension;
        if total < 0 {
            0
        } else {
            total as i32
        }
    }

    /// The score of a name as it is given, whatever its case; the name counts
    /// as lying in the root where it holds no path separator.
    pub fn calculate_executable_score(file_name: &str, priority_names: &[&str]) -> (score: i32)
        ensures
            score == executable_score(file_name@, slice_texts(priority_names@)),
    {
        let lowered = file_name.to_lowercase();
        let alone = no_separator(&chars_of(file_name));
        Self::score_lowered_name(lowered.as_str(), alone, priority_names)
    }

    /// The score of the candidate at `path` in the project at `project_path`.
    pub fn score_candidate(project_path: &str, path: &str) -> (score: i32)
        ensures
            score == candidate_score(project_path@, path@),
    {
        let whole = chars_of(path);
        let name = string_of(&file_name(&whole));
        let lowered = name.as_str().to_lowercase();
        let names = canonical_entry_points();
        Self::score_lowered_name(
            lowered.as_str(),
            in_root(&chars_of(project_path), &whole),
            names.as_slice(),
        )
    }

    /// The entry point among `files`, the files found under `project_path` in
    /// the order in which they were found.
    pub fn find_main_executable(project_path: &str, files: &Vec<String>) -> (r: Result<
        String,
        DiscoveryError,
    >)
        ensures
            match r {
                Ok(path) => found_by(searched(project_path@, texts(files@))) == Some(path@)
                    && exists|i: int|
                    is_entry_point(project_path@, texts(files@), i) && path@ == (
                    #[trigger] files@[i])@,
                Err(e) => found_by(searched(project_path@, texts(files@))) is None
                    && e.project_path@ == project_path@ && forall|i: int|
                    0 <= i < files@.len() ==> !is_candidate((#[trigger] files@[i])@),
            },
    {
        let ghost root = project_path@;
        let ghost all = texts(files@);
        let ghost mut b: int = 0;
        let mut search = EntryPointSearch::new(project_path);
        let mut i: usize = 0;
        assert(all.take(0) =~= Seq::<Seq<char>>::empty());
        while i < files.len()
            invariant
                i <= files.len(),
                root == project_path@,
                all == texts(files@),
                search@ == searched(root, all.take(i as int)),
                search@.project_path == root,
                !search.settled,
                forall|j: int|
                    0 <= j < i && is_candidate(#[trigger] all[j]) ==> candidate_score(root, all[j])
                        < 90,
                match search@.best {
                    Some(best) => {
                        &&& 0 <= b < i
                        &&& best.0 == all[b]
                        &&& is_candidate(all[b])
                        &&& best.1 == candidate_score(root, all[b])
                        &&& forall|j: int|
                            0 <= j < b && is_candidate(#[trigger] all[j]) ==> candidate_score(
                                root,
                                all[j],
                            ) < best.1
                        &&& forall|j: int|
                            b < j < i && is_candidate(#[trigger] all[j]) ==> candidate_score(
                                root,
                                all[j],
                            ) <= best.1
                    },
                    None => forall|j: int| 0 <= j < i ==> !is_candidate(#[trigger] all[j]),
                },
            decreases files.len() - i,
        {
            let ghost before = search@;
            let ghost path = all[i as int];
            search = search.offer(files[i].as_str());
            proof {
                assert(path == files@[i as int]@);
                assert(all.take(i + 1).drop_last() =~= all.take(i as int));
                assert(all.take(i + 1).last() == path);
                assert(search@ == offered(before, path));
                if is_candidate(path) && candidate_score(root, path) < 90 && beats_the_best(
                    before,
                    candidate_score(root, path),
                ) {
                    b = i as int;
                }
            }
            if search.is_settled() {
                proof {
                    assert(is_candidate(path) && candidate_score(root, path) >= 90);
                    assert(is_entry_point(root, all, i as int));
                    lemma_settled_search_stays(root, all, i + 1);
                }
                return search.finish();
            }
            i += 1;
        }
        proof {
            assert(all.take(files@.len() as int) =~= all);
            assert(search@ == searched(root, all));
            if search@.best is Some {
                assert(is_entry_point(root, all, b));
                assert(all[b] == files@[b]@);
            }
        }
        let ghost last = search@;
        let r = search.finish();
        proof {
            if r is Ok {
                assert(r->Ok_0@ == files@[b]@);
            } else {
                assert forall|j: int| 0 <= j < files@.len() implies !is_candidate(
                    (#[trigger] files@[j])@,
                ) by {
                    assert(all[j] == files@[j]@);
                }
            }
        }
        r
    }

    /// The entry points of the two sides of `project`, the legacy side first.
    pub fn find_both_executables(
        project: &ProjectInfo,
        legacy_files: &Vec<String>,
        new_files: &Vec<String>,
    ) -> (r: Result<(String, String), DiscoveryError>)
        ensures
            match r {
                Ok(pair) => {
                    &&& found_by(searched(project.legacy_path@, texts(legacy_files@))) == Some(
                        pair.0@,
                    )
                    &&& found_by(searched(project.new_path@, texts(new_files@))) == Some(pair.1@)
                    &&& exists|i: int|
                        is_entry_point(project.legacy_path@, texts(legacy_files@), i) && pair.0@
                            == (#[trigger] legacy_files@[i])@
                    &&& exists|i: int|
                        is_entry_point(project.new_path@, texts(new_files@), i) && pair.1@ == (
                        #[trigger] new_files@[i])@
                },
                Err(e) => {
                    if forall|i: int|
                        0 <= i < legacy_files@.len() ==> !is_candidate(
                            (#[trigger] legacy_files@[i])@,
                        ) {
                        e.project_path@ == project.legacy_path@
                    } else {
                        &&& e.project_path@ == project.new_path@
                        &&& forall|i: int|
                            0 <= i < new_files@.len() ==> !is_candidate(
                                (#[trigger] new_files@[i])@,
                            )
                    }
                },
            },
    {
        let legacy = match Self::find_main_executable(project.legacy_path.as_str(), legacy_files) {
            Ok(path) => path,
            Err(e) => {
                return Err(e);
            },
        };
        match Self::find_main_executable(project.new_path.as_str(), new_files) {
            Ok(path) => Ok((legacy, path)),
            Err(e) => Err(e),
        }
    }
}

impl EntryPointSearch {
    /// A search that has seen no file yet.
    pub fn new(project_path: &str) -> (r: EntryPointSearch)
        ensures
            r@ == search_begun(project_path@),
    {
        EntryPointSearch { project_path: project_path.to_owned(), best: None, settled: false }
    }

    /// The search after one more file, in the order in which the files are
    /// found.
    pub fn offer(self, path: &str) -> (r: EntryPointSearch)
        ensures
            r@ == offered(self@, path@),
    {
        if self.settled || !is_source_file(path) {
            return self;
        }
        let score = ProjectService::score_candidate(self.project_path.as_str(), path);
        let better = match &self.best {
            Some(best) => score > best.1,
            None => true,
        };
        if score >= SHORT_CIRCUIT_SCORE {
            EntryPointSearch {
                project_path: self.project_path,
                best: Some((path.to_owned(), score)),
                settled: true,
            }
        } else if better {
            EntryPointSearch {
                project_path: self.project_path,
                best: Some((path.to_owned(), score)),
                settled: false,
            }
        } else {
            self
        }
    }

    /// Whether a candidate scored 90 or more, so that no further file need
    /// be looked at.
    pub fn is_settled(&self) -> (r: bool)
        ensures
            r == self@.settled,
    {
        self.settled
    }

    /// The entry point that the search found, or the error that the project
    /// holds no source file.
    pub fn finish(self) -> (r: Result<String, DiscoveryError>)
        ensures
            match r {
                Ok(path) => found_by(self@) == Some(path@),
                Err(e) => found_by(self@) is None && e.project_path@ == self@.project_path,
            },
    {
        match self.best {
            Some(best) => Ok(best.0),
            None => Err(DiscoveryError { project_path: self.project_path }),
        }
    }
}

} // verus!
