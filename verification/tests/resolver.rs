use parity_harness::project::ProjectService;
use parity_harness::resolver::{canonical_entry_points, is_source_file, EntryPointSearch};
use parity_harness::types::ProjectInfo;

fn score(name: &str) -> i32 {
    ProjectService::calculate_executable_score(name, &canonical_entry_points())
}

fn paths(items: &[&str]) -> Vec<String> {
    items.iter().map(|s| s.to_string()).collect()
}

#[test]
fn main_py_scores_well_above_the_threshold() {
    assert_eq!(score("main.py"), 180);
    assert_eq!(score("MAIN.PY"), 180);
    assert_eq!(score("Main.c"), 170);
}

#[test]
fn canonical_names_reach_the_threshold() {
    for name in ["main", "app", "index", "start", "run", "cli", "server", "client"] {
        assert!(score(&format!("{}.spec", name)) >= 90, "{}", name);
        assert!(score(name) >= 90, "{}", name);
    }
    for name in ["entry", "init", "application"] {
        assert!(score(&format!("{}.c", name)) >= 90, "{}", name);
    }
    assert_eq!(score("app.js"), 95 + 40 + 20 + 8);
    assert_eq!(score("client.c"), 65 + 40 + 20);
    assert_eq!(score("application.rb"), 40 + 40 + 20);
}

#[test]
fn some_canonical_names_stay_below_the_threshold() {
    assert_eq!(score("bootstrap.py"), 80);
    assert_eq!(score("program.c"), 65);
    assert_eq!(score("init.spec"), 75);
    assert_eq!(score("entry.test"), 80);
}

#[test]
fn each_rule_adds_what_it_says() {
    assert_eq!(score("util.py"), 30);
    assert_eq!(score("util.sh"), 35);
    assert_eq!(score("util.bash"), 35);
    assert_eq!(score("util.rs"), 32);
    assert_eq!(score("util.go"), 32);
    assert_eq!(score("util.ts"), 28);
    assert_eq!(score("util.c"), 20);
    assert_eq!(score("dir/util.c"), 0);
    assert_eq!(score("dir\\util.c"), 0);
    assert_eq!(score("test_main.py"), 50);
    assert_eq!(score("config.json"), 0);
    assert_eq!(score(".hidden"), 0);
    assert_eq!(score("myapp_runner.js"), 50 + 40 + 20 + 8);
    assert_eq!(score("reindex.c"), 30 + 20);
    assert_eq!(score("src/main.py"), 60);
}

#[test]
fn the_names_to_look_for_can_be_replaced() {
    assert_eq!(ProjectService::calculate_executable_score("tool.c", &["tool"]), 120);
    assert_eq!(ProjectService::calculate_executable_score("tool.c", &["x", "tool", "tool"]), 115);
    assert_eq!(ProjectService::calculate_executable_score("main.c", &[]), 70);
    let long: Vec<&str> = (0..30).map(|i| if i == 29 { "tool" } else { "x" }).collect();
    assert_eq!(ProjectService::calculate_executable_score("tool.c", &long), 0);
}

#[test]
fn the_entry_point_is_the_first_strong_candidate() {
    let files = paths(&["/p/util.py", "/p/src/app.js", "/p/main.py"]);
    let found = ProjectService::find_main_executable("/p", &files);
    assert_eq!(found.ok(), Some("/p/src/app.js".to_string()));
}

#[test]
fn without_a_strong_candidate_the_best_one_wins_and_the_first_of_equals() {
    let files = paths(&["/p/a.c", "/p/notes.txt", "/p/b.py", "/p/c.py", "/p/d.c"]);
    let found = ProjectService::find_main_executable("/p", &files);
    assert_eq!(found.ok(), Some("/p/b.py".to_string()));
    let weak = paths(&["/p/config.c", "/p/test.c"]);
    assert_eq!(ProjectService::find_main_executable("/p", &weak).ok(), Some("/p/config.c".to_string()));
}

#[test]
fn a_project_without_source_files_has_no_entry_point() {
    let files = paths(&["/p/README.md", "/p/Makefile", "/p/.py", "/p/main.go"]);
    let error = ProjectService::find_main_executable("/p", &files).unwrap_err();
    assert_eq!(error.project_path, "/p");
    assert_eq!(error.message(), "Nenhum arquivo de código encontrado em: /p");
    assert!(ProjectService::find_main_executable("/q", &vec![]).is_err());
}

#[test]
fn source_files_are_told_by_their_extension() {
    for ext in ["py", "js", "ts", "sh", "bash", "rb", "php", "java", "cpp", "c", "rs"] {
        assert!(is_source_file(&format!("/p/x.{}", ext)));
    }
    assert!(!is_source_file("/p/x.go"));
    assert!(!is_source_file("/p/x.PY"));
    assert!(!is_source_file("/p/x"));
    assert!(!is_source_file("/p.py/x"));
    assert!(!is_source_file("/p/.c"));
}

#[test]
fn both_sides_are_searched_legacy_first() {
    let project = ProjectInfo {
        id: "1".to_string(),
        name: "calc".to_string(),
        legacy_path: "/old".to_string(),
        new_path: "/new".to_string(),
        project_type: "terminal".to_string(),
    };
    let legacy = paths(&["/old/calc.c"]);
    let new = paths(&["/new/calc.py"]);
    let both = ProjectService::find_both_executables(&project, &legacy, &new);
    assert_eq!(both.ok(), Some(("/old/calc.c".to_string(), "/new/calc.py".to_string())));
    let none: Vec<String> = vec![];
    assert_eq!(ProjectService::find_both_executables(&project, &none, &new).unwrap_err().project_path, "/old");
    assert_eq!(ProjectService::find_both_executables(&project, &legacy, &none).unwrap_err().project_path, "/new");
}

#[test]
fn the_root_bonus_goes_to_files_directly_in_the_root() {
    let down = paths(&["/p/helper.py", "/p/sub/util.sh"]);
    assert_eq!(ProjectService::find_main_executable("/p", &down).ok(), Some("/p/helper.py".to_string()));
    let up = paths(&["/p/sub/util.sh", "/p/helper.py"]);
    assert_eq!(ProjectService::find_main_executable("/p", &up).ok(), Some("/p/helper.py".to_string()));
    assert_eq!(ProjectService::score_candidate("/p", "/p/helper.py"), 30);
    assert_eq!(ProjectService::score_candidate("/p", "/p/sub/util.sh"), 15);
    assert_eq!(ProjectService::score_candidate("/p/", "/p/helper.py"), 30);
    assert_eq!(ProjectService::score_candidate("/p/", "/p/sub/util.sh"), 15);
    assert_eq!(ProjectService::score_candidate(".", "./helper.py"), 30);
    assert_eq!(ProjectService::score_candidate(".", "./sub/helper.py"), 10);
    assert_eq!(ProjectService::score_candidate("", "helper.py"), 30);
    assert_eq!(ProjectService::score_candidate("", "sub/helper.py"), 10);
    assert_eq!(ProjectService::score_candidate("/p", "/pq/helper.py"), 10);
    assert_eq!(ProjectService::score_candidate("/p", "/p/sub/main.py"), 160);
    assert_eq!(ProjectService::score_candidate("/p", "/p/sub/cli.rb"), 115);
    assert_eq!(ProjectService::score_candidate("/p", "/p/sub/init.c"), 85);
    assert_eq!(ProjectService::score_candidate("/p", "/p/init.c"), 105);
}

#[test]
fn a_nested_file_wins_only_by_its_own_name() {
    let files = paths(&["/p/sub/init.c", "/p/helper.py", "/p/sub/deep/cli.py"]);
    assert_eq!(
        ProjectService::find_main_executable("/p", &files).ok(),
        Some("/p/sub/deep/cli.py".to_string())
    );
    let weak = paths(&["/p/sub/init.c", "/p/helper.py"]);
    assert_eq!(
        ProjectService::find_main_executable("/p", &weak).ok(),
        Some("/p/sub/init.c".to_string())
    );
}

#[test]
fn a_lowered_name_is_scored_by_the_rules_alone() {
    let names = canonical_entry_points();
    assert_eq!(ProjectService::score_lowered_name("main.py", true, &names), 180);
    assert_eq!(ProjectService::score_lowered_name("main.py", false, &names), 160);
    assert_eq!(ProjectService::score_lowered_name("MAIN.PY", true, &names), 20);
    assert_eq!(ProjectService::score_lowered_name("bootstrap.sh", true, &names), 85);
    assert_eq!(ProjectService::score_lowered_name("program.py", true, &names), 75);
    assert_eq!(ProjectService::score_lowered_name("entry.test", true, &names), 80);
    assert_eq!(ProjectService::score_lowered_name("config.json", false, &names), 0);
    assert_eq!(ProjectService::score_lowered_name("", true, &names), 20);
}

#[test]
fn a_search_takes_files_one_by_one_and_settles_at_a_strong_candidate() {
    let search = EntryPointSearch::new("/p");
    assert!(!search.is_settled());
    let search = search.offer("/p/README.md").offer("/p/sub/util.sh").offer("/p/helper.py");
    assert!(!search.is_settled());
    assert_eq!(search.best, Some(("/p/helper.py".to_string(), 30)));
    let search = search.offer("/p/other.py");
    assert_eq!(search.best, Some(("/p/helper.py".to_string(), 30)));
    let search = search.offer("/p/app.py");
    assert!(search.is_settled());
    assert_eq!(search.best, Some(("/p/app.py".to_string(), 165)));
    let search = search.offer("/p/main.py");
    assert_eq!(search.best, Some(("/p/app.py".to_string(), 165)));
    assert_eq!(search.finish(), Ok("/p/app.py".to_string()));
    let none = EntryPointSearch::new("/q").offer("/q/notes.txt").finish();
    assert_eq!(none.unwrap_err().project_path, "/q");
}
