use parity_harness::paths::{
    directory, extension, file_name, join_path, stem, valid_file_name,
};
use parity_harness::text::{chars_of, string_of};

fn on(f: fn(&Vec<char>) -> Vec<char>, path: &str) -> String {
    string_of(&f(&chars_of(path)))
}

#[test]
fn a_path_parts_into_directory_and_file_name() {
    assert_eq!(on(file_name, "/p/src/main.c"), "main.c");
    assert_eq!(on(directory, "/p/src/main.c"), "/p/src");
    assert_eq!(on(file_name, "main.c"), "main.c");
    assert_eq!(on(directory, "main.c"), "");
    assert_eq!(on(file_name, "/main.c"), "main.c");
    assert_eq!(on(directory, "/main.c"), "/");
    assert_eq!(on(file_name, "dir/"), "");
    assert_eq!(on(directory, "dir/"), "dir");
}

#[test]
fn a_file_name_parts_into_stem_and_extension() {
    assert_eq!(on(stem, "main.c"), "main");
    assert_eq!(on(extension, "main.c"), "c");
    assert_eq!(on(stem, "archive.tar.gz"), "archive.tar");
    assert_eq!(on(extension, "archive.tar.gz"), "gz");
    assert_eq!(on(stem, ".bashrc"), ".bashrc");
    assert_eq!(on(extension, ".bashrc"), "");
    assert_eq!(on(stem, "Makefile"), "Makefile");
    assert_eq!(on(extension, "Makefile"), "");
    assert_eq!(on(stem, "name."), "name");
    assert_eq!(on(extension, "name."), "");
}

#[test]
fn a_name_is_put_into_a_directory() {
    let join = |d: &str, n: &str| string_of(&join_path(&chars_of(d), &chars_of(n)));
    assert_eq!(join("/p", "main"), "/p/main");
    assert_eq!(join("", "main"), "main");
    assert_eq!(join("/", "main"), "/main");
    assert_eq!(join("p/", "main"), "p/main");
}

#[test]
fn not_every_text_names_a_file() {
    assert!(valid_file_name(&chars_of("a")));
    assert!(valid_file_name(&chars_of("...")));
    assert!(valid_file_name(&chars_of(".a")));
    assert!(!valid_file_name(&chars_of("")));
    assert!(!valid_file_name(&chars_of(".")));
    assert!(!valid_file_name(&chars_of("..")));
}
