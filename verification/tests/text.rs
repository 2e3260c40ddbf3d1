use parity_harness::text::{
    chars_of, glue, contains, decimal_digits, has_prefix, has_suffix, is_blank, join,
    last_index, lines, slice, string_of, trim, white_space,
};

fn text(v: &Vec<char>) -> String {
    string_of(v)
}

#[test]
fn trim_removes_white_space_at_both_ends() {
    assert_eq!(text(&trim(&chars_of(" \t 2 + 3 \r\n"))), "2 + 3");
    assert_eq!(text(&trim(&chars_of("\u{a0}x\u{3000}"))), "x");
    assert_eq!(text(&trim(&chars_of("   "))), "");
    assert_eq!(text(&trim(&chars_of(""))), "");
    assert_eq!(text(&trim(&chars_of("a b"))), "a b");
    assert!(is_blank(&chars_of(" \n")));
    assert!(!is_blank(&chars_of(" . ")));
}

#[test]
fn white_space_is_what_unicode_says() {
    for c in ['\t', '\n', '\u{b}', '\u{c}', '\r', ' ', '\u{85}', '\u{a0}', '\u{1680}', '\u{2000}',
        '\u{200a}', '\u{2028}', '\u{2029}', '\u{202f}', '\u{205f}', '\u{3000}'] {
        assert!(white_space(c));
        assert!(c.is_whitespace());
    }
    for c in ['a', '0', '\u{200b}', '\u{8}', '\u{e}', '\u{feff}'] {
        assert!(!white_space(c));
        assert!(!c.is_whitespace());
    }
}

#[test]
fn contains_finds_a_word_inside() {
    assert!(contains(&chars_of("Uso: prog <numero1>"), &chars_of("<numero1>")));
    assert!(!contains(&chars_of("Uso: prog"), &chars_of("<numero1>")));
    assert!(contains(&chars_of("abc"), &chars_of("")));
    assert!(contains(&chars_of(""), &chars_of("")));
    assert!(!contains(&chars_of(""), &chars_of("a")));
    assert!(contains(&chars_of("abc"), &chars_of("abc")));
    assert!(contains(&chars_of("abc"), &chars_of("c")));
}

#[test]
fn prefixes_and_suffixes_are_told() {
    assert!(has_prefix(&chars_of("// x"), &chars_of("//")));
    assert!(!has_prefix(&chars_of("/ x"), &chars_of("//")));
    assert!(has_suffix(&chars_of("main.py"), &chars_of(".py")));
    assert!(!has_suffix(&chars_of("py"), &chars_of(".py")));
    assert_eq!(last_index(&chars_of("a.b.c"), '.'), Some(3));
    assert_eq!(last_index(&chars_of("abc"), '.'), None);
}

#[test]
fn lines_end_at_line_feeds() {
    let found: Vec<String> = lines(&chars_of("a\r\nb\n\nc\r")).iter().map(text).collect();
    assert_eq!(found, vec!["a", "b", "", "c\r"]);
    let expected: Vec<String> = "a\r\nb\n\nc\r".lines().map(|l| l.to_string()).collect();
    assert_eq!(found, expected);
    assert_eq!(lines(&chars_of("")).len(), 0);
    assert_eq!(lines(&chars_of("x\n")).len(), 1);
    assert_eq!(lines(&chars_of("\n")).len(), 1);
}

#[test]
fn join_puts_the_separator_between_neighbours() {
    let parts = vec![chars_of("a"), chars_of("b"), chars_of("c")];
    assert_eq!(text(&join(&parts, &chars_of(", "))), "a, b, c");
    assert_eq!(text(&join(&vec![chars_of("a")], &chars_of(", "))), "a");
    assert_eq!(text(&join(&vec![], &chars_of(", "))), "");
    assert_eq!(glue("ab", "cd"), "abcd");
    assert_eq!(text(&slice(&chars_of("abcdef"), 2, 4)), "cd");
}

#[test]
fn numbers_are_written_in_decimal() {
    assert_eq!(text(&decimal_digits(0)), "0");
    assert_eq!(text(&decimal_digits(7)), "7");
    assert_eq!(text(&decimal_digits(10)), "10");
    assert_eq!(text(&decimal_digits(90210)), "90210");
    assert_eq!(text(&decimal_digits(usize::MAX)), usize::MAX.to_string());
}
