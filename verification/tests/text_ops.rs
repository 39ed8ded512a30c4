use d2m::render::{generate_group_filename, get_class_filename};
use d2m::text::{contains_sub, find_sub, last_segment_str, replace_sub, spaces, split_sub, trim};

#[test]
fn trim_removes_surrounding_white_space() {
    assert_eq!(trim("  hello world \n\t"), "hello world");
    assert_eq!(trim(""), "");
    assert_eq!(trim(" \r\n "), "");
    assert_eq!(trim("inner  space"), "inner  space");
}

#[test]
fn find_and_contains_locate_substrings() {
    assert_eq!(find_sub("abcbc", "bc"), Some(1));
    assert_eq!(find_sub("abc", "d"), None);
    assert_eq!(find_sub("abc", ""), Some(0));
    assert!(contains_sub("argsstring", "args"));
    assert!(!contains_sub("args", "argsstring"));
}

#[test]
fn replace_rewrites_every_occurrence() {
    assert_eq!(replace_sub("const int, const char", "const ", ""), "int, char");
    assert_eq!(replace_sub("a,b,,c", ",", ";"), "a;b;;c");
    assert_eq!(replace_sub("abc", "x", "y"), "abc");
}

#[test]
fn split_keeps_empty_pieces() {
    let pieces = split_sub("a,b,,c", ",");
    assert_eq!(pieces, vec!["a", "b", "", "c"]);
    assert_eq!(split_sub("abc", ","), vec!["abc"]);
    assert_eq!(split_sub("x,", ","), vec!["x", ""]);
}

#[test]
fn last_segment_takes_text_after_last_separator() {
    assert_eq!(last_segment_str("ns::inner::Widget", "::"), "Widget");
    assert_eq!(last_segment_str("Widget", "::"), "Widget");
    assert_eq!(last_segment_str("odd::", "::"), "");
}

#[test]
fn spaces_builds_a_run_of_blanks() {
    assert_eq!(spaces(0), "");
    assert_eq!(spaces(4), "    ");
}

#[test]
fn group_filename_lowercases_and_underscores() {
    assert_eq!(generate_group_filename("My Group"), "group_my_group.md");
    assert_eq!(generate_group_filename("CORE"), "group_core.md");
}

#[test]
fn class_filename_flattens_scopes_and_templates() {
    assert_eq!(get_class_filename("foo::Bar<T>"), "class_foo_bar_t_.md");
    assert_eq!(get_class_filename("Simple"), "class_simple.md");
    assert_eq!(get_class_filename("A B"), "class_ab.md");
}
