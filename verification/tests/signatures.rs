use d2m::model::Function;
use d2m::signature::{
    remove_redundant_const_from_function_parameters, simplify_function_noexcept_specifier,
};

fn function_with(name: &str, return_type: &str, args: &str, params: &[&str]) -> Function {
    let mut f = Function::new(false);
    f.name = name.to_string();
    f.return_type = return_type.to_string();
    f.args = args.to_string();
    for p in params {
        f.parameter_names.push(p.to_string());
    }
    f
}

#[test]
fn value_const_is_removed_and_reference_const_kept() {
    let mut f = function_with("", "", "(const int x, const Foo& y)", &["x", "y"]);
    remove_redundant_const_from_function_parameters(&mut f);
    assert_eq!(f.args, "(int x,\n const Foo& y)");
    assert!(!f.args.contains("const int"));
    assert!(f.args.contains("const Foo&"));
}

#[test]
fn no_parameters_means_no_rewriting() {
    let mut f = function_with("f", "void", "()", &[]);
    remove_redundant_const_from_function_parameters(&mut f);
    assert_eq!(f.args, "()");
}

#[test]
fn trailing_return_tail_is_reattached_verbatim() {
    let mut f = function_with("f", "auto", "(const int x) -> int", &["x"]);
    remove_redundant_const_from_function_parameters(&mut f);
    assert_eq!(f.args, "(int x) -> int");
}

#[test]
fn continuation_lines_align_under_the_declaration() {
    let mut f = function_with("f", "void", "(const int a, int b)", &["a", "b"]);
    f.is_static = true;
    remove_redundant_const_from_function_parameters(&mut f);
    // pad: "void" (4) + "f" (1) + "static " (7) + one blank = 13 blanks
    assert_eq!(f.args, "(int a,\n              int b)");
}

#[test]
fn template_arguments_are_not_broken_across_lines() {
    let mut f = function_with("", "", "(int x, A<B> y)", &["x", "y"]);
    remove_redundant_const_from_function_parameters(&mut f);
    assert_eq!(f.args, "(int x, A<B> y)");
}

#[test]
fn pointer_fragments_keep_their_const() {
    let mut f = function_with("", "", "(const char* s)", &["s"]);
    remove_redundant_const_from_function_parameters(&mut f);
    assert_eq!(f.args, "(const char* s)");
}

#[test]
fn conditional_noexcept_is_collapsed() {
    let mut f = function_with("f", "void", "(int x) noexcept(noexcept(foo()))", &["x"]);
    simplify_function_noexcept_specifier(&mut f);
    assert_eq!(f.args, "(int x) noexcept(...)");
}

#[test]
fn each_line_with_noexcept_is_collapsed() {
    let mut f = function_with("f", "void", "(int a,\n int b) noexcept(x > 0)", &["a", "b"]);
    simplify_function_noexcept_specifier(&mut f);
    assert_eq!(f.args, "(int a,\n int b) noexcept(...)");
}

#[test]
fn plain_noexcept_without_condition_is_untouched() {
    let mut f = function_with("f", "void", "(int x) noexcept", &["x"]);
    simplify_function_noexcept_specifier(&mut f);
    assert_eq!(f.args, "(int x) noexcept");
}
