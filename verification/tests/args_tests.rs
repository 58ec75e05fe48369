use trace::args::arg_idents;
use trace::ast::Pat;
use trace::diag::Diagnostic;

fn ident(name: &str) -> Pat {
    Pat::Ident(String::from(name))
}

#[test]
fn flattening_keeps_declaration_order() {
    let mut diags: Vec<Diagnostic> = Vec::new();
    let params = vec![ident("x"), Pat::Tuple(vec![ident("y"), ident("z")])];
    let names = arg_idents(&params, &mut diags);
    assert!(names == vec!["x", "y", "z"]);
    assert!(diags.is_empty());
}

#[test]
fn wildcard_contributes_no_name() {
    let mut diags: Vec<Diagnostic> = Vec::new();
    let params = vec![Pat::Wild, ident("w")];
    let names = arg_idents(&params, &mut diags);
    assert!(names == vec!["w"]);
    assert!(diags.is_empty());
}

#[test]
fn receiver_is_excluded() {
    let mut diags: Vec<Diagnostic> = Vec::new();
    let params = vec![ident("self"), ident("x")];
    let names = arg_idents(&params, &mut diags);
    assert!(names == vec!["x"]);
    assert!(diags.is_empty());
}

#[test]
fn valueless_patterns_contribute_no_name() {
    let mut diags: Vec<Diagnostic> = Vec::new();
    let params = vec![Pat::Lit, Pat::Range, Pat::Path, ident("k")];
    let names = arg_idents(&params, &mut diags);
    assert!(names == vec!["k"]);
    assert!(diags.is_empty());
}

#[test]
fn slice_orders_prefix_rest_suffix() {
    let mut diags: Vec<Diagnostic> = Vec::new();
    let params = vec![Pat::Slice(
        vec![ident("a")],
        Some(Box::new(ident("rest"))),
        vec![ident("b")],
    )];
    let names = arg_idents(&params, &mut diags);
    assert!(names == vec!["a", "rest", "b"]);
    assert!(diags.is_empty());
}

#[test]
fn wrapped_and_struct_patterns_recurse() {
    let mut diags: Vec<Diagnostic> = Vec::new();
    let params = vec![
        Pat::Wrapped(Box::new(ident("p"))),
        Pat::Struct(vec![ident("q"), Pat::Wild]),
    ];
    let names = arg_idents(&params, &mut diags);
    assert!(names == vec!["p", "q"]);
    assert!(diags.is_empty());
}

#[test]
fn duplicate_names_are_preserved() {
    let mut diags: Vec<Diagnostic> = Vec::new();
    let params = vec![ident("x"), Pat::Tuple(vec![ident("x")])];
    let names = arg_idents(&params, &mut diags);
    assert!(names == vec!["x", "x"]);
    assert!(diags.is_empty());
}

#[test]
fn pattern_macro_warns_and_contributes_nothing() {
    let mut diags: Vec<Diagnostic> = Vec::new();
    let params = vec![ident("x"), Pat::Mac(11), ident("y")];
    let names = arg_idents(&params, &mut diags);
    assert!(names == vec!["x", "y"]);
    assert!(diags.len() == 1);
    assert!(!diags[0].error);
    assert!(diags[0].span == 11);
    assert!(diags[0].msg == "trace ignores pattern macros in function arguments");
}
