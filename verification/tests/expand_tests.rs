use trace::ast::{
    Block, FnDef, ImplMember, ModItem, Pat, StaticDecl, StaticInit, StaticTy, Target, TracedBody,
};
use trace::diag::Diagnostic;
use trace::expand::{ensure_depth, trace_expand};
use trace::options::{MetaItem, MetaKind, MetaValue, NestedMeta};

fn bare_annotation(span: u64) -> MetaItem {
    MetaItem { span, name: String::from("trace"), kind: MetaKind::Word }
}

fn annotation(span: u64, entries: Vec<NestedMeta>) -> MetaItem {
    MetaItem { span, name: String::from("trace"), kind: MetaKind::List(entries) }
}

fn group_of_words(span: u64, name: &str, words: &[&str]) -> NestedMeta {
    let items = words
        .iter()
        .map(|w| {
            NestedMeta::Meta(MetaItem {
                span: span + 1,
                name: String::from(*w),
                kind: MetaKind::Word,
            })
        })
        .collect();
    NestedMeta::Meta(MetaItem { span, name: String::from(name), kind: MetaKind::List(items) })
}

fn func(name: &str, params: Vec<Pat>, body_id: u64) -> FnDef {
    FnDef { name: String::from(name), params, body: Block::Orig(body_id) }
}

fn depth_decl(span: u64, mutable: bool, ty: StaticTy, init: StaticInit) -> StaticDecl {
    StaticDecl { span, name: String::from("DEPTH"), mutable, ty, init }
}

fn expect_traced(body: &Block) -> &TracedBody {
    match body {
        Block::Traced(t) => t,
        Block::Orig(_) => panic!("expected a synthesized body"),
    }
}

#[test]
fn direct_function_is_wrapped() {
    let mut diags: Vec<Diagnostic> = Vec::new();
    let f = func("foo", vec![Pat::Ident(String::from("x"))], 1);
    let r = trace_expand(0, &bare_annotation(0), Target::Item(ModItem::Func(f)), &mut diags);
    match r {
        Target::Item(ModItem::Func(g)) => {
            assert!(g.name == "foo");
            let t = expect_traced(&g.body);
            assert!(t.prefix_enter == "[+]");
            assert!(t.prefix_exit == "[-]");
            assert!(!t.pause);
            assert!(t.fn_name == "foo");
            assert!(t.args == vec!["x"]);
            assert!(*t.inner == Block::Orig(1));
        },
        _ => panic!("expected a function back"),
    }
    assert!(diags.is_empty());
}

#[test]
fn direct_method_filters_arguments_by_name() {
    let mut diags: Vec<Diagnostic> = Vec::new();
    let m = func(
        "m",
        vec![
            Pat::Ident(String::from("self")),
            Pat::Ident(String::from("a")),
            Pat::Ident(String::from("b")),
        ],
        2,
    );
    let meta = annotation(0, vec![group_of_words(1, "disable", &["a"])]);
    let r = trace_expand(0, &meta, Target::Method(m), &mut diags);
    match r {
        Target::Method(g) => {
            let t = expect_traced(&g.body);
            assert!(t.args == vec!["b"]);
        },
        _ => panic!("expected a method back"),
    }
    assert!(diags.is_empty());
}

#[test]
fn module_wraps_functions_and_injects_depth() {
    let mut diags: Vec<Diagnostic> = Vec::new();
    let items = vec![
        ModItem::Func(func("foo", vec![Pat::Ident(String::from("x"))], 1)),
        ModItem::Func(func("bar", vec![], 2)),
        ModItem::Opaque(77),
    ];
    let r = trace_expand(0, &bare_annotation(0), Target::Item(ModItem::Module(items)), &mut diags);
    match r {
        Target::Item(ModItem::Module(out)) => {
            assert!(out.len() == 4);
            let t_foo = match &out[0] {
                ModItem::Func(g) => expect_traced(&g.body),
                _ => panic!("expected foo"),
            };
            assert!(t_foo.fn_name == "foo");
            assert!(t_foo.args == vec!["x"]);
            let t_bar = match &out[1] {
                ModItem::Func(g) => expect_traced(&g.body),
                _ => panic!("expected bar"),
            };
            assert!(t_bar.fn_name == "bar");
            assert!(t_bar.args.is_empty());
            assert!(out[2] == ModItem::Opaque(77));
            match &out[3] {
                ModItem::Static(s) => {
                    assert!(s.name == "DEPTH");
                    assert!(s.mutable);
                    assert!(s.ty == StaticTy::U32);
                    assert!(s.init == StaticInit::Int(0));
                },
                _ => panic!("expected an injected depth counter"),
            }
        },
        _ => panic!("expected a module back"),
    }
    assert!(diags.is_empty());
}

#[test]
fn disabled_function_passes_through_untouched() {
    let mut diags: Vec<Diagnostic> = Vec::new();
    let items = vec![
        ModItem::Func(func("foo", vec![Pat::Ident(String::from("x"))], 1)),
        ModItem::Func(func("bar", vec![], 2)),
    ];
    let meta = annotation(0, vec![group_of_words(1, "disable", &["bar"])]);
    let r = trace_expand(0, &meta, Target::Item(ModItem::Module(items)), &mut diags);
    match r {
        Target::Item(ModItem::Module(out)) => {
            match &out[0] {
                ModItem::Func(g) => {
                    assert!(matches!(g.body, Block::Traced(_)));
                },
                _ => panic!("expected foo"),
            }
            assert!(out[1] == ModItem::Func(func("bar", vec![], 2)));
        },
        _ => panic!("expected a module back"),
    }
    assert!(diags.is_empty());
}

#[test]
fn enabled_set_leaves_other_names_unmodified() {
    let mut diags: Vec<Diagnostic> = Vec::new();
    let items = vec![ModItem::Func(func("c", vec![Pat::Ident(String::from("v"))], 3))];
    let meta = annotation(0, vec![group_of_words(1, "enable", &["a", "b"])]);
    let r = trace_expand(0, &meta, Target::Item(ModItem::Module(items)), &mut diags);
    match r {
        Target::Item(ModItem::Module(out)) => {
            assert!(out[0] == ModItem::Func(func("c", vec![Pat::Ident(String::from("v"))], 3)));
        },
        _ => panic!("expected a module back"),
    }
    assert!(diags.is_empty());
}

#[test]
fn impl_block_methods_filter_by_method_name() {
    let mut diags: Vec<Diagnostic> = Vec::new();
    let members = vec![
        ImplMember::Method(func("keep", vec![Pat::Ident(String::from("self"))], 1)),
        ImplMember::Opaque(42),
        ImplMember::Method(func("skip", vec![], 2)),
    ];
    let meta = annotation(0, vec![group_of_words(1, "enable", &["keep"])]);
    let r = trace_expand(0, &meta, Target::Item(ModItem::ImplBlock(members)), &mut diags);
    match r {
        Target::Item(ModItem::ImplBlock(out)) => {
            assert!(out.len() == 3);
            match &out[0] {
                ImplMember::Method(g) => {
                    assert!(g.name == "keep");
                    assert!(matches!(g.body, Block::Traced(_)));
                },
                _ => panic!("expected the kept method first"),
            }
            assert!(out[1] == ImplMember::Opaque(42));
            assert!(out[2] == ImplMember::Method(func("skip", vec![], 2)));
        },
        _ => panic!("expected an implementation block back"),
    }
    assert!(diags.is_empty());
}

#[test]
fn both_filters_abort_the_annotation() {
    let mut diags: Vec<Diagnostic> = Vec::new();
    let meta = annotation(
        5,
        vec![group_of_words(1, "enable", &["a"]), group_of_words(2, "disable", &["b"])],
    );
    let f = func("foo", vec![], 1);
    let r = trace_expand(5, &meta, Target::Item(ModItem::Func(f)), &mut diags);
    assert!(r == Target::Item(ModItem::Func(func("foo", vec![], 1))));
    assert!(diags.len() == 1);
    assert!(diags[0].error);
    assert!(diags[0].span == 5);
    assert!(diags[0].msg == "Cannot use both enable and disable options with trace");
}

#[test]
fn annotation_on_statement_is_an_error() {
    let mut diags: Vec<Diagnostic> = Vec::new();
    let r = trace_expand(9, &bare_annotation(9), Target::Stmt(4), &mut diags);
    assert!(r == Target::Stmt(4));
    assert!(diags.len() == 1);
    assert!(diags[0].error);
    assert!(diags[0].span == 9);
    assert!(diags[0].msg == "trace is not applicable to statements");
}

#[test]
fn annotation_on_other_item_is_an_error() {
    let mut diags: Vec<Diagnostic> = Vec::new();
    let r = trace_expand(3, &bare_annotation(3), Target::Item(ModItem::Opaque(8)), &mut diags);
    assert!(r == Target::Item(ModItem::Opaque(8)));
    assert!(diags.len() == 1);
    assert!(diags[0].error);
    assert!(diags[0].msg == "trace is only permissible on functions, mods, or impls");
}

#[test]
fn valid_depth_counter_is_reused() {
    let mut diags: Vec<Diagnostic> = Vec::new();
    let items = vec![ModItem::Static(depth_decl(2, true, StaticTy::U32, StaticInit::Int(0)))];
    let out = ensure_depth(items, &mut diags);
    assert!(out.len() == 1);
    assert!(out[0] == ModItem::Static(depth_decl(2, true, StaticTy::U32, StaticInit::Int(0))));
    assert!(diags.is_empty());
}

#[test]
fn malformed_depth_counter_is_an_error_and_kept() {
    let mut diags: Vec<Diagnostic> = Vec::new();
    let items = vec![ModItem::Static(depth_decl(6, false, StaticTy::U32, StaticInit::Int(0)))];
    let out = ensure_depth(items, &mut diags);
    assert!(out.len() == 1);
    assert!(out[0] == ModItem::Static(depth_decl(6, false, StaticTy::U32, StaticInit::Int(0))));
    assert!(diags.len() == 1);
    assert!(diags[0].error);
    assert!(diags[0].span == 6);
    assert!(
        diags[0].msg == "A static variable with the name DEPTH was found, but it is not mutable"
    );
}

#[test]
fn nonzero_depth_counter_is_an_error() {
    let mut diags: Vec<Diagnostic> = Vec::new();
    let items = vec![ModItem::Static(depth_decl(6, true, StaticTy::U32, StaticInit::Int(3)))];
    let _ = ensure_depth(items, &mut diags);
    assert!(diags.len() == 1);
    assert!(diags[0].error);
    assert!(
        diags[0].msg
            == "A static variable with the name DEPTH was found, but its initial value is not 0"
    );
}

#[test]
fn wrongly_typed_depth_counter_is_an_error() {
    let mut diags: Vec<Diagnostic> = Vec::new();
    let items = vec![ModItem::Static(depth_decl(6, true, StaticTy::Other, StaticInit::Int(0)))];
    let _ = ensure_depth(items, &mut diags);
    assert!(diags.len() == 1);
    assert!(diags[0].error);
    assert!(
        diags[0].msg == "A static variable with the name DEPTH was found, but its type is not u32"
    );
}

#[test]
fn empty_module_gets_a_depth_counter() {
    let mut diags: Vec<Diagnostic> = Vec::new();
    let r = trace_expand(0, &bare_annotation(0), Target::Item(ModItem::Module(vec![])), &mut diags);
    match r {
        Target::Item(ModItem::Module(out)) => {
            assert!(out.len() == 1);
            assert!(matches!(&out[0], ModItem::Static(s) if s.name == "DEPTH"));
        },
        _ => panic!("expected a module back"),
    }
    assert!(diags.is_empty());
}

#[test]
fn annotation_on_trait_item_is_an_error() {
    let mut diags: Vec<Diagnostic> = Vec::new();
    let r = trace_expand(2, &bare_annotation(2), Target::TraitItem(1), &mut diags);
    assert!(r == Target::TraitItem(1));
    assert!(diags.len() == 1);
    assert!(diags[0].error);
    assert!(diags[0].msg == "trace is not applicable to trait items");
}

#[test]
fn annotation_on_foreign_item_is_an_error() {
    let mut diags: Vec<Diagnostic> = Vec::new();
    let r = trace_expand(2, &bare_annotation(2), Target::ForeignItem(1), &mut diags);
    assert!(r == Target::ForeignItem(1));
    assert!(diags.len() == 1);
    assert!(diags[0].msg == "trace is not applicable to foreign items");
}

#[test]
fn annotation_on_expression_is_an_error() {
    let mut diags: Vec<Diagnostic> = Vec::new();
    let r = trace_expand(2, &bare_annotation(2), Target::Expr(1), &mut diags);
    assert!(r == Target::Expr(1));
    assert!(diags.len() == 1);
    assert!(diags[0].msg == "trace is not applicable to expressions");
}

#[test]
fn depth_injection_is_idempotent() {
    let mut diags: Vec<Diagnostic> = Vec::new();
    let once = ensure_depth(vec![ModItem::Opaque(1)], &mut diags);
    assert!(diags.is_empty());
    let expected = ensure_depth(vec![ModItem::Opaque(1)], &mut diags);
    assert!(diags.is_empty());
    let twice = ensure_depth(once, &mut diags);
    assert!(diags.is_empty());
    assert!(twice == expected);
}
