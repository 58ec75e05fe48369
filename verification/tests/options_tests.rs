use trace::diag::Diagnostic;
use trace::options::{get_options, MetaItem, MetaKind, MetaValue, NestedMeta, Options};

fn word(span: u64, name: &str) -> NestedMeta {
    NestedMeta::Meta(MetaItem { span, name: String::from(name), kind: MetaKind::Word })
}

fn str_pair(span: u64, name: &str, value: &str) -> NestedMeta {
    NestedMeta::Meta(MetaItem {
        span,
        name: String::from(name),
        kind: MetaKind::NameValue(MetaValue::Str(String::from(value))),
    })
}

fn group(span: u64, name: &str, items: Vec<NestedMeta>) -> NestedMeta {
    NestedMeta::Meta(MetaItem { span, name: String::from(name), kind: MetaKind::List(items) })
}

fn annotation(span: u64, entries: Vec<NestedMeta>) -> MetaItem {
    MetaItem { span, name: String::from("trace"), kind: MetaKind::List(entries) }
}

fn bare_annotation(span: u64) -> MetaItem {
    MetaItem { span, name: String::from("trace"), kind: MetaKind::Word }
}

#[test]
fn defaults_from_bare_annotation() {
    let mut diags: Vec<Diagnostic> = Vec::new();
    let opts = get_options(&bare_annotation(1), &mut diags);
    assert!(opts.prefix_enter == "[+]");
    assert!(opts.prefix_exit == "[-]");
    assert!(opts.enable.is_none());
    assert!(opts.disable.is_none());
    assert!(!opts.pause);
    assert!(diags.is_empty());
}

#[test]
fn defaults_match_options_new() {
    let opts = Options::new();
    assert!(opts.prefix_enter == "[+]");
    assert!(opts.prefix_exit == "[-]");
    assert!(opts.enable.is_none());
    assert!(opts.disable.is_none());
    assert!(!opts.pause);
}

#[test]
fn custom_prefixes_are_taken() {
    let mut diags: Vec<Diagnostic> = Vec::new();
    let meta = annotation(
        1,
        vec![str_pair(2, "prefix_enter", "->"), str_pair(3, "prefix_exit", "<-")],
    );
    let opts = get_options(&meta, &mut diags);
    assert!(opts.prefix_enter == "->");
    assert!(opts.prefix_exit == "<-");
    assert!(opts.enable.is_none());
    assert!(opts.disable.is_none());
    assert!(!opts.pause);
    assert!(diags.is_empty());
}

#[test]
fn pause_flag_is_taken() {
    let mut diags: Vec<Diagnostic> = Vec::new();
    let meta = annotation(1, vec![word(2, "pause")]);
    let opts = get_options(&meta, &mut diags);
    assert!(opts.pause);
    assert!(diags.is_empty());
}

#[test]
fn unknown_key_warns_and_is_ignored() {
    let mut diags: Vec<Diagnostic> = Vec::new();
    let meta = annotation(1, vec![word(9, "bogus")]);
    let opts = get_options(&meta, &mut diags);
    assert!(opts.prefix_enter == "[+]");
    assert!(!opts.pause);
    assert!(diags.len() == 1);
    assert!(!diags[0].error);
    assert!(diags[0].span == 9);
    assert!(diags[0].msg == "Invalid option bogus");
}

#[test]
fn non_string_prefix_value_warns_and_keeps_default() {
    let mut diags: Vec<Diagnostic> = Vec::new();
    let meta = annotation(
        1,
        vec![NestedMeta::Meta(MetaItem {
            span: 4,
            name: String::from("prefix_enter"),
            kind: MetaKind::NameValue(MetaValue::Other),
        })],
    );
    let opts = get_options(&meta, &mut diags);
    assert!(opts.prefix_enter == "[+]");
    assert!(diags.len() == 1);
    assert!(!diags[0].error);
    assert!(diags[0].msg == "Invalid option prefix_enter");
}

#[test]
fn enable_group_collects_names() {
    let mut diags: Vec<Diagnostic> = Vec::new();
    let meta = annotation(1, vec![group(2, "enable", vec![word(3, "a"), word(4, "b")])]);
    let opts = get_options(&meta, &mut diags);
    let set = opts.enable.expect("enable should be set");
    assert!(set.len() == 2);
    assert!(set[0] == "a");
    assert!(set[1] == "b");
    assert!(opts.disable.is_none());
    assert!(diags.is_empty());
}

#[test]
fn nested_pair_in_group_warns_and_is_excluded() {
    let mut diags: Vec<Diagnostic> = Vec::new();
    let meta = annotation(
        1,
        vec![group(2, "disable", vec![word(3, "a"), str_pair(5, "b", "v")])],
    );
    let opts = get_options(&meta, &mut diags);
    let set = opts.disable.expect("disable should be set");
    assert!(set.len() == 1);
    assert!(set[0] == "a");
    assert!(diags.len() == 1);
    assert!(!diags[0].error);
    assert!(diags[0].span == 5);
    assert!(diags[0].msg == "Invalid option b");
}

#[test]
fn both_filters_yield_configuration_error() {
    let mut diags: Vec<Diagnostic> = Vec::new();
    let meta = annotation(
        7,
        vec![
            group(2, "enable", vec![word(3, "a")]),
            group(4, "disable", vec![word(5, "b")]),
        ],
    );
    let opts = get_options(&meta, &mut diags);
    assert!(opts.enable.is_none());
    assert!(opts.disable.is_none());
    assert!(diags.len() == 1);
    assert!(diags[0].error);
    assert!(diags[0].span == 7);
    assert!(diags[0].msg == "Cannot use both enable and disable options with trace");
}

#[test]
fn later_entry_wins_for_prefixes() {
    let mut diags: Vec<Diagnostic> = Vec::new();
    let meta = annotation(
        1,
        vec![str_pair(2, "prefix_enter", ">>"), str_pair(3, "prefix_enter", ">>>")],
    );
    let opts = get_options(&meta, &mut diags);
    assert!(opts.prefix_enter == ">>>");
    assert!(diags.is_empty());
}
