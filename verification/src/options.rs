use vstd::prelude::*;

use crate::ast::str_views;
use crate::diag::{diag_views, error_at, push_error, push_warning, warning_at, DiagView, Diagnostic};

verus! {

/// The value of a `key = value` configuration entry: a string literal, or
/// some other literal kind.
pub enum MetaValue {
    Str(String),
    Other,
}

/// The shape of one configuration entry: a bare flag, a `key = value` pair,
/// or a `key(nested entries)` group.
pub enum MetaKind {
    Word,
    NameValue(MetaValue),
    List(Vec<NestedMeta>),
}

/// A configuration entry: its source location, its key, and its shape.
pub struct MetaItem {
    pub span: u64,
    pub name: String,
    pub kind: MetaKind,
}

/// One element of a configuration list: an entry, or a bare literal.
pub enum NestedMeta {
    Meta(MetaItem),
    Literal(u64),
}

/// Per-annotation configuration, immutable once parsed.
pub struct Options {
    pub prefix_enter: String,
    pub prefix_exit: String,
    pub enable: Option<Vec<String>>,
    pub disable: Option<Vec<String>>,
    pub pause: bool,
}

/// The mathematical content of a configuration: the two tags, the two
/// optional name filters, and the pause flag.
#[verifier::ext_equal]
pub struct OptionsView {
    pub prefix_enter: Seq<char>,
    pub prefix_exit: Seq<char>,
    pub enable: Option<Seq<Seq<char>>>,
    pub disable: Option<Seq<Seq<char>>>,
    pub pause: bool,
}

impl View for Options {
    type V = OptionsView;

    open spec fn view(&self) -> OptionsView {
        OptionsView {
            prefix_enter: self.prefix_enter@,
            prefix_exit: self.prefix_exit@,
            enable: filter_views(self.enable),
            disable: filter_views(self.disable),
            pause: self.pause,
        }
    }
}

/// A well-formed configuration never has both filters set.
pub open spec fn options_wf(o: OptionsView) -> bool {
    !(o.enable is Some && o.disable is Some)
}

/// The character contents of an optional name filter.
pub open spec fn filter_views(o: Option<Vec<String>>) -> Option<Seq<Seq<char>>> {
    match o {
        Some(v) => Some(str_views(v@)),
        None => None,
    }
}

impl Options {
    /// The default configuration: tags `[+]` and `[-]`, no filters, no pause.
    pub fn new() -> (r: Options)
        ensures
            r.prefix_enter@ == "[+]"@,
            r.prefix_exit@ == "[-]"@,
            r.enable is None,
            r.disable is None,
            !r.pause,
    {
        Options {
            prefix_enter: String::from_str("[+]"),
            prefix_exit: String::from_str("[-]"),
            enable: None,
            disable: None,
            pause: false,
        }
    }
}

/// The entries of an annotation's configuration: the elements of its list,
/// or none when the annotation is bare or carries a single value.
pub open spec fn meta_entries(m: MetaItem) -> Seq<NestedMeta> {
    match m.kind {
        MetaKind::List(v) => v@,
        _ => Seq::empty(),
    }
}

/// Whether an entry sets the prefix named `key` to a string literal.
pub open spec fn sets_prefix(e: NestedMeta, key: Seq<char>) -> bool {
    match e {
        NestedMeta::Meta(mi) => mi.name@ == key && (mi.kind matches MetaKind::NameValue(
            MetaValue::Str(_),
        )),
        NestedMeta::Literal(_) => false,
    }
}

/// The string value carried by a prefix-setting entry.
pub open spec fn prefix_value(e: NestedMeta) -> Seq<char> {
    match e {
        NestedMeta::Meta(mi) => match mi.kind {
            MetaKind::NameValue(MetaValue::Str(s)) => s@,
            _ => Seq::empty(),
        },
        NestedMeta::Literal(_) => Seq::empty(),
    }
}

/// The parsed prefix for `key`: the last string literal assigned to it, or
/// `dflt` when none was.
pub open spec fn parsed_prefix(entries: Seq<NestedMeta>, key: Seq<char>, dflt: Seq<char>) -> Seq<
    char,
>
    decreases entries.len(),
{
    if entries.len() == 0 {
        dflt
    } else if sets_prefix(entries.last(), key) {
        prefix_value(entries.last())
    } else {
        parsed_prefix(entries.drop_last(), key, dflt)
    }
}

/// Whether an entry is the bare `pause` flag.
pub open spec fn is_pause_flag(e: NestedMeta) -> bool {
    match e {
        NestedMeta::Meta(mi) => mi.name@ == "pause"@ && mi.kind is Word,
        NestedMeta::Literal(_) => false,
    }
}

/// The parsed pause flag: set when any entry is the bare `pause` flag.
pub open spec fn parsed_pause(entries: Seq<NestedMeta>) -> bool
    decreases entries.len(),
{
    if entries.len() == 0 {
        false
    } else {
        is_pause_flag(entries.last()) || parsed_pause(entries.drop_last())
    }
}

/// Whether an entry is the filter group named `key`.
pub open spec fn is_filter_group(e: NestedMeta, key: Seq<char>) -> bool {
    match e {
        NestedMeta::Meta(mi) => mi.name@ == key && mi.kind is List,
        NestedMeta::Literal(_) => false,
    }
}

/// The elements of a group entry.
pub open spec fn group_entries(e: NestedMeta) -> Seq<NestedMeta> {
    match e {
        NestedMeta::Meta(mi) => match mi.kind {
            MetaKind::List(v) => v@,
            _ => Seq::empty(),
        },
        NestedMeta::Literal(_) => Seq::empty(),
    }
}

/// Whether a nested entry is a bare flag, whatever its name.
pub open spec fn is_word(e: NestedMeta) -> bool {
    match e {
        NestedMeta::Meta(mi) => mi.kind is Word,
        NestedMeta::Literal(_) => false,
    }
}

/// The key of a nested entry.
pub open spec fn entry_name(e: NestedMeta) -> Seq<char> {
    match e {
        NestedMeta::Meta(mi) => mi.name@,
        NestedMeta::Literal(_) => Seq::empty(),
    }
}

/// The names a filter group contributes: its bare flags, in order.
pub open spec fn group_words(list: Seq<NestedMeta>) -> Seq<Seq<char>>
    decreases list.len(),
{
    if list.len() == 0 {
        Seq::empty()
    } else {
        group_words(list.drop_last()) + (if is_word(list.last()) {
            seq![entry_name(list.last())]
        } else {
            Seq::empty()
        })
    }
}

/// The parsed filter for `key`: the word set of the last group entry with
/// that key, or none when there is no such entry.
pub open spec fn parsed_filter(entries: Seq<NestedMeta>, key: Seq<char>) -> Option<Seq<Seq<char>>>
    decreases entries.len(),
{
    if entries.len() == 0 {
        None
    } else if is_filter_group(entries.last(), key) {
        Some(group_words(group_entries(entries.last())))
    } else {
        parsed_filter(entries.drop_last(), key)
    }
}

/// Whether a configuration sets both `enable` and `disable`: the hard
/// configuration error.
pub open spec fn parsed_both_set(m: MetaItem) -> bool {
    parsed_filter(meta_entries(m), "enable"@) is Some && parsed_filter(
        meta_entries(m),
        "disable"@,
    ) is Some
}

/// The text of the warning for an entry that no rule accepts.
pub open spec fn invalid_option_msg(name: Seq<char>) -> Seq<char> {
    "Invalid option "@ + name
}

/// The text of the hard configuration error.
pub open spec fn both_filters_msg() -> Seq<char> {
    "Cannot use both enable and disable options with trace"@
}

/// The warnings a filter group's elements produce: one per nested entry
/// that is a pair or a group, in order. Bare literals are dropped silently.
pub open spec fn group_diags(list: Seq<NestedMeta>) -> Seq<DiagView>
    decreases list.len(),
{
    if list.len() == 0 {
        Seq::empty()
    } else {
        group_diags(list.drop_last()) + nested_entry_diags(list.last())
    }
}

/// The warnings one nested entry of a filter group produces.
pub open spec fn nested_entry_diags(e: NestedMeta) -> Seq<DiagView> {
    match e {
        NestedMeta::Meta(mi) => match mi.kind {
            MetaKind::Word => Seq::empty(),
            _ => seq![warning_at(mi.span, invalid_option_msg(mi.name@))],
        },
        NestedMeta::Literal(_) => Seq::empty(),
    }
}

/// The diagnostics one top-level entry produces.
pub open spec fn entry_diags(e: NestedMeta) -> Seq<DiagView> {
    match e {
        NestedMeta::Meta(mi) => match mi.kind {
            MetaKind::NameValue(v) => if mi.name@ == "prefix_enter"@ || mi.name@
                == "prefix_exit"@ {
                match v {
                    MetaValue::Str(_) => Seq::empty(),
                    MetaValue::Other => seq![warning_at(mi.span, invalid_option_msg(mi.name@))],
                }
            } else {
                seq![warning_at(mi.span, invalid_option_msg(mi.name@))]
            },
            MetaKind::List(v) => if mi.name@ == "enable"@ || mi.name@ == "disable"@ {
                group_diags(v@)
            } else {
                seq![warning_at(mi.span, invalid_option_msg(mi.name@))]
            },
            MetaKind::Word => if mi.name@ == "pause"@ {
                Seq::empty()
            } else {
                seq![warning_at(mi.span, invalid_option_msg(mi.name@))]
            },
        },
        NestedMeta::Literal(_) => Seq::empty(),
    }
}

/// The diagnostics a list of entries produces, in order.
pub open spec fn entries_diags(entries: Seq<NestedMeta>) -> Seq<DiagView>
    decreases entries.len(),
{
    if entries.len() == 0 {
        Seq::empty()
    } else {
        entries_diags(entries.drop_last()) + entry_diags(entries.last())
    }
}

/// Everything parsing an annotation's configuration reports: the entries'
/// warnings, then the hard error when both filters are set.
pub open spec fn parse_diag_views(m: MetaItem) -> Seq<DiagView> {
    entries_diags(meta_entries(m)) + (if parsed_both_set(m) {
        seq![error_at(m.span, both_filters_msg())]
    } else {
        Seq::empty()
    })
}

/// The configuration an annotation parses to. Setting both filters is the
/// hard configuration error, and no configuration carrying both is ever
/// produced: on that error both filters come back cleared.
pub open spec fn parsed_options(m: MetaItem) -> OptionsView {
    OptionsView {
        prefix_enter: parsed_prefix(meta_entries(m), "prefix_enter"@, "[+]"@),
        prefix_exit: parsed_prefix(meta_entries(m), "prefix_exit"@, "[-]"@),
        enable: if parsed_both_set(m) {
            None
        } else {
            parsed_filter(meta_entries(m), "enable"@)
        },
        disable: if parsed_both_set(m) {
            None
        } else {
            parsed_filter(meta_entries(m), "disable"@)
        },
        pause: parsed_pause(meta_entries(m)),
    }
}

/// Every parsed configuration is well-formed: `enable` and `disable` are
/// never both set, whatever the annotation held.
pub proof fn lemma_parsed_options_wf(m: MetaItem)
    ensures
        options_wf(parsed_options(m)),
{
}

/// A filter group among the entries makes the parsed filter present,
/// whatever else stands around it.
pub proof fn lemma_filter_group_sets(entries: Seq<NestedMeta>, key: Seq<char>, i: int)
    requires
        0 <= i < entries.len(),
        is_filter_group(entries[i], key),
    ensures
        parsed_filter(entries, key) is Some,
    decreases entries.len(),
{
    if i == entries.len() - 1 {
        assert(is_filter_group(entries.last(), key));
    } else if !is_filter_group(entries.last(), key) {
        assert(entries.drop_last()[i] == entries[i]);
        lemma_filter_group_sets(entries.drop_last(), key, i);
    }
}

/// Mutual exclusivity: a configuration holding both an `enable` group and
/// a `disable` group always parses to the hard configuration error, which
/// parsing reports last, at the annotation's location; the parsed
/// configuration then carries neither filter.
pub proof fn lemma_mutual_exclusivity(m: MetaItem, i: int, j: int)
    requires
        0 <= i < meta_entries(m).len(),
        is_filter_group(meta_entries(m)[i], "enable"@),
        0 <= j < meta_entries(m).len(),
        is_filter_group(meta_entries(m)[j], "disable"@),
    ensures
        parsed_both_set(m),
        parse_diag_views(m).len() > 0,
        parse_diag_views(m).last() == error_at(m.span, both_filters_msg()),
        parsed_options(m).enable is None,
        parsed_options(m).disable is None,
{
    lemma_filter_group_sets(meta_entries(m), "enable"@, i);
    lemma_filter_group_sets(meta_entries(m), "disable"@, j);
    assert(parse_diag_views(m).last() == error_at(m.span, both_filters_msg()));
}

/// Decides whether a configuration sets both filters: the condition of
/// the hard configuration error.
#[verifier::loop_isolation(false)]
pub fn both_filters_set(meta: &MetaItem) -> (r: bool)
    ensures
        r == parsed_both_set(*meta),
{
    let en_key = String::from_str("enable");
    let di_key = String::from_str("disable");
    match &meta.kind {
        MetaKind::List(entries) => {
            let mut has_en = false;
            let mut has_di = false;
            let mut i: usize = 0;
            proof {
                assert(meta_entries(*meta) =~= entries@);
            }
            while i < entries.len()
                invariant
                    i <= entries.len(),
                    has_en == (parsed_filter(entries@.subrange(0, i as int), "enable"@) is Some),
                    has_di == (parsed_filter(entries@.subrange(0, i as int), "disable"@) is Some),
                decreases entries@.len() - i,
            {
                let ghost prefix = entries@.subrange(0, i as int);
                match &entries[i] {
                    NestedMeta::Meta(mi) => match &mi.kind {
                        MetaKind::List(_) => {
                            if mi.name.eq(&en_key) {
                                has_en = true;
                            }
                            if mi.name.eq(&di_key) {
                                has_di = true;
                            }
                        },
                        _ => {},
                    },
                    NestedMeta::Literal(_) => {},
                }
                proof {
                    reveal_strlit("enable");
                    reveal_strlit("disable");
                    assert("enable"@.len() == 6);
                    assert("disable"@.len() == 7);
                    let full = entries@.subrange(0, i as int + 1);
                    assert(full.drop_last() =~= prefix);
                    assert(full.last() == entries@[i as int]);
                    assert(has_en == (parsed_filter(full, "enable"@) is Some));
                    assert(has_di == (parsed_filter(full, "disable"@) is Some));
                }
                i = i + 1;
            }
            proof {
                assert(entries@.subrange(0, entries@.len() as int) =~= entries@);
            }
            has_en && has_di
        },
        _ => {
            proof {
                assert(meta_entries(*meta) =~= Seq::<NestedMeta>::empty());
            }
            false
        },
    }
}

/// Builds the warning text for an entry that no rule accepts.
fn invalid_option(name: &String) -> (r: String)
    ensures
        r@ == invalid_option_msg(name@),
{
    String::from_str("Invalid option ").concat(name.as_str())
}

/// Collects the bare flags of a filter group into a name set, warning on
/// each nested entry that is a pair or a group.
fn meta_list_to_set(list: &Vec<NestedMeta>, diags: &mut Vec<Diagnostic>) -> (r: Vec<String>)
    ensures
        str_views(r@) == group_words(list@),
        diag_views(final(diags)@) == diag_views(old(diags)@) + group_diags(list@),
{
    let ghost pre_d = diags@;
    let mut names: Vec<String> = Vec::new();
    let mut i: usize = 0;
    proof {
        assert(str_views(names@) =~= group_words(list@.subrange(0, 0)));
        assert(diag_views(diags@) =~= diag_views(pre_d) + group_diags(list@.subrange(0, 0)));
    }
    while i < list.len()
        invariant
            i <= list.len(),
            str_views(names@) == group_words(list@.subrange(0, i as int)),
            diag_views(diags@) == diag_views(pre_d) + group_diags(list@.subrange(0, i as int)),
        decreases list@.len() - i,
    {
        let ghost prefix = list@.subrange(0, i as int);
        match &list[i] {
            NestedMeta::Meta(mi) => {
                match &mi.kind {
                    MetaKind::Word => {
                        names.push(mi.name.clone());
                    },
                    _ => {
                        let msg = invalid_option(&mi.name);
                        push_warning(diags, mi.span, msg);
                    },
                }
            },
            NestedMeta::Literal(_) => {},
        }
        proof {
            let full = list@.subrange(0, i as int + 1);
            assert(full.drop_last() =~= prefix);
            assert(full.last() == list@[i as int]);
            assert(str_views(names@) =~= group_words(full));
            assert(diag_views(diags@) =~= diag_views(pre_d) + group_diags(full));
        }
        i = i + 1;
    }
    proof {
        assert(list@.subrange(0, list@.len() as int) =~= list@);
    }
    names
}

/// Parses an annotation's configuration into `Options`, best effort: every
/// malformed entry is warned about and otherwise ignored, and when both
/// `enable` and `disable` end up set, the hard configuration error is
/// reported at the annotation's location and both filters come back
/// cleared, so no returned configuration ever carries both. A non-string
/// value given to a prefix key is warned about and the default kept.
#[verifier::loop_isolation(false)]
pub fn get_options(meta: &MetaItem, diags: &mut Vec<Diagnostic>) -> (r: Options)
    ensures
        r@ == parsed_options(*meta),
        options_wf(r@),
        diag_views(final(diags)@) == diag_views(old(diags)@) + parse_diag_views(*meta),
{
    let ghost pre_d = diags@;
    proof {
        reveal_strlit("prefix_enter");
        reveal_strlit("prefix_exit");
        reveal_strlit("enable");
        reveal_strlit("disable");
        reveal_strlit("pause");
    }
    let mut options = Options::new();
    let pe_key = String::from_str("prefix_enter");
    let px_key = String::from_str("prefix_exit");
    let en_key = String::from_str("enable");
    let di_key = String::from_str("disable");
    let pause_key = String::from_str("pause");
    match &meta.kind {
        MetaKind::List(entries) => {
            let mut i: usize = 0;
            proof {
                assert(meta_entries(*meta) =~= entries@);
                assert(options.prefix_enter@ == parsed_prefix(
                    entries@.subrange(0, 0),
                    "prefix_enter"@,
                    "[+]"@,
                ));
                assert(diag_views(diags@) =~= diag_views(pre_d) + entries_diags(
                    entries@.subrange(0, 0),
                ));
            }
            while i < entries.len()
                invariant
                    i <= entries.len(),
                    options.prefix_enter@ == parsed_prefix(
                        entries@.subrange(0, i as int),
                        "prefix_enter"@,
                        "[+]"@,
                    ),
                    options.prefix_exit@ == parsed_prefix(
                        entries@.subrange(0, i as int),
                        "prefix_exit"@,
                        "[-]"@,
                    ),
                    options.pause == parsed_pause(entries@.subrange(0, i as int)),
                    filter_views(options.enable) == parsed_filter(
                        entries@.subrange(0, i as int),
                        "enable"@,
                    ),
                    filter_views(options.disable) == parsed_filter(
                        entries@.subrange(0, i as int),
                        "disable"@,
                    ),
                    diag_views(diags@) == diag_views(pre_d) + entries_diags(
                        entries@.subrange(0, i as int),
                    ),
                decreases entries@.len() - i,
            {
                let ghost prefix = entries@.subrange(0, i as int);
                match &entries[i] {
                    NestedMeta::Meta(mi) => {
                        match &mi.kind {
                            MetaKind::NameValue(v) => {
                                if mi.name.eq(&pe_key) {
                                    match v {
                                        MetaValue::Str(s) => {
                                            options.prefix_enter = s.clone();
                                        },
                                        MetaValue::Other => {
                                            let msg = invalid_option(&mi.name);
                                            push_warning(diags, mi.span, msg);
                                        },
                                    }
                                } else if mi.name.eq(&px_key) {
                                    match v {
                                        MetaValue::Str(s) => {
                                            options.prefix_exit = s.clone();
                                        },
                                        MetaValue::Other => {
                                            let msg = invalid_option(&mi.name);
                                            push_warning(diags, mi.span, msg);
                                        },
                                    }
                                } else {
                                    let msg = invalid_option(&mi.name);
                                    push_warning(diags, mi.span, msg);
                                }
                            },
                            MetaKind::List(v) => {
                                if mi.name.eq(&en_key) {
                                    let set = meta_list_to_set(v, diags);
                                    options.enable = Some(set);
                                } else if mi.name.eq(&di_key) {
                                    let set = meta_list_to_set(v, diags);
                                    options.disable = Some(set);
                                } else {
                                    let msg = invalid_option(&mi.name);
                                    push_warning(diags, mi.span, msg);
                                }
                            },
                            MetaKind::Word => {
                                if mi.name.eq(&pause_key) {
                                    options.pause = true;
                                } else {
                                    let msg = invalid_option(&mi.name);
                                    push_warning(diags, mi.span, msg);
                                }
                            },
                        }
                    },
                    NestedMeta::Literal(_) => {},
                }
                proof {
                    reveal_strlit("prefix_enter");
                    reveal_strlit("prefix_exit");
                    reveal_strlit("enable");
                    reveal_strlit("disable");
                    reveal_strlit("pause");
                    assert("prefix_enter"@.len() == 12);
                    assert("prefix_exit"@.len() == 11);
                    assert("enable"@.len() == 6);
                    assert("disable"@.len() == 7);
                    assert("pause"@.len() == 5);
                    let full = entries@.subrange(0, i as int + 1);
                    assert(full.drop_last() =~= prefix);
                    assert(full.last() == entries@[i as int]);
                    assert(options.prefix_enter@ == parsed_prefix(full, "prefix_enter"@, "[+]"@));
                    assert(options.prefix_exit@ == parsed_prefix(full, "prefix_exit"@, "[-]"@));
                    assert(options.pause == parsed_pause(full));
                    assert(filter_views(options.enable) == parsed_filter(full, "enable"@));
                    assert(filter_views(options.disable) == parsed_filter(full, "disable"@));
                    assert(diag_views(diags@) =~= diag_views(pre_d) + entries_diags(full));
                }
                i = i + 1;
            }
            proof {
                assert(entries@.subrange(0, entries@.len() as int) =~= entries@);
            }
        },
        _ => {
            proof {
                assert(meta_entries(*meta) =~= Seq::<NestedMeta>::empty());
                assert(diag_views(diags@) =~= diag_views(pre_d) + entries_diags(
                    meta_entries(*meta),
                ));
            }
        },
    }
    if options.enable.is_some() && options.disable.is_some() {
        push_error(diags, meta.span, String::from_str(
            "Cannot use both enable and disable options with trace",
        ));
        options.enable = None;
        options.disable = None;
        proof {
            assert(diag_views(diags@) =~= diag_views(pre_d) + parse_diag_views(*meta));
        }
    } else {
        proof {
            assert(entries_diags(meta_entries(*meta)) + Seq::<DiagView>::empty() =~= entries_diags(
                meta_entries(*meta),
            ));
            assert(diag_views(diags@) =~= diag_views(pre_d) + parse_diag_views(*meta));
        }
    }
    proof {
        assert(options@ =~~= parsed_options(*meta));
    }
    options
}

} // verus!
