use vstd::prelude::*;

use crate::args::{arg_idents, pats_mac_warns, pats_names};
use crate::ast::{
    depth_name, depth_shape_ok, is_depth_decl, FnDef, ImplMember, ModItem, StaticDecl, StaticInit,
    StaticTy, Target,
};
use crate::diag::{diag_views, error_at, push_error, DiagView, Diagnostic};
use crate::filter::{included, is_included};
use crate::options::{
    both_filters_set, get_options, parse_diag_views, parsed_both_set, parsed_options, MetaItem,
    Options, OptionsView,
};
use crate::synth::{new_block, reported_args, traced_block};

verus! {

/// Whether `r` is the expansion of the function or method `f`: excluded by
/// the name-level filter in indirect mode, it is returned unmodified;
/// otherwise its body is replaced by the synthesized tracing wrapper and
/// everything else is kept.
pub open spec fn fn_expanded(opts: OptionsView, f: FnDef, r: FnDef, direct: bool) -> bool {
    if !direct && !included(opts, f.name@) {
        r == f
    } else {
        &&& r.name == f.name
        &&& r.params == f.params
        &&& traced_block(
            opts,
            f.name@,
            reported_args(opts, pats_names(f.params@), direct),
            f.body,
            r.body,
        )
    }
}

/// The diagnostics expanding one function reports: nothing when it is
/// filtered out, else one warning per macro-produced sub-pattern.
pub open spec fn fn_expand_diags(opts: OptionsView, f: FnDef, direct: bool) -> Seq<DiagView> {
    if !direct && !included(opts, f.name@) {
        Seq::empty()
    } else {
        pats_mac_warns(f.params@)
    }
}

/// Name-level filter correctness: an element the filters exclude in
/// indirect mode is left unmodified by expansion.
pub proof fn lemma_filter_correctness(opts: OptionsView, f: FnDef, r: FnDef)
    requires
        fn_expanded(opts, f, r, false),
        !included(opts, f.name@),
    ensures
        r == f,
{
}

/// Expands one function: applies the name-level filter when the annotation
/// is inherited, then wraps the body, filtering the reported arguments when
/// the annotation is direct.
pub fn expand_function(
    options: &Options,
    item: FnDef,
    direct: bool,
    diags: &mut Vec<Diagnostic>,
) -> (r: FnDef)
    ensures
        fn_expanded(options@, item, r, direct),
        diag_views(final(diags)@) == diag_views(old(diags)@) + fn_expand_diags(
            options@,
            item,
            direct,
        ),
{
    if !direct && !is_included(options, &item.name) {
        proof {
            assert(diag_views(diags@) =~= diag_views(diags@) + fn_expand_diags(
                options@,
                item,
                direct,
            ));
        }
        return item;
    }
    let idents = arg_idents(&item.params, diags);
    let body = new_block(options, &item.name, item.body, idents, direct);
    FnDef { name: item.name, params: item.params, body }
}

/// Expands one method. The annotation may sit on the method itself
/// (direct) or be inherited from the enclosing implementation block or
/// module (indirect); the semantics match `expand_function` exactly.
pub fn expand_impl_method(
    options: &Options,
    item: FnDef,
    direct: bool,
    diags: &mut Vec<Diagnostic>,
) -> (r: FnDef)
    ensures
        fn_expanded(options@, item, r, direct),
        diag_views(final(diags)@) == diag_views(old(diags)@) + fn_expand_diags(
            options@,
            item,
            direct,
        ),
{
    expand_function(options, item, direct, diags)
}

/// Whether `r` is the expansion of one implementation-block member: a
/// method expands along the indirect path; a member of any other kind
/// passes through unchanged.
pub open spec fn member_expanded(opts: OptionsView, it: ImplMember, r: ImplMember) -> bool {
    match it {
        ImplMember::Method(m) => match r {
            ImplMember::Method(g) => fn_expanded(opts, m, g, false),
            _ => false,
        },
        ImplMember::Opaque(_) => r == it,
    }
}

/// Whether `rs` is the expansion of an implementation block's members:
/// member for member, in order, nothing dropped.
pub open spec fn impl_expanded(opts: OptionsView, items: Seq<ImplMember>, rs: Seq<
    ImplMember,
>) -> bool {
    &&& rs.len() == items.len()
    &&& forall|k: int| 0 <= k < items.len() ==> member_expanded(opts, items[k], #[trigger] rs[k])
}

/// The diagnostics expanding one implementation-block member reports.
pub open spec fn member_diag_views(opts: OptionsView, it: ImplMember) -> Seq<DiagView> {
    match it {
        ImplMember::Method(m) => fn_expand_diags(opts, m, false),
        ImplMember::Opaque(_) => Seq::empty(),
    }
}

/// The diagnostics expanding an implementation block reports, in order.
pub open spec fn impl_expand_diags(opts: OptionsView, items: Seq<ImplMember>) -> Seq<DiagView>
    decreases items.len(),
{
    if items.len() == 0 {
        Seq::empty()
    } else {
        impl_expand_diags(opts, items.drop_last()) + member_diag_views(opts, items.last())
    }
}

/// Expands an implementation block along the indirect path: each method
/// is filtered by its own name, then wrapped; members of other kinds
/// pass through unchanged.
#[verifier::loop_isolation(false)]
pub fn expand_impl(options: &Options, items: Vec<ImplMember>, diags: &mut Vec<Diagnostic>) -> (r:
    Vec<ImplMember>)
    ensures
        impl_expanded(options@, items@, r@),
        diag_views(final(diags)@) == diag_views(old(diags)@) + impl_expand_diags(
            options@,
            items@,
        ),
{
    let ghost orig = items@;
    let ghost pre_d = diags@;
    let mut rest = items;
    let mut out: Vec<ImplMember> = Vec::new();
    proof {
        assert(diag_views(diags@) =~= diag_views(pre_d) + impl_expand_diags(
            options@,
            orig.subrange(0, 0),
        ));
    }
    while rest.len() > 0
        invariant
            out@.len() + rest@.len() == orig.len(),
            rest@ == orig.subrange(out@.len() as int, orig.len() as int),
            forall|k: int|
                0 <= k < out@.len() ==> member_expanded(options@, orig[k], #[trigger] out@[k]),
            diag_views(diags@) == diag_views(pre_d) + impl_expand_diags(
                options@,
                orig.subrange(0, out@.len() as int),
            ),
        decreases rest@.len(),
    {
        let ghost k = out@.len() as int;
        let member = rest.remove(0);
        proof {
            assert(member == orig[k]);
            assert(rest@ =~= orig.subrange(k + 1, orig.len() as int));
        }
        match member {
            ImplMember::Method(m) => {
                let g = expand_impl_method(options, m, false, diags);
                out.push(ImplMember::Method(g));
            },
            ImplMember::Opaque(id) => {
                out.push(ImplMember::Opaque(id));
            },
        }
        proof {
            assert(orig.subrange(0, k + 1).drop_last() =~= orig.subrange(0, k));
            assert(orig.subrange(0, k + 1).last() == orig[k]);
            assert(member_expanded(options@, orig[k], out@[k]));
            assert(diag_views(diags@) =~= diag_views(pre_d) + impl_expand_diags(
                options@,
                orig.subrange(0, k + 1),
            ));
        }
    }
    proof {
        assert(orig.subrange(0, orig.len() as int) =~= orig);
    }
    out
}

/// Whether a module element is a declaration claiming the depth counter's
/// name.
pub open spec fn is_depth_item(it: ModItem) -> bool {
    match it {
        ModItem::Static(s) => is_depth_decl(s),
        _ => false,
    }
}

/// Whether a module element is a well-formed depth counter declaration.
pub open spec fn is_valid_depth_item(it: ModItem) -> bool {
    match it {
        ModItem::Static(s) => is_depth_decl(s) && depth_shape_ok(s),
        _ => false,
    }
}

/// Whether some element claims the depth counter's name.
pub open spec fn has_depth(items: Seq<ModItem>) -> bool
    decreases items.len(),
{
    if items.len() == 0 {
        false
    } else {
        is_depth_item(items.last()) || has_depth(items.drop_last())
    }
}

/// Whether some element is a well-formed depth counter declaration.
pub open spec fn has_valid_depth(items: Seq<ModItem>) -> bool
    decreases items.len(),
{
    if items.len() == 0 {
        false
    } else {
        is_valid_depth_item(items.last()) || has_valid_depth(items.drop_last())
    }
}

/// The last declaration claiming the depth counter's name.
pub open spec fn last_depth(items: Seq<ModItem>) -> StaticDecl
    decreases items.len(),
{
    if items.len() == 0 {
        arbitrary()
    } else if is_depth_item(items.last()) {
        match items.last() {
            ModItem::Static(s) => s,
            _ => arbitrary(),
        }
    } else {
        last_depth(items.drop_last())
    }
}

/// The error text for a malformed depth counter declaration, naming the
/// first mismatched aspect.
pub open spec fn depth_err_msg(s: StaticDecl) -> Seq<char> {
    if !s.mutable {
        "A static variable with the name DEPTH was found, but it is not mutable"@
    } else if !(s.ty is U32) {
        "A static variable with the name DEPTH was found, but its type is not u32"@
    } else {
        "A static variable with the name DEPTH was found, but its initial value is not 0"@
    }
}

/// What depth-ensurance reports: one error at the last claiming
/// declaration when the name is claimed and no claiming declaration is
/// well-formed; nothing otherwise.
pub open spec fn depth_diag_views(items: Seq<ModItem>) -> Seq<DiagView> {
    if has_depth(items) && !has_valid_depth(items) {
        seq![error_at(last_depth(items).span, depth_err_msg(last_depth(items)))]
    } else {
        Seq::empty()
    }
}

/// Whether an element is the freshly injected depth counter declaration.
pub open spec fn fresh_depth_item(it: ModItem) -> bool {
    match it {
        ModItem::Static(s) => s.span == 0 && s.name@ == depth_name() && depth_shape_ok(s),
        _ => false,
    }
}

/// Whether `r` is `items` with a depth counter ensured: unchanged when
/// some declaration claims the name, else with a fresh declaration
/// appended.
pub open spec fn depth_ensured(items: Seq<ModItem>, r: Seq<ModItem>) -> bool {
    if has_depth(items) {
        r == items
    } else {
        &&& r.len() == items.len() + 1
        &&& r.subrange(0, items.len() as int) == items
        &&& fresh_depth_item(r.last())
    }
}

/// Whether a declaration is well-formed as the depth counter.
fn depth_shape_check(s: &StaticDecl) -> (r: bool)
    ensures
        r == depth_shape_ok(*s),
{
    s.mutable && (match s.ty {
        StaticTy::U32 => true,
        StaticTy::Other => false,
    }) && (match s.init {
        StaticInit::Int(v) => v == 0,
        StaticInit::Other => false,
    })
}

/// Ensures a depth counter exists among a module's elements: reuses a
/// well-formed one, reports a malformed one as a configuration error
/// without fixing it, and appends a fresh one when none claims the name.
#[verifier::loop_isolation(false)]
pub fn ensure_depth(items: Vec<ModItem>, diags: &mut Vec<Diagnostic>) -> (r: Vec<ModItem>)
    ensures
        depth_ensured(items@, r@),
        diag_views(final(diags)@) == diag_views(old(diags)@) + depth_diag_views(items@),
{
    let ghost pre_d = diags@;
    let ghost orig_items = items@;
    let depth_key = String::from_str("DEPTH");
    let mut found = false;
    let mut valid = false;
    let mut ds_span: u64 = 0;
    let mut ds_mutable = false;
    let mut ds_ty = StaticTy::Other;
    let mut i: usize = 0;
    while i < items.len()
        invariant
            i <= items.len(),
            found == has_depth(items@.subrange(0, i as int)),
            valid == has_valid_depth(items@.subrange(0, i as int)),
            found ==> {
                let last = last_depth(items@.subrange(0, i as int));
                &&& ds_span == last.span
                &&& ds_mutable == last.mutable
                &&& ds_ty == last.ty
            },
        decreases items@.len() - i,
    {
        let ghost prefix = items@.subrange(0, i as int);
        match &items[i] {
            ModItem::Static(s) => {
                if s.name.eq(&depth_key) {
                    found = true;
                    if depth_shape_check(s) {
                        valid = true;
                    }
                    ds_span = s.span;
                    ds_mutable = s.mutable;
                    ds_ty = s.ty;
                }
            },
            _ => {},
        }
        proof {
            let full = items@.subrange(0, i as int + 1);
            assert(full.drop_last() =~= prefix);
            assert(full.last() == items@[i as int]);
            assert(found == has_depth(full));
            assert(valid == has_valid_depth(full));
        }
        i = i + 1;
    }
    proof {
        assert(items@.subrange(0, items@.len() as int) =~= items@);
    }
    if !found {
        let mut r = items;
        r.push(
            ModItem::Static(
                StaticDecl {
                    span: 0,
                    name: String::from_str("DEPTH"),
                    mutable: true,
                    ty: StaticTy::U32,
                    init: StaticInit::Int(0),
                },
            ),
        );
        proof {
            assert(r@.subrange(0, r@.len() - 1) =~= orig_items);
            assert(fresh_depth_item(r@.last()));
            assert(depth_diag_views(orig_items) =~= Seq::<DiagView>::empty());
            assert(diag_views(diags@) =~= diag_views(pre_d) + depth_diag_views(orig_items));
        }
        r
    } else {
        if !valid {
            let msg = if !ds_mutable {
                String::from_str(
                    "A static variable with the name DEPTH was found, but it is not mutable",
                )
            } else {
                match ds_ty {
                    StaticTy::Other => String::from_str(
                        "A static variable with the name DEPTH was found, but its type is not u32",
                    ),
                    StaticTy::U32 => String::from_str(
                        "A static variable with the name DEPTH was found, but its initial value is not 0",
                    ),
                }
            };
            push_error(diags, ds_span, msg);
            proof {
                assert(diag_views(diags@) =~= diag_views(pre_d) + depth_diag_views(items@));
            }
        } else {
            proof {
                assert(diag_views(diags@) =~= diag_views(pre_d) + depth_diag_views(items@));
            }
        }
        items
    }
}

/// Whether `r` is the expansion of one module element: functions and
/// implementation blocks expand along the indirect path; counter
/// declarations, nested modules and opaque elements pass through
/// unchanged.
pub open spec fn item_expanded(opts: OptionsView, it: ModItem, r: ModItem) -> bool {
    match it {
        ModItem::Func(f) => match r {
            ModItem::Func(g) => fn_expanded(opts, f, g, false),
            _ => false,
        },
        ModItem::ImplBlock(ms) => match r {
            ModItem::ImplBlock(rs) => impl_expanded(opts, ms@, rs@),
            _ => false,
        },
        _ => r == it,
    }
}

/// The diagnostics expanding one module element reports.
pub open spec fn item_diag_views(opts: OptionsView, it: ModItem) -> Seq<DiagView> {
    match it {
        ModItem::Func(f) => fn_expand_diags(opts, f, false),
        ModItem::ImplBlock(ms) => impl_expand_diags(opts, ms@),
        _ => Seq::empty(),
    }
}

/// The diagnostics expanding a module's elements reports, in order.
pub open spec fn items_diag_views(opts: OptionsView, items: Seq<ModItem>) -> Seq<DiagView>
    decreases items.len(),
{
    if items.len() == 0 {
        Seq::empty()
    } else {
        items_diag_views(opts, items.drop_last()) + item_diag_views(opts, items.last())
    }
}

/// Whether `r` is the expansion of a whole module: every element expanded
/// in place, and a fresh depth counter appended when no declaration claims
/// the name.
pub open spec fn mod_expanded(opts: OptionsView, items: Seq<ModItem>, r: Seq<ModItem>) -> bool {
    &&& if has_depth(items) {
        r.len() == items.len()
    } else {
        r.len() == items.len() + 1 && fresh_depth_item(r.last())
    }
    &&& forall|k: int| 0 <= k < items.len() ==> item_expanded(opts, items[k], #[trigger] r[k])
}

/// The diagnostics expanding a whole module reports: the elements' own,
/// then the depth counter's, if any.
pub open spec fn mod_diag_views(opts: OptionsView, items: Seq<ModItem>) -> Seq<DiagView> {
    items_diag_views(opts, items) + depth_diag_views(items)
}

/// Element expansion does not touch counter declarations, so every
/// depth-related fact carries from a module's elements to their expansion.
pub proof fn lemma_expand_preserves_statics(
    opts: OptionsView,
    items: Seq<ModItem>,
    r: Seq<ModItem>,
)
    requires
        items.len() == r.len(),
        forall|k: int| 0 <= k < items.len() ==> item_expanded(opts, items[k], #[trigger] r[k]),
    ensures
        has_depth(r) == has_depth(items),
        has_valid_depth(r) == has_valid_depth(items),
        has_depth(items) ==> last_depth(r) == last_depth(items),
    decreases items.len(),
{
    if items.len() > 0 {
        assert(item_expanded(opts, items.last(), r.last()));
        assert(is_depth_item(r.last()) == is_depth_item(items.last()));
        assert(is_valid_depth_item(r.last()) == is_valid_depth_item(items.last()));
        assert(forall|k: int|
            0 <= k < items.drop_last().len() ==> item_expanded(
                opts,
                items.drop_last()[k],
                #[trigger] r.drop_last()[k],
            ));
        lemma_expand_preserves_statics(opts, items.drop_last(), r.drop_last());
    }
}

/// Expands every element of a module along the indirect path, then ensures
/// the depth counter.
#[verifier::loop_isolation(false)]
pub fn expand_mod(options: &Options, items: Vec<ModItem>, diags: &mut Vec<Diagnostic>) -> (r: Vec<
    ModItem,
>)
    ensures
        mod_expanded(options@, items@, r@),
        diag_views(final(diags)@) == diag_views(old(diags)@) + mod_diag_views(options@, items@),
{
    let ghost orig = items@;
    let ghost pre_d = diags@;
    let mut rest = items;
    let mut out: Vec<ModItem> = Vec::new();
    proof {
        assert(diag_views(diags@) =~= diag_views(pre_d) + items_diag_views(
            options@,
            orig.subrange(0, 0),
        ));
    }
    while rest.len() > 0
        invariant
            out@.len() + rest@.len() == orig.len(),
            rest@ == orig.subrange(out@.len() as int, orig.len() as int),
            forall|k: int|
                0 <= k < out@.len() ==> item_expanded(options@, orig[k], #[trigger] out@[k]),
            diag_views(diags@) == diag_views(pre_d) + items_diag_views(
                options@,
                orig.subrange(0, out@.len() as int),
            ),
        decreases rest@.len(),
    {
        let ghost k = out@.len() as int;
        let it = rest.remove(0);
        proof {
            assert(it == orig[k]);
            assert(rest@ =~= orig.subrange(k + 1, orig.len() as int));
        }
        match it {
            ModItem::Func(f) => {
                let g = expand_function(options, f, false, diags);
                out.push(ModItem::Func(g));
            },
            ModItem::ImplBlock(ms) => {
                let rs = expand_impl(options, ms, diags);
                out.push(ModItem::ImplBlock(rs));
            },
            other => {
                out.push(other);
            },
        }
        proof {
            assert(orig.subrange(0, k + 1).drop_last() =~= orig.subrange(0, k));
            assert(orig.subrange(0, k + 1).last() == orig[k]);
            assert(item_expanded(options@, orig[k], out@[k]));
            assert(diag_views(diags@) =~= diag_views(pre_d) + items_diag_views(
                options@,
                orig.subrange(0, k + 1),
            ));
        }
    }
    proof {
        assert(orig.subrange(0, orig.len() as int) =~= orig);
        lemma_expand_preserves_statics(options@, orig, out@);
    }
    let ghost out_pre = out@;
    let r = ensure_depth(out, diags);
    proof {
        assert(depth_diag_views(out_pre) =~= depth_diag_views(orig));
        if has_depth(orig) {
            assert(r@ == out_pre);
        } else {
            assert(forall|k: int|
                0 <= k < orig.len() ==> #[trigger] r@[k] == r@.subrange(
                    0,
                    out_pre.len() as int,
                )[k]);
        }
        assert(diag_views(diags@) =~= diag_views(pre_d) + mod_diag_views(options@, orig));
    }
    r
}

/// Idempotent depth injection: what one run of depth-ensurance produces, a
/// second run returns unchanged; and after injecting a fresh counter, the
/// second run reports nothing.
pub proof fn lemma_ensure_depth_idempotent(items: Seq<ModItem>, r: Seq<ModItem>)
    requires
        depth_ensured(items, r),
    ensures
        depth_ensured(r, r),
        !has_depth(items) ==> depth_diag_views(r).len() == 0,
        has_depth(items) ==> depth_diag_views(r) == depth_diag_views(items),
{
    if has_depth(items) {
        assert(r == items);
    } else {
        assert(is_depth_item(r.last()));
        assert(has_depth(r));
        assert(is_valid_depth_item(r.last()));
        assert(has_valid_depth(r));
    }
}

/// In a module expansion, a function the filters exclude comes back as an
/// element equal to its input, whole.
pub proof fn lemma_mod_excluded_unchanged(
    opts: OptionsView,
    items: Seq<ModItem>,
    r: Seq<ModItem>,
    k: int,
)
    requires
        mod_expanded(opts, items, r),
        0 <= k < items.len(),
        items[k] matches ModItem::Func(f) && !included(opts, f.name@),
    ensures
        r[k] == items[k],
{
    assert(item_expanded(opts, items[k], r[k]));
}

/// In a module expansion, a function the filters include comes back with
/// its name and parameters kept and its body replaced by the synthesized
/// wrapper reporting all its extracted argument names.
pub proof fn lemma_mod_included_wrapped(
    opts: OptionsView,
    items: Seq<ModItem>,
    r: Seq<ModItem>,
    k: int,
)
    requires
        mod_expanded(opts, items, r),
        0 <= k < items.len(),
        items[k] matches ModItem::Func(f) && included(opts, f.name@),
    ensures
        r[k] matches ModItem::Func(g) && {
            let f = items[k]->Func_0;
            &&& g.name == f.name
            &&& g.params == f.params
            &&& traced_block(opts, f.name@, pats_names(f.params@), f.body, g.body)
        },
{
    assert(item_expanded(opts, items[k], r[k]));
}

/// The error text for an annotation on an item no rule covers.
pub open spec fn not_applicable_item_msg() -> Seq<char> {
    "trace is only permissible on functions, mods, or impls"@
}

/// The error text for an annotation on a trait item.
pub open spec fn not_applicable_trait_msg() -> Seq<char> {
    "trace is not applicable to trait items"@
}

/// The error text for an annotation on a foreign item.
pub open spec fn not_applicable_foreign_msg() -> Seq<char> {
    "trace is not applicable to foreign items"@
}

/// The error text for an annotation on a bare statement.
pub open spec fn not_applicable_stmt_msg() -> Seq<char> {
    "trace is not applicable to statements"@
}

/// The error text for an annotation on a bare expression.
pub open spec fn not_applicable_expr_msg() -> Seq<char> {
    "trace is not applicable to expressions"@
}

/// Whether `r` is the expansion of an annotated target: functions and
/// methods along the direct path, modules and implementation blocks along
/// the indirect path, and everything else returned unmodified.
pub open spec fn target_expanded(opts: OptionsView, t: Target, r: Target) -> bool {
    match t {
        Target::Item(it) => match it {
            ModItem::Func(f) => match r {
                Target::Item(ModItem::Func(g)) => fn_expanded(opts, f, g, true),
                _ => false,
            },
            ModItem::Module(items) => match r {
                Target::Item(ModItem::Module(out)) => mod_expanded(opts, items@, out@),
                _ => false,
            },
            ModItem::ImplBlock(ms) => match r {
                Target::Item(ModItem::ImplBlock(rs)) => impl_expanded(opts, ms@, rs@),
                _ => false,
            },
            _ => r == t,
        },
        Target::Method(m) => match r {
            Target::Method(g) => fn_expanded(opts, m, g, true),
            _ => false,
        },
        _ => r == t,
    }
}

/// The diagnostics expanding an annotated target reports: the applicable
/// paths' own, or one applicability error at the annotation's location.
pub open spec fn target_diag_views(opts: OptionsView, t: Target, span: u64) -> Seq<DiagView> {
    match t {
        Target::Item(it) => match it {
            ModItem::Func(f) => fn_expand_diags(opts, f, true),
            ModItem::Module(items) => mod_diag_views(opts, items@),
            ModItem::ImplBlock(ms) => impl_expand_diags(opts, ms@),
            _ => seq![error_at(span, not_applicable_item_msg())],
        },
        Target::Method(m) => fn_expand_diags(opts, m, true),
        Target::TraitItem(_) => seq![error_at(span, not_applicable_trait_msg())],
        Target::ForeignItem(_) => seq![error_at(span, not_applicable_foreign_msg())],
        Target::Stmt(_) => seq![error_at(span, not_applicable_stmt_msg())],
        Target::Expr(_) => seq![error_at(span, not_applicable_expr_msg())],
    }
}

/// The top-level entry point: parses the annotation's configuration at
/// `span`, then dispatches on the annotated target. When the configuration
/// sets both filters, the hard error is reported and the target returned
/// unmodified; otherwise the applicable expansion path runs, or an
/// applicability error is reported and the target returned unmodified.
pub fn trace_expand(
    span: u64,
    meta: &MetaItem,
    target: Target,
    diags: &mut Vec<Diagnostic>,
) -> (r: Target)
    ensures
        parsed_both_set(*meta) ==> r == target,
        !parsed_both_set(*meta) ==> target_expanded(parsed_options(*meta), target, r),
        diag_views(final(diags)@) == diag_views(old(diags)@) + parse_diag_views(*meta) + (
        if parsed_both_set(*meta) {
            Seq::<DiagView>::empty()
        } else {
            target_diag_views(parsed_options(*meta), target, span)
        }),
{
    let ghost pre_d = diags@;
    let options = get_options(meta, diags);
    if both_filters_set(meta) {
        proof {
            assert(diag_views(diags@) =~= diag_views(pre_d) + parse_diag_views(*meta)
                + Seq::<DiagView>::empty());
        }
        return target;
    }
    let r = match target {
        Target::Item(it) => match it {
            ModItem::Func(f) => {
                let g = expand_function(&options, f, true, diags);
                Target::Item(ModItem::Func(g))
            },
            ModItem::Module(items) => {
                let out = expand_mod(&options, items, diags);
                Target::Item(ModItem::Module(out))
            },
            ModItem::ImplBlock(ms) => {
                let rs = expand_impl(&options, ms, diags);
                Target::Item(ModItem::ImplBlock(rs))
            },
            other => {
                push_error(diags, span, String::from_str(
                    "trace is only permissible on functions, mods, or impls",
                ));
                Target::Item(other)
            },
        },
        Target::Method(m) => {
            let g = expand_impl_method(&options, m, true, diags);
            Target::Method(g)
        },
        Target::TraitItem(id) => {
            push_error(diags, span, String::from_str("trace is not applicable to trait items"));
            Target::TraitItem(id)
        },
        Target::ForeignItem(id) => {
            push_error(diags, span, String::from_str("trace is not applicable to foreign items"));
            Target::ForeignItem(id)
        },
        Target::Stmt(id) => {
            push_error(diags, span, String::from_str("trace is not applicable to statements"));
            Target::Stmt(id)
        },
        Target::Expr(id) => {
            push_error(diags, span, String::from_str("trace is not applicable to expressions"));
            Target::Expr(id)
        },
    };
    proof {
        assert(diag_views(diags@) =~= diag_views(pre_d) + parse_diag_views(*meta)
            + target_diag_views(parsed_options(*meta), target, span));
    }
    r
}

} // verus!
