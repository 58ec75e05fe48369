use vstd::prelude::*;

use crate::ast::str_views;
use crate::options::{Options, OptionsView};

verus! {

/// Whether a candidate name passes the configured filters: with `enable`
/// set, only members pass; with `disable` set, only non-members pass; with
/// neither, everything passes. The same rule serves the name-level filter
/// (indirect annotations) and the argument-level filter (direct ones).
pub open spec fn included(opts: OptionsView, name: Seq<char>) -> bool {
    match opts.enable {
        Some(set) => set.contains(name),
        None => match opts.disable {
            Some(set) => !set.contains(name),
            None => true,
        },
    }
}

/// The subset of `names` that passes the filters, order preserved.
pub open spec fn kept_args(opts: OptionsView, names: Seq<Seq<char>>) -> Seq<Seq<char>>
    decreases names.len(),
{
    if names.len() == 0 {
        Seq::empty()
    } else {
        kept_args(opts, names.drop_last()) + (if included(opts, names.last()) {
            seq![names.last()]
        } else {
            Seq::empty()
        })
    }
}

/// With `enable` set, a candidate name outside the set never passes.
pub proof fn lemma_enable_excludes(opts: OptionsView, name: Seq<char>)
    requires
        opts.enable matches Some(set) && !set.contains(name),
    ensures
        !included(opts, name),
{
}

/// With `enable` set, exactly the members pass, whatever `disable` holds.
pub proof fn lemma_enable_selects(opts: OptionsView, name: Seq<char>)
    requires
        opts.enable matches Some(set) && set.contains(name),
    ensures
        included(opts, name),
{
}

/// With `disable` set and `enable` not, a listed name never passes and an
/// unlisted one always does.
pub proof fn lemma_disable_rule(opts: OptionsView, name: Seq<char>)
    requires
        opts.enable is None,
        opts.disable is Some,
    ensures
        included(opts, name) == !opts.disable.unwrap().contains(name),
{
}

/// Whether `name` occurs in `set`.
fn contains_name(set: &Vec<String>, name: &String) -> (r: bool)
    ensures
        r == str_views(set@).contains(name@),
{
    let mut i: usize = 0;
    while i < set.len()
        invariant
            i <= set.len(),
            forall|k: int| 0 <= k < i ==> str_views(set@)[k] != name@,
        decreases set@.len() - i,
    {
        if set[i].eq(name) {
            proof {
                assert(str_views(set@)[i as int] == name@);
            }
            return true;
        }
        i = i + 1;
    }
    proof {
        assert(forall|k: int| 0 <= k < set@.len() ==> str_views(set@)[k] != name@);
    }
    false
}

/// Decides inclusion of one candidate name under the configured filters.
pub fn is_included(opts: &Options, name: &String) -> (r: bool)
    ensures
        r == included(opts@, name@),
{
    match &opts.enable {
        Some(set) => contains_name(set, name),
        None => match &opts.disable {
            Some(set) => !contains_name(set, name),
            None => true,
        },
    }
}

/// Keeps the argument names that pass the filters, in order.
pub fn filter_args(opts: &Options, names: Vec<String>) -> (r: Vec<String>)
    ensures
        str_views(r@) == kept_args(opts@, str_views(names@)),
{
    let mut kept: Vec<String> = Vec::new();
    let mut i: usize = 0;
    proof {
        assert(str_views(kept@) =~= kept_args(opts@, str_views(names@.subrange(0, 0))));
    }
    while i < names.len()
        invariant
            i <= names.len(),
            str_views(kept@) == kept_args(opts@, str_views(names@.subrange(0, i as int))),
        decreases names@.len() - i,
    {
        let ghost prefix = str_views(names@.subrange(0, i as int));
        if is_included(opts, &names[i]) {
            kept.push(names[i].clone());
        }
        proof {
            let full = str_views(names@.subrange(0, i as int + 1));
            assert(names@.subrange(0, i as int + 1).drop_last() =~= names@.subrange(0, i as int));
            assert(full.drop_last() =~= prefix);
            assert(full.last() == names@[i as int]@);
            assert(str_views(kept@) =~= kept_args(opts@, full));
        }
        i = i + 1;
    }
    proof {
        assert(names@.subrange(0, names@.len() as int) =~= names@);
    }
    kept
}

} // verus!
