use vstd::prelude::*;

use crate::ast::{str_views, Pat};
use crate::diag::{diag_views, warning_at, DiagView, Diagnostic};

verus! {

/// The warning emitted for a pattern produced by a macro invocation.
pub open spec fn mac_warn_msg() -> Seq<char> {
    "trace ignores pattern macros in function arguments"@
}

/// The names a single pattern binds, in declaration order, the receiver
/// excluded. Patterns that carry no runtime value contribute nothing.
pub open spec fn pat_names(p: Pat) -> Seq<Seq<char>>
    decreases p,
{
    match p {
        Pat::Ident(name) => if name@ == "self"@ {
            Seq::empty()
        } else {
            seq![name@]
        },
        Pat::Wild => Seq::empty(),
        Pat::Lit => Seq::empty(),
        Pat::Range => Seq::empty(),
        Pat::Path => Seq::empty(),
        Pat::Tuple(ps) => pats_names(ps@),
        Pat::Struct(ps) => pats_names(ps@),
        Pat::Slice(pre, rest, suf) => pats_names(pre@) + (match rest {
            Some(q) => pat_names(*q),
            None => Seq::empty(),
        }) + pats_names(suf@),
        Pat::Wrapped(q) => pat_names(*q),
        Pat::Mac(_) => Seq::empty(),
    }
}

/// The names a list of patterns binds, concatenated in order.
pub open spec fn pats_names(ps: Seq<Pat>) -> Seq<Seq<char>>
    decreases ps,
{
    if ps.len() == 0 {
        Seq::empty()
    } else {
        pat_names(ps[0]) + pats_names(ps.drop_first())
    }
}

/// The warnings extraction reports for one pattern: one per macro-produced
/// sub-pattern, in traversal order.
pub open spec fn pat_mac_warns(p: Pat) -> Seq<DiagView>
    decreases p,
{
    match p {
        Pat::Ident(_) => Seq::empty(),
        Pat::Wild => Seq::empty(),
        Pat::Lit => Seq::empty(),
        Pat::Range => Seq::empty(),
        Pat::Path => Seq::empty(),
        Pat::Tuple(ps) => pats_mac_warns(ps@),
        Pat::Struct(ps) => pats_mac_warns(ps@),
        Pat::Slice(pre, rest, suf) => pats_mac_warns(pre@) + (match rest {
            Some(q) => pat_mac_warns(*q),
            None => Seq::empty(),
        }) + pats_mac_warns(suf@),
        Pat::Wrapped(q) => pat_mac_warns(*q),
        Pat::Mac(span) => seq![warning_at(span, mac_warn_msg())],
    }
}

/// The warnings extraction reports for a list of patterns.
pub open spec fn pats_mac_warns(ps: Seq<Pat>) -> Seq<DiagView>
    decreases ps,
{
    if ps.len() == 0 {
        Seq::empty()
    } else {
        pat_mac_warns(ps[0]) + pats_mac_warns(ps.drop_first())
    }
}

/// Appending a pattern to a list appends its names.
pub proof fn lemma_pats_names_push(ps: Seq<Pat>, p: Pat)
    ensures
        pats_names(ps.push(p)) == pats_names(ps) + pat_names(p),
    decreases ps,
{
    reveal_with_fuel(pats_names, 3);
    if ps.len() == 0 {
        assert(ps.push(p)[0] == p);
        assert(ps.push(p).drop_first() =~= Seq::<Pat>::empty());
        assert(pats_names(ps.push(p)) =~= pats_names(ps) + pat_names(p));
    } else {
        assert(ps.push(p)[0] == ps[0]);
        assert(ps.push(p).drop_first() =~= ps.drop_first().push(p));
        lemma_pats_names_push(ps.drop_first(), p);
        assert(pats_names(ps.push(p)) == pat_names(ps[0]) + pats_names(ps.drop_first().push(p)));
        assert(pats_names(ps.push(p)) =~= pats_names(ps) + pat_names(p));
    }
}

/// Appending a pattern to a list appends its warnings.
pub proof fn lemma_pats_mac_warns_push(ps: Seq<Pat>, p: Pat)
    ensures
        pats_mac_warns(ps.push(p)) == pats_mac_warns(ps) + pat_mac_warns(p),
    decreases ps,
{
    reveal_with_fuel(pats_mac_warns, 3);
    if ps.len() == 0 {
        assert(ps.push(p)[0] == p);
        assert(ps.push(p).drop_first() =~= Seq::<Pat>::empty());
        assert(pats_mac_warns(ps.push(p)) =~= pats_mac_warns(ps) + pat_mac_warns(p));
    } else {
        assert(ps.push(p)[0] == ps[0]);
        assert(ps.push(p).drop_first() =~= ps.drop_first().push(p));
        lemma_pats_mac_warns_push(ps.drop_first(), p);
        assert(pats_mac_warns(ps.push(p)) == pat_mac_warns(ps[0]) + pats_mac_warns(
            ps.drop_first().push(p),
        ));
        assert(pats_mac_warns(ps.push(p)) =~= pats_mac_warns(ps) + pat_mac_warns(p));
    }
}

/// Walks one pattern, pushing each bound name onto `idents` and a warning
/// onto `diags` for each macro-produced sub-pattern.
fn extract_idents(p: &Pat, idents: &mut Vec<String>, diags: &mut Vec<Diagnostic>)
    ensures
        str_views(final(idents)@) == str_views(old(idents)@) + pat_names(*p),
        diag_views(final(diags)@) == diag_views(old(diags)@) + pat_mac_warns(*p),
    decreases *p,
{
    let ghost pre_i = idents@;
    let ghost pre_d = diags@;
    match p {
        Pat::Ident(name) => {
            let receiver = String::from_str("self");
            if !name.eq(&receiver) {
                idents.push(name.clone());
                proof {
                    assert(str_views(idents@) =~= str_views(pre_i) + pat_names(*p));
                }
            } else {
                proof {
                    assert(str_views(idents@) =~= str_views(pre_i) + pat_names(*p));
                }
            }
            proof {
                assert(diag_views(diags@) =~= diag_views(pre_d) + pat_mac_warns(*p));
            }
        },
        Pat::Wild | Pat::Lit | Pat::Range | Pat::Path => {
            proof {
                assert(str_views(idents@) =~= str_views(pre_i) + pat_names(*p));
                assert(diag_views(diags@) =~= diag_views(pre_d) + pat_mac_warns(*p));
            }
        },
        Pat::Tuple(ps) => {
            extract_list(ps, idents, diags);
        },
        Pat::Struct(ps) => {
            extract_list(ps, idents, diags);
        },
        Pat::Slice(pre, rest, suf) => {
            extract_list(pre, idents, diags);
            match rest {
                Some(q) => {
                    extract_idents(&*q, idents, diags);
                },
                None => {
                    proof {
                        assert(str_views(idents@) + Seq::<Seq<char>>::empty() =~= str_views(
                            idents@,
                        ));
                        assert(diag_views(diags@) + Seq::<DiagView>::empty() =~= diag_views(
                            diags@,
                        ));
                    }
                },
            }
            extract_list(suf, idents, diags);
            proof {
                assert(str_views(idents@) =~= str_views(pre_i) + pat_names(*p));
                assert(diag_views(diags@) =~= diag_views(pre_d) + pat_mac_warns(*p));
            }
        },
        Pat::Wrapped(q) => {
            extract_idents(&*q, idents, diags);
        },
        Pat::Mac(span) => {
            crate::diag::push_warning(diags, *span, String::from_str(
                "trace ignores pattern macros in function arguments",
            ));
            proof {
                assert(str_views(idents@) =~= str_views(pre_i) + pat_names(*p));
                assert(diag_views(diags@) =~= diag_views(pre_d) + pat_mac_warns(*p));
            }
        },
    }
}

/// Walks a list of patterns in order.
fn extract_list(ps: &Vec<Pat>, idents: &mut Vec<String>, diags: &mut Vec<Diagnostic>)
    ensures
        str_views(final(idents)@) == str_views(old(idents)@) + pats_names(ps@),
        diag_views(final(diags)@) == diag_views(old(diags)@) + pats_mac_warns(ps@),
    decreases ps@,
{
    let ghost pre_i = idents@;
    let ghost pre_d = diags@;
    let mut i: usize = 0;
    while i < ps.len()
        invariant
            i <= ps.len(),
            str_views(idents@) == str_views(pre_i) + pats_names(ps@.subrange(0, i as int)),
            diag_views(diags@) == diag_views(pre_d) + pats_mac_warns(ps@.subrange(0, i as int)),
        decreases ps@.len() - i,
    {
        let ghost prefix = ps@.subrange(0, i as int);
        extract_idents(&ps[i], idents, diags);
        proof {
            assert(ps@.subrange(0, i as int + 1) =~= prefix.push(ps@[i as int]));
            lemma_pats_names_push(prefix, ps@[i as int]);
            lemma_pats_mac_warns_push(prefix, ps@[i as int]);
            assert(str_views(idents@) =~= str_views(pre_i) + pats_names(
                ps@.subrange(0, i as int + 1),
            ));
            assert(diag_views(diags@) =~= diag_views(pre_d) + pats_mac_warns(
                ps@.subrange(0, i as int + 1),
            ));
        }
        i = i + 1;
    }
    proof {
        assert(ps@.subrange(0, ps@.len() as int) =~= ps@);
    }
}

/// Flattens a parameter-pattern list into the ordered list of bound names to
/// report, warning once for each macro-produced sub-pattern along the way.
pub fn arg_idents(params: &Vec<Pat>, diags: &mut Vec<Diagnostic>) -> (r: Vec<String>)
    ensures
        str_views(r@) == pats_names(params@),
        diag_views(final(diags)@) == diag_views(old(diags)@) + pats_mac_warns(params@),
{
    let mut idents: Vec<String> = Vec::new();
    proof {
        assert(str_views(idents@) =~= Seq::<Seq<char>>::empty());
    }
    extract_list(params, &mut idents, diags);
    proof {
        assert(str_views(idents@) =~= pats_names(params@));
    }
    idents
}

} // verus!
