use vstd::prelude::*;

use crate::ast::{str_views, Block, TracedBody};
use crate::filter::{filter_args, kept_args};
use crate::options::{Options, OptionsView};

verus! {

/// Whether `r` is the synthesized replacement body for an element named
/// `name` with reported argument names `args`, wrapping `inner`: the tags
/// and the pause flag come from the configuration, and the original body is
/// kept whole inside.
pub open spec fn traced_block(
    opts: OptionsView,
    name: Seq<char>,
    args: Seq<Seq<char>>,
    inner: Block,
    r: Block,
) -> bool {
    match r {
        Block::Traced(t) => {
            &&& t.prefix_enter@ == opts.prefix_enter
            &&& t.prefix_exit@ == opts.prefix_exit
            &&& t.pause == opts.pause
            &&& t.fn_name@ == name
            &&& str_views(t.args@) == args
            &&& *t.inner == inner
        },
        Block::Orig(_) => false,
    }
}

/// The argument names a replacement body reports: with the annotation
/// directly on the element, the extracted names pass the argument-level
/// filter; inherited from an enclosing scope, they are reported whole.
pub open spec fn reported_args(opts: OptionsView, names: Seq<Seq<char>>, direct: bool) -> Seq<
    Seq<char>,
> {
    if direct {
        kept_args(opts, names)
    } else {
        names
    }
}

/// Builds the replacement body for one function or method from structured
/// values: the configuration, the element's name, its original body, and
/// the extracted argument names, filtered here when the annotation is
/// direct.
pub fn new_block(
    options: &Options,
    name: &String,
    block: Block,
    idents: Vec<String>,
    direct: bool,
) -> (r: Block)
    ensures
        traced_block(options@, name@, reported_args(options@, str_views(idents@), direct), block, r),
{
    let reported = if direct {
        filter_args(options, idents)
    } else {
        idents
    };
    Block::Traced(
        TracedBody {
            prefix_enter: options.prefix_enter.clone(),
            prefix_exit: options.prefix_exit.clone(),
            pause: options.pause,
            fn_name: name.clone(),
            args: reported,
            inner: Box::new(block),
        },
    )
}

} // verus!
