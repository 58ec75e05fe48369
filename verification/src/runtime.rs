use vstd::prelude::*;

use crate::ast::TracedBody;

verus! {

/// The indentation at nesting depth `depth`: one space per unit.
pub open spec fn indent_view(depth: nat) -> Seq<char> {
    Seq::new(depth, |i: int| ' ')
}

/// One reported argument, formatted `name: value`.
pub open spec fn arg_pair_fmt(name: Seq<char>, value: Seq<char>) -> Seq<char> {
    name + ": "@ + value
}

/// The reported arguments, formatted in order and separated by `, `.
pub open spec fn args_fmt(pairs: Seq<(Seq<char>, Seq<char>)>) -> Seq<char>
    decreases pairs.len(),
{
    if pairs.len() == 0 {
        Seq::empty()
    } else if pairs.len() == 1 {
        arg_pair_fmt(pairs[0].0, pairs[0].1)
    } else {
        args_fmt(pairs.drop_last()) + ", "@ + arg_pair_fmt(pairs.last().0, pairs.last().1)
    }
}

/// Argument names paired with their rendered values, in order.
pub open spec fn zip_args(names: Seq<String>, values: Seq<String>) -> Seq<(Seq<char>, Seq<char>)> {
    Seq::new(names.len(), |k: int| (names[k]@, values[k]@))
}

/// The exact entry trace line at nesting depth `depth`.
pub open spec fn entry_line_view(
    pe: Seq<char>,
    name: Seq<char>,
    pairs: Seq<(Seq<char>, Seq<char>)>,
    depth: nat,
) -> Seq<char> {
    indent_view(depth) + pe + " Entering "@ + name + "("@ + args_fmt(pairs) + ")"@
}

/// The exact exit trace line at nesting depth `depth`.
pub open spec fn exit_line_view(
    px: Seq<char>,
    name: Seq<char>,
    result: Seq<char>,
    depth: nat,
) -> Seq<char> {
    indent_view(depth) + px + " Exiting "@ + name + " = "@ + result
}

/// Builds the indentation string for `depth`.
#[verifier::loop_isolation(false)]
pub fn render_indent(depth: u32) -> (r: String)
    ensures
        r@ == indent_view(depth as nat),
{
    let mut s = String::new();
    let mut i: u32 = 0;
    proof {
        assert(s@ =~= indent_view(0));
    }
    while i < depth
        invariant
            i <= depth,
            s@ == indent_view(i as nat),
        decreases depth - i,
    {
        s.append(" ");
        proof {
            reveal_strlit(" ");
            assert(s@ =~= indent_view((i + 1) as nat));
        }
        i = i + 1;
    }
    s
}

/// Formats the reported arguments with their values.
#[verifier::loop_isolation(false)]
pub fn format_args(names: &Vec<String>, values: &Vec<String>) -> (r: String)
    requires
        names@.len() == values@.len(),
    ensures
        r@ == args_fmt(zip_args(names@, values@)),
{
    let ghost pairs = zip_args(names@, values@);
    let mut s = String::new();
    let mut i: usize = 0;
    proof {
        assert(pairs.subrange(0, 0) =~= Seq::<(Seq<char>, Seq<char>)>::empty());
        assert(s@ =~= args_fmt(pairs.subrange(0, 0)));
    }
    while i < names.len()
        invariant
            i <= names.len(),
            s@ == args_fmt(pairs.subrange(0, i as int)),
        decreases names@.len() - i,
    {
        if i > 0 {
            s.append(", ");
        }
        s.append(names[i].as_str());
        s.append(": ");
        s.append(values[i].as_str());
        proof {
            let full = pairs.subrange(0, i as int + 1);
            assert(full.drop_last() =~= pairs.subrange(0, i as int));
            assert(full.last() == pairs[i as int]);
            assert(s@ =~= args_fmt(full));
        }
        i = i + 1;
    }
    proof {
        assert(pairs.subrange(0, pairs.len() as int) =~= pairs);
    }
    s
}

/// Builds the entry trace line: indentation, the entry tag, the element's
/// name, and the reported arguments with their values.
pub fn entry_line(
    prefix_enter: &String,
    name: &String,
    names: &Vec<String>,
    values: &Vec<String>,
    depth: u32,
) -> (r: String)
    requires
        names@.len() == values@.len(),
    ensures
        r@ == entry_line_view(prefix_enter@, name@, zip_args(names@, values@), depth as nat),
{
    let mut s = render_indent(depth);
    s.append(prefix_enter.as_str());
    s.append(" Entering ");
    s.append(name.as_str());
    s.append("(");
    let args = format_args(names, values);
    s.append(args.as_str());
    s.append(")");
    proof {
        assert(s@ =~= entry_line_view(
            prefix_enter@,
            name@,
            zip_args(names@, values@),
            depth as nat,
        ));
    }
    s
}

/// Builds the exit trace line: indentation, the exit tag, the element's
/// name, and the rendered result.
pub fn exit_line(prefix_exit: &String, name: &String, result_repr: &String, depth: u32) -> (r:
    String)
    ensures
        r@ == exit_line_view(prefix_exit@, name@, result_repr@, depth as nat),
{
    let mut s = render_indent(depth);
    s.append(prefix_exit.as_str());
    s.append(" Exiting ");
    s.append(name.as_str());
    s.append(" = ");
    s.append(result_repr.as_str());
    proof {
        assert(s@ =~= exit_line_view(prefix_exit@, name@, result_repr@, depth as nat));
    }
    s
}

/// The call boundary before the original body runs: renders the entry
/// line at the current depth, then increments the counter by exactly one,
/// so that calls nested inside the body indent one level deeper.
pub fn trace_enter(t: &TracedBody, values: &Vec<String>, depth: &mut u32) -> (line: String)
    requires
        values@.len() == t.args@.len(),
        *old(depth) < u32::MAX,
    ensures
        *final(depth) == *old(depth) + 1,
        line@ == entry_line_view(
            t.prefix_enter@,
            t.fn_name@,
            zip_args(t.args@, values@),
            *old(depth) as nat,
        ),
{
    let line = entry_line(&t.prefix_enter, &t.fn_name, &t.args, values, *depth);
    *depth = *depth + 1;
    line
}

/// The call boundary after the original body has run: decrements the
/// counter by exactly one, strictly before the exit line is rendered, so
/// the exit line carries the matching entry line's indentation.
pub fn trace_exit(t: &TracedBody, result_repr: &String, depth: &mut u32) -> (line: String)
    requires
        *old(depth) > 0,
    ensures
        *final(depth) == *old(depth) - 1,
        line@ == exit_line_view(
            t.prefix_exit@,
            t.fn_name@,
            result_repr@,
            (*old(depth) - 1) as nat,
        ),
{
    *depth = *depth - 1;
    exit_line(&t.prefix_exit, &t.fn_name, result_repr, *depth)
}

/// Runs one traced call at the current depth: emits the entry line, steps
/// the depth counter around the original body, and emits the exit line.
/// The body's result passes through untouched (semantic transparency), the
/// counter returns to its entry value (depth pairing), and both lines are
/// rendered at the same depth, the exit line after the decrement.
pub fn run_traced<V>(
    t: &TracedBody,
    values: &Vec<String>,
    depth: &mut u32,
    body_result: V,
    result_repr: &String,
) -> (r: (Vec<String>, V))
    requires
        values@.len() == t.args@.len(),
        *old(depth) < u32::MAX,
    ensures
        r.1 == body_result,
        *final(depth) == *old(depth),
        r.0@.len() == 2,
        r.0@[0]@ == entry_line_view(
            t.prefix_enter@,
            t.fn_name@,
            zip_args(t.args@, values@),
            *old(depth) as nat,
        ),
        r.0@[1]@ == exit_line_view(
            t.prefix_exit@,
            t.fn_name@,
            result_repr@,
            *old(depth) as nat,
        ),
{
    let entry = trace_enter(t, values, depth);
    let result = body_result;
    let exit = trace_exit(t, result_repr, depth);
    let mut lines: Vec<String> = Vec::new();
    lines.push(entry);
    lines.push(exit);
    (lines, result)
}

/// Depth pairing: at one call level, the entry line and the exit line
/// carry the same indentation, of exactly one space per unit of depth.
pub proof fn lemma_depth_pairing(
    pe: Seq<char>,
    px: Seq<char>,
    name: Seq<char>,
    pairs: Seq<(Seq<char>, Seq<char>)>,
    result: Seq<char>,
    depth: nat,
)
    ensures
        entry_line_view(pe, name, pairs, depth).subrange(0, depth as int) == indent_view(depth),
        exit_line_view(px, name, result, depth).subrange(0, depth as int) == indent_view(depth),
{
    assert(entry_line_view(pe, name, pairs, depth).subrange(0, depth as int) =~= indent_view(
        depth,
    ));
    assert(exit_line_view(px, name, result, depth).subrange(0, depth as int) =~= indent_view(
        depth,
    ));
}

} // verus!
