//! The signature normalizer: strips redundant pass-by-value `const`
//! qualifiers from a function's raw argument text, re-wraps multi-argument
//! lists with alignment under the rendered declaration, and collapses
//! conditional `noexcept` expressions.

use vstd::prelude::*;

use crate::model::{Function, FunctionView};
use crate::text::{
    char_repeat, contains_sub, drop_empty, find_idx, find_sub, has_sub, lemma_find_idx,
    replace_all, replace_sub, spaces, split_by, split_sub, str_eq,
};

verus! {

/// One parameter fragment after `const` stripping: a fragment with a
/// pointer or reference marker is kept as it stands, otherwise every
/// occurrence of `"const "` is removed.
pub open spec fn frag_out(a: Seq<char>) -> Seq<char> {
    if !has_sub(a, "*"@) && !has_sub(a, "&"@) && has_sub(a, "const"@) {
        replace_all(a, "const "@, Seq::empty())
    } else {
        a
    }
}

/// The separator written before a non-first fragment: a plain comma when
/// the fragment holds an angle bracket (to avoid breaking inside a template
/// argument list), else a comma, a line break and the alignment padding.
pub open spec fn frag_sep(a: Seq<char>, pad: Seq<char>) -> Seq<char> {
    if has_sub(a, "<"@) || has_sub(a, ">"@) {
        ","@
    } else {
        ","@ + "\n"@ + pad
    }
}

/// Folds the fragments into the rewritten parameter list, appending to
/// `acc`; `first` records whether no fragment has been written yet.
pub open spec fn rejoin_from(
    frags: Seq<Seq<char>>,
    pad: Seq<char>,
    acc: Seq<char>,
    first: bool,
) -> Seq<char>
    decreases frags.len(),
{
    if frags.len() == 0 {
        acc
    } else {
        let piece = if first {
            frag_out(frags.first())
        } else {
            frag_sep(frags.first(), pad) + frag_out(frags.first())
        };
        rejoin_from(frags.drop_first(), pad, acc + piece, false)
    }
}

/// The rewritten parameter list of the given fragments.
pub open spec fn rejoin(frags: Seq<Seq<char>>, pad: Seq<char>) -> Seq<char> {
    rejoin_from(frags, pad, Seq::empty(), true)
}

/// The run of blanks that aligns a continuation line under the opening
/// parenthesis of the rendered declaration: the widths of the return type
/// and the function name, the fixed widths of the `static ` and `explicit `
/// keyword prefixes when present, and the blank after a non-empty return
/// type.
pub open spec fn align_pad(f: FunctionView) -> Seq<char> {
    char_repeat(
        ' ',
        (f.return_type.len() + f.name.len() + (if f.is_static {
            7int
        } else {
            0int
        }) + (if f.is_explicit {
            9int
        } else {
            0int
        }) + (if f.return_type.len() == 0 {
            0int
        } else {
            1int
        })) as nat,
    )
}

/// The argument text after `const` stripping and re-wrapping.  With no
/// recorded parameter names the text is untouched.  With the trailing
/// return placeholder as return type, the text is split once on the
/// trailing-return marker: the head is rewritten and the tail reattached
/// verbatim.
pub open spec fn stripped_args(f: FunctionView) -> Seq<char> {
    if f.parameter_names.len() == 0 {
        f.args
    } else {
        let pad = align_pad(f);
        if f.return_type == "auto"@ && find_idx(f.args, "->"@) >= 0 {
            let i = find_idx(f.args, "->"@);
            rejoin(drop_empty(split_by(f.args.take(i), ","@)), pad) + "->"@ + f.args.skip(i + 2)
        } else {
            rejoin(drop_empty(split_by(f.args, ","@)), pad)
        }
    }
}

/// Appends `n` blanks to `s`.
fn push_spaces(s: &mut String, n: usize)
    ensures
        final(s)@ == old(s)@ + char_repeat(' ', n as nat),
{
    let sp = spaces(n);
    s.append(sp.as_str());
}

/// Builds the alignment padding of `func`.
fn build_pad(func: &Function) -> (r: String)
    ensures
        r@ == align_pad(func@),
{
    let mut pad = String::new();
    push_spaces(&mut pad, func.return_type.unicode_len());
    push_spaces(&mut pad, func.name.unicode_len());
    if func.is_static {
        push_spaces(&mut pad, 7);
    }
    if func.is_explicit {
        push_spaces(&mut pad, 9);
    }
    if func.return_type.unicode_len() > 0 {
        push_spaces(&mut pad, 1);
    }
    proof {
        assert(pad@ =~= align_pad(func@));
    }
    pad
}

/// The accumulator only prefixes the fold's result.
proof fn lemma_rejoin_prepend(frags: Seq<Seq<char>>, pad: Seq<char>, acc: Seq<char>, first: bool)
    ensures
        rejoin_from(frags, pad, acc, first) == acc + rejoin_from(frags, pad, Seq::empty(), first),
    decreases frags.len(),
{
    if frags.len() == 0 {
        assert(acc + Seq::<char>::empty() =~= acc);
    } else {
        let piece = if first {
            frag_out(frags.first())
        } else {
            frag_sep(frags.first(), pad) + frag_out(frags.first())
        };
        lemma_rejoin_prepend(frags.drop_first(), pad, acc + piece, false);
        lemma_rejoin_prepend(frags.drop_first(), pad, Seq::<char>::empty() + piece, false);
        assert(acc + piece + rejoin_from(frags.drop_first(), pad, Seq::empty(), false) =~= acc + (
        Seq::<char>::empty() + piece + rejoin_from(frags.drop_first(), pad, Seq::empty(), false)));
    }
}

/// Rewrites the fragments of `head` into `out`.
fn rejoin_exec(head: &str, pad: &str, out: &mut String)
    ensures
        final(out)@ == old(out)@ + rejoin(drop_empty(split_by(head@, ","@)), pad@),
{
    let pieces = split_sub(head, ",");
    let n = pieces.len();
    let mut i: usize = 0;
    let mut first: bool = true;
    let ghost dv = pieces.deep_view();
    let ghost base = out@;
    proof {
        assert(dv.skip(0) =~= dv);
    }
    while i < n
        invariant
            0 <= i <= n,
            n == pieces@.len(),
            dv == pieces.deep_view(),
            rejoin_from(drop_empty(dv), pad@, base, true) == rejoin_from(
                drop_empty(dv.skip(i as int)),
                pad@,
                out@,
                first,
            ),
        decreases n - i,
    {
        proof {
            assert(dv.skip(i as int).first() == dv[i as int]);
            assert(dv[i as int] == pieces@[i as int]@);
            assert(dv.skip(i as int).drop_first() =~= dv.skip(i + 1));
        }
        let piece = &pieces[i];
        if !piece.as_str().is_empty() {
            let ghost out0 = out@;
            let ghost a = dv[i as int];
            if !first {
                out.append(",");
                if !contains_sub(piece.as_str(), "<") && !contains_sub(piece.as_str(), ">") {
                    out.append("\n");
                    out.append(pad);
                }
            }
            if !contains_sub(piece.as_str(), "*") && !contains_sub(piece.as_str(), "&")
                && contains_sub(piece.as_str(), "const") {
                let rep = replace_sub(piece.as_str(), "const ", "");
                out.append(rep.as_str());
            } else {
                out.append(piece.as_str());
            }
            proof {
                reveal_strlit("");
                assert(""@ =~= Seq::<char>::empty());
                if first {
                    assert(out@ =~= out0 + frag_out(a));
                } else {
                    assert(out@ =~= out0 + (frag_sep(a, pad@) + frag_out(a)));
                }
                assert(drop_empty(dv.skip(i as int)) =~= seq![a] + drop_empty(dv.skip(i + 1)));
                assert((seq![a] + drop_empty(dv.skip(i + 1))).drop_first() =~= drop_empty(
                    dv.skip(i + 1),
                ));
            }
            first = false;
        } else {
            proof {
                assert(drop_empty(dv.skip(i as int)) == drop_empty(dv.skip(i + 1)));
            }
        }
        i = i + 1;
    }
    proof {
        assert(dv.skip(n as int).len() == 0);
        assert(drop_empty(dv.skip(n as int)).len() == 0);
        lemma_rejoin_prepend(drop_empty(dv), pad@, base, true);
    }
}

/// Strips redundant pass-by-value `const` qualifiers from the raw argument
/// text and re-wraps the fragments with computed alignment; a function with
/// no recorded parameter names is left untouched.
pub fn remove_redundant_const_from_function_parameters(func: &mut Function)
    ensures
        final(func).docs == old(func).docs,
        final(func)@ == (FunctionView { args: stripped_args(old(func)@), ..old(func)@ }),
{
    if func.parameter_names.is_empty() {
        proof {
            assert(func@ =~= (FunctionView { args: stripped_args(func@), ..func@ }));
        }
        return ;
    }
    let pad = build_pad(func);
    let uses_trailing = str_eq(func.return_type.as_str(), "auto");
    proof {
        lemma_find_idx(func.args@, "->"@);
    }
    let marker = if uses_trailing {
        find_sub(func.args.as_str(), "->")
    } else {
        None
    };
    let mut new_args = String::new();
    match marker {
        Some(i) => {
            proof {
                reveal_strlit("->");
            }
            let len = func.args.unicode_len();
            let head = func.args.substring_char(0, i);
            proof {
                assert(head@ =~= func.args@.take(i as int));
            }
            rejoin_exec(head, pad.as_str(), &mut new_args);
            new_args.append("->");
            let tail = func.args.substring_char(i + 2, len);
            new_args.append(tail);
            proof {
                assert(tail@ =~= func.args@.skip(i + 2));
                assert(new_args@ =~= stripped_args(old(func)@));
            }
        },
        None => {
            rejoin_exec(func.args.as_str(), pad.as_str(), &mut new_args);
            proof {
                assert(new_args@ =~= stripped_args(old(func)@));
            }
        },
    }
    func.args = new_args;
    proof {
        assert(func@ =~= (FunctionView { args: stripped_args(old(func)@), ..old(func)@ }));
    }
}

/// One line with everything from the first `noexcept` on replaced by the
/// literal `noexcept(...)`; a line without `noexcept` is unchanged.
pub open spec fn fix_line(line: Seq<char>) -> Seq<char> {
    let f = find_idx(line, "noexcept"@);
    if f < 0 {
        line
    } else {
        line.take(f) + "noexcept(...)"@
    }
}

/// Every line of `s` rewritten by `fix_line`.
pub open spec fn collapse_lines(s: Seq<char>) -> Seq<char>
    decreases s.len(),
{
    let f = find_idx(s, "\n"@);
    if f < 0 {
        fix_line(s)
    } else {
        proof {
            reveal_strlit("\n");
            lemma_find_idx(s, "\n"@);
        }
        fix_line(s.take(f)) + "\n"@ + collapse_lines(s.skip(f + 1))
    }
}

/// The argument text with conditional `noexcept` expressions collapsed; text
/// without a `noexcept(` is untouched.
pub open spec fn collapsed_noexcept(args: Seq<char>) -> Seq<char> {
    if has_sub(args, "noexcept("@) {
        collapse_lines(args)
    } else {
        args
    }
}

/// Rewrites one line.
fn fix_line_exec(line: &str) -> (r: String)
    ensures
        r@ == fix_line(line@),
{
    proof {
        lemma_find_idx(line@, "noexcept"@);
    }
    match find_sub(line, "noexcept") {
        None => line.to_owned(),
        Some(i) => {
            let mut out = line.substring_char(0, i).to_owned();
            out.append("noexcept(...)");
            proof {
                assert(line@.subrange(0, i as int) =~= line@.take(i as int));
            }
            out
        },
    }
}

/// Rewrites every line of `s`.
fn collapse_exec(s: &str) -> (r: String)
    ensures
        r@ == collapse_lines(s@),
    decreases s@.len(),
{
    proof {
        reveal_strlit("\n");
        lemma_find_idx(s@, "\n"@);
    }
    match find_sub(s, "\n") {
        None => fix_line_exec(s),
        Some(i) => {
            let len = s.unicode_len();
            let mut out = fix_line_exec(s.substring_char(0, i));
            out.append("\n");
            let rest = collapse_exec(s.substring_char(i + 1, len));
            out.append(rest.as_str());
            proof {
                assert(s@.subrange(0, i as int) =~= s@.take(i as int));
                assert(s@.subrange(i + 1, len as int) =~= s@.skip(i + 1));
                assert(out@ =~= collapse_lines(s@));
            }
            out
        },
    }
}

/// Collapses any conditional `noexcept` expression in the argument text to
/// the literal `noexcept(...)`, hiding implementation-detail boolean
/// expressions from rendered output.
pub fn simplify_function_noexcept_specifier(func: &mut Function)
    ensures
        final(func).docs == old(func).docs,
        final(func)@ == (FunctionView { args: collapsed_noexcept(old(func)@.args), ..old(
            func,
        )@ }),
{
    if contains_sub(func.args.as_str(), "noexcept(") {
        let fixed = collapse_exec(func.args.as_str());
        func.args = fixed;
    }
    proof {
        assert(func@ =~= (FunctionView { args: collapsed_noexcept(old(func)@.args), ..old(
            func,
        )@ }));
    }
}

} // verus!
