//! Verified text utilities: trimming, substring search, replacement and
//! splitting over `Seq<char>` views of strings.  Every executable function is
//! specified exactly against a recursive specification function.

use vstd::prelude::*;

verus! {

/// White space recognized by the documentation format: blank, tab, line feed
/// and carriage return.
pub open spec fn is_space(c: char) -> bool {
    c == ' ' || c == '\t' || c == '\n' || c == '\r'
}

/// `s` with leading white space removed.
pub open spec fn trim_front(s: Seq<char>) -> Seq<char>
    decreases s.len(),
{
    if s.len() > 0 && is_space(s[0]) {
        trim_front(s.drop_first())
    } else {
        s
    }
}

/// `s` with trailing white space removed.
pub open spec fn trim_back(s: Seq<char>) -> Seq<char>
    decreases s.len(),
{
    if s.len() > 0 && is_space(s.last()) {
        trim_back(s.drop_last())
    } else {
        s
    }
}

/// `s` with leading and trailing white space removed.
pub open spec fn trimmed(s: Seq<char>) -> Seq<char> {
    trim_back(trim_front(s))
}

/// The pattern `pat` occurs in `s` at position `i`.
pub open spec fn match_at(s: Seq<char>, pat: Seq<char>, i: int) -> bool {
    0 <= i && i + pat.len() <= s.len() && s.subrange(i, i + pat.len() as int) == pat
}

/// The pattern `pat` occurs somewhere in `s`.
pub open spec fn has_sub(s: Seq<char>, pat: Seq<char>) -> bool {
    exists|i: int| match_at(s, pat, i)
}

/// Position of the leftmost occurrence of `pat` in `s`, or `-1` if there is
/// none.  An empty pattern matches at position `0`.
pub open spec fn find_idx(s: Seq<char>, pat: Seq<char>) -> int
    decreases s.len(),
{
    if pat.len() > s.len() {
        -1
    } else if s.subrange(0, pat.len() as int) == pat {
        0
    } else if s.len() == 0 {
        -1
    } else {
        let f = find_idx(s.drop_first(), pat);
        if f < 0 {
            -1
        } else {
            f + 1
        }
    }
}

/// `find_idx` returns the position of the leftmost match, and `-1` exactly
/// when there is no match at all.
pub proof fn lemma_find_idx(s: Seq<char>, pat: Seq<char>)
    ensures
        find_idx(s, pat) >= 0 ==> match_at(s, pat, find_idx(s, pat)) && (forall|j: int|
            0 <= j < find_idx(s, pat) ==> !match_at(s, pat, j)),
        find_idx(s, pat) < 0 ==> !has_sub(s, pat),
    decreases s.len(),
{
    if pat.len() > s.len() {
        assert forall|j: int| !match_at(s, pat, j) by {}
    } else if s.subrange(0, pat.len() as int) == pat {
        assert(match_at(s, pat, 0));
    } else if s.len() == 0 {
        assert forall|j: int| !match_at(s, pat, j) by {}
    } else {
        lemma_find_idx(s.drop_first(), pat);
        assert forall|j: int| 1 <= j && match_at(s, pat, j) implies match_at(
            s.drop_first(),
            pat,
            j - 1,
        ) by {
            assert(s.drop_first().subrange(j - 1, j - 1 + pat.len() as int) =~= s.subrange(
                j,
                j + pat.len() as int,
            ));
        }
        assert forall|j: int| 0 <= j && match_at(s.drop_first(), pat, j) implies match_at(
            s,
            pat,
            j + 1,
        ) by {
            assert(s.subrange(j + 1, j + 1 + pat.len() as int) =~= s.drop_first().subrange(
                j,
                j + pat.len() as int,
            ));
        }
        assert(!match_at(s, pat, 0));
    }
}

/// Executable test of `is_space`.
pub fn space_char(c: char) -> (r: bool)
    ensures
        r == is_space(c),
{
    c == ' ' || c == '\t' || c == '\n' || c == '\r'
}

/// Character-for-character string equality.
pub fn str_eq(a: &str, b: &str) -> (r: bool)
    ensures
        r == (a@ == b@),
{
    let alen = a.unicode_len();
    let blen = b.unicode_len();
    if alen != blen {
        return false;
    }
    let mut i: usize = 0;
    while i < alen
        invariant
            0 <= i <= alen,
            alen == a@.len(),
            alen == b@.len(),
            forall|j: int| 0 <= j < i ==> a@[j] == b@[j],
        decreases alen - i,
    {
        if a.get_char(i) != b.get_char(i) {
            return false;
        }
        i = i + 1;
    }
    proof {
        assert(a@ =~= b@);
    }
    true
}

/// Helper: `trim_front` skips exactly the leading run of white space.
proof fn lemma_trim_front_skip(s: Seq<char>, i: int)
    requires
        0 <= i <= s.len(),
        forall|j: int| 0 <= j < i ==> is_space(s[j]),
        i < s.len() ==> !is_space(s[i]),
    ensures
        trim_front(s) == s.skip(i),
    decreases i,
{
    if i == 0 {
        assert(s.skip(0) =~= s);
    } else {
        lemma_trim_front_skip(s.drop_first(), i - 1);
        assert(s.drop_first().skip(i - 1) =~= s.skip(i));
    }
}

/// Helper: `trim_back` drops exactly the trailing run of white space.
proof fn lemma_trim_back_take(s: Seq<char>, i: int)
    requires
        0 <= i <= s.len(),
        forall|j: int| i <= j < s.len() ==> is_space(s[j]),
        i > 0 ==> !is_space(s[i - 1]),
    ensures
        trim_back(s) == s.take(i),
    decreases s.len() - i,
{
    if i == s.len() {
        assert(s.take(i) =~= s);
    } else {
        lemma_trim_back_take(s.drop_last(), i);
        assert(s.drop_last().take(i) =~= s.take(i));
    }
}

/// Returns `s` with leading and trailing white space removed.
pub fn trim(s: &str) -> (r: String)
    ensures
        r@ == trimmed(s@),
{
    let len = s.unicode_len();
    let mut start: usize = 0;
    while start < len && space_char(s.get_char(start))
        invariant
            0 <= start <= len,
            len == s@.len(),
            forall|j: int| 0 <= j < start ==> is_space(s@[j]),
        decreases len - start,
    {
        start = start + 1;
    }
    let mut end: usize = len;
    while end > start && space_char(s.get_char(end - 1))
        invariant
            start <= end <= len,
            len == s@.len(),
            forall|j: int| end <= j < len ==> is_space(s@[j]),
        decreases end,
    {
        end = end - 1;
    }
    let sub = s.substring_char(start, end);
    let r = sub.to_owned();
    proof {
        lemma_trim_front_skip(s@, start as int);
        let t = s@.skip(start as int);
        lemma_trim_back_take(t, end - start);
        assert(t.take(end - start) =~= s@.subrange(start as int, end as int));
        assert(forall|j: int|
            end - start <= j < t.len() ==> is_space(#[trigger] t[j]) && t[j] == s@[j + start]);
    }
    r
}

/// Position of the leftmost occurrence of `pat` in `s`, if any.
pub fn find_sub(s: &str, pat: &str) -> (r: Option<usize>)
    ensures
        match r {
            Some(i) => i as int == find_idx(s@, pat@),
            None => find_idx(s@, pat@) == -1,
        },
{
    proof {
        lemma_find_idx(s@, pat@);
    }
    let slen = s.unicode_len();
    let plen = pat.unicode_len();
    if plen > slen {
        return None;
    }
    if plen == 0 {
        proof {
            assert(s@.subrange(0, 0) =~= pat@);
        }
        return Some(0);
    }
    let mut i: usize = 0;
    while i <= slen - plen
        invariant
            0 <= i <= slen - plen + 1,
            1 <= plen <= slen,
            slen == s@.len(),
            plen == pat@.len(),
            forall|j: int| 0 <= j < i ==> !match_at(s@, pat@, j),
        decreases slen - plen - i + 1,
    {
        let cand = s.substring_char(i, i + plen);
        if str_eq(cand, pat) {
            proof {
                assert(match_at(s@, pat@, i as int));
                lemma_find_idx(s@, pat@);
            }
            return Some(i);
        }
        i = i + 1;
    }
    proof {
        assert forall|j: int| !match_at(s@, pat@, j) by {
            if 0 <= j && j + pat@.len() <= s@.len() {
                assert(!match_at(s@, pat@, j));
            }
        }
        lemma_find_idx(s@, pat@);
    }
    None
}

/// `s` with every occurrence of `pat` replaced by `rep`, scanning left to
/// right without re-examining replaced text.  An empty pattern leaves `s`
/// unchanged.
pub open spec fn replace_all(s: Seq<char>, pat: Seq<char>, rep: Seq<char>) -> Seq<char>
    decreases s.len(),
{
    if pat.len() == 0 {
        s
    } else {
        let f = find_idx(s, pat);
        if f < 0 {
            s
        } else {
            proof {
                lemma_find_idx(s, pat);
            }
            s.take(f) + rep + replace_all(s.skip(f + pat.len() as int), pat, rep)
        }
    }
}

/// `s` split on every occurrence of `pat`, keeping empty pieces.  With no
/// occurrence (or an empty pattern) the result is the single piece `s`.
pub open spec fn split_by(s: Seq<char>, pat: Seq<char>) -> Seq<Seq<char>>
    decreases s.len(),
{
    if pat.len() == 0 {
        seq![s]
    } else {
        let f = find_idx(s, pat);
        if f < 0 {
            seq![s]
        } else {
            proof {
                lemma_find_idx(s, pat);
            }
            seq![s.take(f)] + split_by(s.skip(f + pat.len() as int), pat)
        }
    }
}

/// `pieces` with the empty pieces removed.
pub open spec fn drop_empty(pieces: Seq<Seq<char>>) -> Seq<Seq<char>>
    decreases pieces.len(),
{
    if pieces.len() == 0 {
        Seq::empty()
    } else if pieces.first().len() == 0 {
        drop_empty(pieces.drop_first())
    } else {
        seq![pieces.first()] + drop_empty(pieces.drop_first())
    }
}

/// The part of `s` after the last occurrence of `sep`; all of `s` when `sep`
/// does not occur.
pub open spec fn last_segment(s: Seq<char>, sep: Seq<char>) -> Seq<char>
    decreases s.len(),
{
    if sep.len() == 0 {
        s
    } else {
        let f = find_idx(s, sep);
        if f < 0 {
            s
        } else {
            proof {
                lemma_find_idx(s, sep);
            }
            last_segment(s.skip(f + sep.len() as int), sep)
        }
    }
}

/// `n` copies of the character `c`.
pub open spec fn char_repeat(c: char, n: nat) -> Seq<char> {
    Seq::new(n, |i: int| c)
}

/// `s` with every occurrence of `pat` replaced by `rep`.
pub fn replace_sub(s: &str, pat: &str, rep: &str) -> (r: String)
    ensures
        r@ == replace_all(s@, pat@, rep@),
    decreases s@.len(),
{
    proof {
        lemma_find_idx(s@, pat@);
    }
    let plen = pat.unicode_len();
    if plen == 0 {
        return s.to_owned();
    }
    match find_sub(s, pat) {
        None => s.to_owned(),
        Some(i) => {
            let len = s.unicode_len();
            let mut out = s.substring_char(0, i).to_owned();
            out.append(rep);
            let rest = replace_sub(s.substring_char(i + plen, len), pat, rep);
            out.append(rest.as_str());
            proof {
                assert(s@.subrange(0, i as int) =~= s@.take(i as int));
                assert(s@.subrange(i + plen, len as int) =~= s@.skip(i + plen));
            }
            out
        },
    }
}

/// `s` split on every occurrence of `pat`, keeping empty pieces.
pub fn split_sub(s: &str, pat: &str) -> (r: Vec<String>)
    ensures
        r.deep_view() == split_by(s@, pat@),
    decreases s@.len(),
{
    proof {
        lemma_find_idx(s@, pat@);
    }
    let plen = pat.unicode_len();
    let mut out: Vec<String> = Vec::new();
    if plen == 0 {
        out.push(s.to_owned());
        proof {
            assert(out.deep_view() =~= split_by(s@, pat@));
        }
        return out;
    }
    match find_sub(s, pat) {
        None => {
            out.push(s.to_owned());
            proof {
                assert(out.deep_view() =~= split_by(s@, pat@));
            }
            out
        },
        Some(i) => {
            let len = s.unicode_len();
            out.push(s.substring_char(0, i).to_owned());
            let mut rest = split_sub(s.substring_char(i + plen, len), pat);
            out.append(&mut rest);
            proof {
                assert(s@.subrange(0, i as int) =~= s@.take(i as int));
                assert(s@.subrange(i + plen, len as int) =~= s@.skip(i + plen));
                assert(out.deep_view() =~= split_by(s@, pat@));
            }
            out
        },
    }
}

/// The part of `s` after the last occurrence of `sep`.
pub fn last_segment_str(s: &str, sep: &str) -> (r: String)
    ensures
        r@ == last_segment(s@, sep@),
    decreases s@.len(),
{
    proof {
        lemma_find_idx(s@, sep@);
    }
    let plen = sep.unicode_len();
    if plen == 0 {
        return s.to_owned();
    }
    match find_sub(s, sep) {
        None => s.to_owned(),
        Some(i) => {
            let len = s.unicode_len();
            let r = last_segment_str(s.substring_char(i + plen, len), sep);
            proof {
                assert(s@.subrange(i + plen, len as int) =~= s@.skip(i + plen));
            }
            r
        },
    }
}

/// A run of `n` blanks.
pub fn spaces(n: usize) -> (r: String)
    ensures
        r@ == char_repeat(' ', n as nat),
{
    let mut out = String::new();
    let mut i: usize = 0;
    proof {
        reveal_strlit(" ");
    }
    while i < n
        invariant
            0 <= i <= n,
            out@ == char_repeat(' ', i as nat),
        decreases n - i,
    {
        out.append(" ");
        i = i + 1;
        proof {
            reveal_strlit(" ");
            assert(out@ =~= char_repeat(' ', i as nat));
        }
    }
    out
}

/// Whether `s` is one of the strings in `v`.
pub fn contains_string(v: &Vec<String>, s: &str) -> (r: bool)
    ensures
        r == v.deep_view().contains(s@),
{
    let n = v.len();
    let mut i: usize = 0;
    while i < n
        invariant
            0 <= i <= n,
            n == v@.len(),
            forall|j: int| 0 <= j < i ==> v.deep_view()[j] != s@,
        decreases n - i,
    {
        if str_eq(v[i].as_str(), s) {
            proof {
                assert(v.deep_view()[i as int] == s@);
            }
            return true;
        }
        i = i + 1;
    }
    proof {
        assert forall|j: int| 0 <= j < v.deep_view().len() implies v.deep_view()[j] != s@ by {}
    }
    false
}

/// Whether `pat` occurs in `s`.
pub fn contains_sub(s: &str, pat: &str) -> (r: bool)
    ensures
        r == has_sub(s@, pat@),
{
    proof {
        lemma_find_idx(s@, pat@);
        if find_idx(s@, pat@) >= 0 {
            assert(has_sub(s@, pat@));
        }
    }
    match find_sub(s, pat) {
        Some(_) => true,
        None => false,
    }
}

} // verus!
