//! Small verified string derivations used by the configuration and session
//! modules: the last path segment of a URL and space-joined path lists.

use vstd::prelude::*;
use vstd::string::StrSliceExecFns;
use vstd::string::StringExecFns;

verus! {

/// The characters of `s` that follow its last `'/'`; the whole of `s` when it
/// holds none, and empty when `s` ends with `'/'`.
pub open spec fn suffix_after_last_slash(s: Seq<char>) -> Seq<char>
    decreases s.len(),
{
    if s.len() == 0 {
        s
    } else if s.last() == '/' {
        Seq::empty()
    } else {
        suffix_after_last_slash(s.drop_last()).push(s.last())
    }
}

/// `parts` joined with a single space between consecutive parts.
pub open spec fn join_with_spaces(parts: Seq<Seq<char>>) -> Seq<char>
    decreases parts.len(),
{
    if parts.len() == 0 {
        Seq::empty()
    } else if parts.len() == 1 {
        parts[0]
    } else {
        join_with_spaces(parts.drop_last()) + seq![' '] + parts.last()
    }
}

/// The last `'/'`-separated segment of `s`, as an owned string.
pub fn last_segment(s: &str) -> (r: String)
    ensures
        r@ == suffix_after_last_slash(s@),
{
    let n: usize = s.unicode_len();
    let mut i: usize = 0;
    let mut start: usize = 0;
    while i < n
        invariant
            0 <= start <= i <= n,
            n == s@.len(),
            suffix_after_last_slash(s@.subrange(0, i as int)) == s@.subrange(
                start as int,
                i as int,
            ),
        decreases n - i,
    {
        let c = s.get_char(i);
        if c == '/' {
            start = i + 1;
        }
        proof {
            let pre = s@.subrange(0, i as int + 1);
            assert(pre.drop_last() =~= s@.subrange(0, i as int));
            assert(pre.last() == s@[i as int]);
            if s@[i as int] == '/' {
                assert(suffix_after_last_slash(pre) =~= s@.subrange(
                    i as int + 1,
                    i as int + 1,
                ));
            } else {
                assert(suffix_after_last_slash(pre) =~= s@.subrange(
                    start as int,
                    i as int,
                ).push(s@[i as int]));
                assert(s@.subrange(start as int, i as int).push(s@[i as int]) =~= s@.subrange(
                    start as int,
                    i as int + 1,
                ));
            }
        }
        i = i + 1;
    }
    proof {
        assert(s@.subrange(0, n as int) =~= s@);
    }
    let seg = s.substring_char(start, n);
    seg.to_owned()
}

/// Joins the views of `parts` with single spaces, the executable counterpart
/// of [`join_with_spaces`].
pub fn join_all(parts: &Vec<String>) -> (r: String)
    ensures
        r@ == join_with_spaces(parts.deep_view()),
{
    let mut r = String::new();
    let mut i: usize = 0;
    while i < parts.len()
        invariant
            i <= parts.len(),
            parts.deep_view().len() == parts@.len(),
            r@ == join_with_spaces(parts.deep_view().take(i as int)),
        decreases parts.len() - i,
    {
        if i > 0 {
            r.append(" ");
        }
        r.append(parts[i].as_str());
        proof {
            reveal_strlit(" ");
            assert(" "@ =~= seq![' ']);
            let pv = parts.deep_view();
            assert(pv[i as int] == parts@[i as int]@);
            assert(pv.take(i as int + 1).drop_last() =~= pv.take(i as int));
            assert(pv.take(i as int + 1).last() == pv[i as int]);
            if i == 0 {
                assert(r@ =~= join_with_spaces(pv.take(1)));
            } else {
                assert(r@ =~= join_with_spaces(pv.take(i as int)) + seq![' '] + pv[i as int]);
                assert(r@ == join_with_spaces(pv.take(i as int + 1)));
            }
        }
        i = i + 1;
    }
    proof {
        assert(parts.deep_view().take(parts@.len() as int) =~= parts.deep_view());
    }
    r
}

} // verus!
