//! Picking capture devices out of the capture program's device listing.
use vstd::prelude::*;
use crate::args::views;

verus! {

/// The pieces of `s` between newline characters (one more than there are
/// newlines).
pub open spec fn segments(s: Seq<char>) -> Seq<Seq<char>>
    decreases s.len(),
{
    if s.len() == 0 {
        seq![Seq::empty()]
    } else if s.last() == '\n' {
        segments(s.drop_last()).push(Seq::empty())
    } else {
        let p = segments(s.drop_last());
        p.update(p.len() - 1, p.last().push(s.last()))
    }
}

/// A line ended by a newline loses one carriage return before it.
pub open spec fn strip_cr(l: Seq<char>) -> Seq<char> {
    if l.len() > 0 && l.last() == '\r' {
        l.drop_last()
    } else {
        l
    }
}

/// The lines of `s`: split at each newline, without the terminator (a
/// newline, or a carriage return and a newline); the final terminator is
/// optional, and empty text has no lines.
pub open spec fn text_lines(s: Seq<char>) -> Seq<Seq<char>> {
    if s.len() == 0 {
        Seq::empty()
    } else if s.last() == '\n' {
        segments(s.drop_last()).map_values(|l: Seq<char>| strip_cr(l))
    } else {
        let p = segments(s);
        p.drop_last().map_values(|l: Seq<char>| strip_cr(l)).push(p.last())
    }
}

/// Relies on str::lines, documented to split at `\n` or `\r\n`, to leave
/// the terminators out, and to treat the final terminator as optional.
#[verifier::external_body]
fn lines(s: &str) -> (r: Vec<String>)
    ensures
        views(r@) == text_lines(s@),
{
    s.lines().map(|l| l.to_string()).collect()
}

/// `needle` occurs in `hay` at position `i`.
pub open spec fn occurs_at(hay: Seq<char>, needle: Seq<char>, i: int) -> bool {
    0 <= i && i + needle.len() <= hay.len() && hay.subrange(i, i + needle.len()) == needle
}

/// `needle` occurs somewhere in `hay`.
pub open spec fn contains_text(hay: Seq<char>, needle: Seq<char>) -> bool {
    exists|i: int| occurs_at(hay, needle, i)
}

/// Whether `needle` occurs in `hay`.
pub fn text_contains(hay: &str, needle: &str) -> (r: bool)
    ensures
        r == contains_text(hay@, needle@),
{
    let h = hay.unicode_len();
    let n = needle.unicode_len();
    if n > h {
        assert forall|i: int| !occurs_at(hay@, needle@, i) by {}
        return false;
    }
    let mut i: usize = 0;
    while i <= h - n
        invariant
            h == hay@.len(),
            n == needle@.len(),
            n <= h,
            i <= h - n + 1,
            forall|k: int| 0 <= k < i ==> !occurs_at(hay@, needle@, k),
        decreases h - n + 1 - i,
    {
        let mut j: usize = 0;
        let mut same = true;
        while j < n
            invariant
                h == hay@.len(),
                n == needle@.len(),
                i + n <= h,
                j <= n,
                same == (forall|m: int| 0 <= m < j ==> hay@[i + m] == needle@[m]),
            decreases n - j,
        {
            if hay.get_char(i + j) != needle.get_char(j) {
                same = false;
            }
            j = j + 1;
        }
        if same {
            assert(hay@.subrange(i as int, i + n) =~= needle@);
            assert(occurs_at(hay@, needle@, i as int));
            return true;
        }
        assert(!occurs_at(hay@, needle@, i as int)) by {
            if occurs_at(hay@, needle@, i as int) {
                assert forall|m: int| 0 <= m < n implies hay@[i + m] == needle@[m] by {
                    assert(hay@.subrange(i as int, i + n)[m] == hay@[i + m]);
                }
            }
        }
        i = i + 1;
    }
    assert forall|k: int| !occurs_at(hay@, needle@, k) by {
        if 0 <= k && k < i {
        }
    }
    false
}

/// The filter that keeps lines mentioning `kind`.
pub open spec fn mentions(kind: Seq<char>) -> spec_fn(Seq<char>) -> bool {
    |l: Seq<char>| contains_text(l, kind)
}

/// The lines of a device listing that mention `kind` (such as `audio` or
/// `video`), in order.
pub fn device_lines(listing: &str, kind: &str) -> (r: Vec<String>)
    ensures
        views(r@) == text_lines(listing@).filter(mentions(kind@)),
{
    broadcast use vstd::seq_lib::group_seq_lib_default;

    let all = lines(listing);
    let ghost lv = views(all@);
    let mut out: Vec<String> = Vec::new();
    let mut i: usize = 0;
    while i < all.len()
        invariant
            lv == views(all@),
            i <= all@.len(),
            views(out@) == lv.subrange(0, i as int).filter(mentions(kind@)),
        decreases all@.len() - i,
    {
        let line = &all[i];
        let keep = text_contains(line.as_str(), kind);
        proof {
            assert(lv[i as int] == all@[i as int]@);
            assert(lv.subrange(0, i + 1) =~= lv.subrange(0, i as int).push(lv[i as int]));
            lv.subrange(0, i as int).lemma_filter_push(lv[i as int], mentions(kind@));
            assert(keep == mentions(kind@)(lv[i as int]));
        }
        if keep {
            let ghost before = out@;
            out.push(line.clone());
            assert(views(out@) =~= views(before).push(lv[i as int]));
        }
        i = i + 1;
    }
    assert(lv.subrange(0, all@.len() as int) =~= lv);
    out
}

} // verus!
