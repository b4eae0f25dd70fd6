//! The raw string form of a cursor: segments joined by the two-character
//! delimiter `||`, chosen so that it does not collide with typical field
//! values.
//!
//! [`split_spec`] is the mathematical meaning of splitting on the leftmost
//! occurrence of the delimiter, and [`split_segments`] is the verified
//! splitter the decoders use. The lemmas at the bottom let the encoders
//! reason about the splits of the raw strings they build.

use vstd::prelude::*;

verus! {

/// The segment delimiter, as a character sequence.
pub open spec fn delim() -> Seq<char> {
    seq!['|', '|']
}

/// Whether an occurrence of the delimiter starts at position `i` of `s`.
pub open spec fn is_delim_at(s: Seq<char>, i: int) -> bool {
    0 <= i && i + 2 <= s.len() && s[i] == '|' && s[i + 1] == '|'
}

/// Whether `s` contains no occurrence of the delimiter.
pub open spec fn delim_free(s: Seq<char>) -> bool {
    forall|i: int| !is_delim_at(s, i)
}

/// The position of the leftmost occurrence of the delimiter in `s`, or `-1`
/// when there is none.
pub open spec fn first_delim(s: Seq<char>) -> int
    decreases s.len(),
{
    if s.len() < 2 {
        -1
    } else if s[0] == '|' && s[1] == '|' {
        0
    } else {
        let r = first_delim(s.drop_first());
        if r < 0 {
            -1
        } else {
            r + 1
        }
    }
}

/// The segments of `s`: repeatedly cut at the leftmost delimiter. Every
/// string has at least one segment; a string without a delimiter is its own
/// single segment.
pub open spec fn split_spec(s: Seq<char>) -> Seq<Seq<char>>
    decreases s.len(),
{
    let k = first_delim(s);
    if 0 <= k && k + 2 <= s.len() {
        seq![s.subrange(0, k)] + split_spec(s.skip(k + 2))
    } else {
        seq![s]
    }
}

/// If a delimiter occurs at `k` and nowhere earlier, `k` is the leftmost
/// occurrence.
pub proof fn lemma_first_delim_at(s: Seq<char>, k: int)
    requires
        is_delim_at(s, k),
        forall|j: int| 0 <= j < k ==> !is_delim_at(s, j),
    ensures
        first_delim(s) == k,
    decreases k,
{
    if k > 0 {
        let t = s.drop_first();
        assert(is_delim_at(t, k - 1)) by {
            assert(t[k - 1] == s[k]);
            assert(t[k] == s[k + 1]);
        }
        assert forall|j: int| 0 <= j < k - 1 implies !is_delim_at(t, j) by {
            assert(!is_delim_at(s, j + 1));
            assert(t[j] == s[j + 1]);
            if j + 2 <= t.len() {
                assert(t[j + 1] == s[j + 2]);
            }
        }
        lemma_first_delim_at(t, k - 1);
        assert(!is_delim_at(s, 0));
    }
}

/// A string with no delimiter occurrence has no leftmost occurrence.
pub proof fn lemma_first_delim_none(s: Seq<char>)
    requires
        delim_free(s),
    ensures
        first_delim(s) == -1,
    decreases s.len(),
{
    if s.len() >= 2 {
        assert(!is_delim_at(s, 0));
        let t = s.drop_first();
        assert forall|j: int| !is_delim_at(t, j) by {
            if 0 <= j && j + 2 <= t.len() {
                assert(!is_delim_at(s, j + 1));
                assert(t[j] == s[j + 1]);
                assert(t[j + 1] == s[j + 2]);
            }
        }
        lemma_first_delim_none(t);
    }
}

/// A delimiter-free string is its own single segment.
pub proof fn lemma_split_free(s: Seq<char>)
    requires
        delim_free(s),
    ensures
        split_spec(s) == seq![s],
{
    lemma_first_delim_none(s);
}

/// Splitting cuts at the first delimiter: if no delimiter starts before `k`
/// and one starts at `k`, the first segment is `s[..k]` and the rest are the
/// segments of `s[k + 2..]`.
pub proof fn lemma_split_step(s: Seq<char>, k: int)
    requires
        is_delim_at(s, k),
        forall|j: int| 0 <= j < k ==> !is_delim_at(s, j),
    ensures
        split_spec(s) == seq![s.subrange(0, k)] + split_spec(s.skip(k + 2)),
{
    lemma_first_delim_at(s, k);
}

/// Joining one delimiter-free segment (not ending in a half delimiter) in
/// front of anything splits back into that segment followed by the splits of
/// the rest.
pub proof fn lemma_split_join(head: Seq<char>, rest: Seq<char>)
    requires
        delim_free(head),
        head.len() == 0 || head.last() != '|',
    ensures
        split_spec(head + delim() + rest) == seq![head] + split_spec(rest),
{
    let s = head + delim() + rest;
    let k = head.len() as int;
    assert(is_delim_at(s, k)) by {
        assert(s[k] == (head + delim())[k]);
        assert(s[k + 1] == (head + delim())[k + 1]);
    }
    assert forall|j: int| 0 <= j < k implies !is_delim_at(s, j) by {
        if j < k - 1 {
            assert(s[j] == head[j]);
            assert(s[j + 1] == head[j + 1]);
            assert(!is_delim_at(head, j));
        } else {
            assert(s[j] == head[j]);
            assert(head.last() != '|');
        }
    }
    lemma_split_step(s, k);
    assert(s.subrange(0, k) =~= head);
    assert(s.skip(k + 2) =~= rest);
}

/// Extracts the delimited segments of `s`, leftmost first.
pub fn split_segments(s: &str) -> (parts: Vec<String>)
    ensures
        parts.deep_view() == split_spec(s@),
        parts@.len() >= 1,
{
    let n = s.unicode_len();
    let mut parts: Vec<String> = Vec::new();
    let mut seg_start: usize = 0;
    let mut i: usize = 0;
    proof {
        assert(parts.deep_view() =~= Seq::<Seq<char>>::empty());
        assert(s@.skip(0) =~= s@);
        assert(Seq::<Seq<char>>::empty() + split_spec(s@) =~= split_spec(s@));
    }
    while i < n
        invariant
            n == s@.len(),
            0 <= seg_start <= i <= n,
            split_spec(s@) == parts.deep_view() + split_spec(s@.skip(seg_start as int)),
            forall|j: int| seg_start <= j < i ==> !is_delim_at(s@, j),
        decreases n - i,
    {
        if i + 1 < n && s.get_char(i) == '|' && s.get_char(i + 1) == '|' {
            let seg = s.substring_char(seg_start, i).to_owned();
            proof {
                let tail = s@.skip(seg_start as int);
                let k = i - seg_start;
                assert(is_delim_at(tail, k)) by {
                    assert(tail[k] == s@[i as int]);
                    assert(tail[k + 1] == s@[i + 1]);
                }
                assert forall|j: int| 0 <= j < k implies !is_delim_at(tail, j) by {
                    assert(!is_delim_at(s@, j + seg_start));
                    assert(tail[j] == s@[j + seg_start]);
                    if j + 2 <= tail.len() {
                        assert(tail[j + 1] == s@[j + seg_start + 1]);
                    }
                }
                lemma_split_step(tail, k);
                assert(tail.subrange(0, k) =~= s@.subrange(seg_start as int, i as int));
                assert(tail.skip(k + 2) =~= s@.skip(i + 2));
            }
            let ghost old_parts = parts.deep_view();
            parts.push(seg);
            proof {
                assert(parts.deep_view() =~= old_parts.push(s@.subrange(
                    seg_start as int,
                    i as int,
                )));
                assert(old_parts.push(s@.subrange(seg_start as int, i as int)) =~= old_parts
                    + seq![s@.subrange(seg_start as int, i as int)]);
                assert(parts.deep_view() + split_spec(s@.skip(i + 2)) =~= old_parts + (seq![
                    s@.subrange(seg_start as int, i as int),
                ] + split_spec(s@.skip(i + 2))));
            }
            seg_start = i + 2;
            i = i + 2;
        } else {
            proof {
                if i + 2 <= n {
                    assert(!(s@[i as int] == '|' && s@[i + 1] == '|'));
                }
            }
            i = i + 1;
        }
    }
    let last = s.substring_char(seg_start, n).to_owned();
    proof {
        let tail = s@.skip(seg_start as int);
        assert forall|j: int| !is_delim_at(tail, j) by {
            if 0 <= j && j + 2 <= tail.len() {
                assert(!is_delim_at(s@, j + seg_start));
                assert(tail[j] == s@[j + seg_start]);
                assert(tail[j + 1] == s@[j + seg_start + 1]);
            }
        }
        lemma_split_free(tail);
        assert(last@ == s@.subrange(seg_start as int, n as int));
        assert(last@ =~= tail);
    }
    let ghost old_parts = parts.deep_view();
    parts.push(last);
    proof {
        assert(parts.deep_view() =~= old_parts.push(s@.skip(seg_start as int)));
        assert(old_parts.push(s@.skip(seg_start as int)) =~= old_parts + seq![s@.skip(
            seg_start as int,
        )]);
    }
    parts
}

} // verus!
