//! Text helpers shared by the terminal interfaces.
use vstd::prelude::*;
use crate::text::{byte_len, chars_of, push_str, slice_chars, string_of, utf8_len, utf8_len_exec};

verus! {

/// Whether the first `k` characters are the longest prefix of at most
/// `max` bytes: they fit, and one more character would not.
pub open spec fn cut_at(s: Seq<char>, max: nat, k: int) -> bool {
    &&& 0 <= k <= s.len()
    &&& byte_len(s.take(k)) <= max
    &&& k < s.len() ==> byte_len(s.take(k + 1)) > max
}

/// `truncate_output`: text longer than `max` bytes keeps the longest prefix
/// of whole characters within `max` bytes, and is marked.
pub open spec fn truncated(s: Seq<char>, max: nat) -> Seq<char> {
    if byte_len(s) > max {
        s.take(choose|k: int| cut_at(s, max, k)) + "…(truncated)"@
    } else {
        s
    }
}

/// One more character adds its UTF-8 length.
proof fn lemma_take_step(s: Seq<char>, k: int)
    requires
        0 <= k < s.len(),
    ensures
        byte_len(s.take(k + 1)) == byte_len(s.take(k)) + utf8_len(s[k]),
{
    assert(s.take(k + 1).drop_last() =~= s.take(k));
}

/// A longer prefix is no shorter in bytes.
proof fn lemma_take_mono(s: Seq<char>, j: int, k: int)
    requires
        0 <= j <= k <= s.len(),
    ensures
        byte_len(s.take(j)) <= byte_len(s.take(k)),
    decreases k - j,
{
    if j < k {
        lemma_take_step(s, k - 1);
        lemma_take_mono(s, j, k - 1);
    }
}

/// The longest prefix within `max` bytes is unique.
pub proof fn law_cut_unique(s: Seq<char>, max: nat, j: int, k: int)
    requires
        cut_at(s, max, j),
        cut_at(s, max, k),
    ensures
        j == k,
{
    if j < k {
        lemma_take_mono(s, j + 1, k);
    } else if k < j {
        lemma_take_mono(s, k + 1, j);
    }
}

/// Text within the limit is kept whole; longer text keeps the longest
/// prefix of whole characters of at most `max` bytes, then the mark.
pub proof fn law_truncated_keeps_limit(s: Seq<char>, max: nat, k: int)
    requires
        cut_at(s, max, k),
    ensures
        byte_len(s) <= max ==> truncated(s, max) == s,
        byte_len(s) > max ==> truncated(s, max) == s.take(k) + "…(truncated)"@,
        byte_len(s) > max ==> k < s.len(),
{
    assert(s.take(s.len() as int) =~= s);
    if byte_len(s) > max {
        law_cut_unique(s, max, k, choose|i: int| cut_at(s, max, i));
    }
}

/// Cuts text longer than `max` bytes after the last whole character that
/// fits in `max` bytes, and marks the cut (see `truncated`).
pub fn truncate_output(s: &str, max: usize) -> (r: String)
    ensures
        r@ == truncated(s@, max as nat),
{
    let v = chars_of(s);
    let mut i: usize = 0;
    let mut n: usize = 0;
    while i < v.len() && utf8_len_exec(v[i]) <= max - n
        invariant
            i <= v@.len(),
            n <= max,
            n == byte_len(v@.take(i as int)),
        decreases v@.len() - i,
    {
        proof {
            lemma_take_step(v@, i as int);
        }
        n = n + utf8_len_exec(v[i]);
        i = i + 1;
    }
    proof {
        if i < v@.len() {
            lemma_take_step(v@, i as int);
        }
        assert(cut_at(v@, max as nat, i as int));
        law_truncated_keeps_limit(v@, max as nat, i as int);
        lemma_take_mono(v@, i as int, v@.len() as int);
        assert(v@.take(v@.len() as int) =~= v@);
        if i < v@.len() {
            lemma_take_mono(v@, i + 1, v@.len() as int);
        }
    }
    if i < v.len() {
        let mut out = slice_chars(v.as_slice(), 0, i);
        push_str(&mut out, "…(truncated)");
        assert(v@.subrange(0, i as int) =~= v@.take(i as int));
        string_of(out.as_slice())
    } else {
        s.to_owned()
    }
}

} // verus!
