//! Character-level text utilities with their specifications.
//!
//! Strings are specified through their views, sequences of `char`. The
//! operations here follow the behaviour of the `str` methods they stand for
//! (`trim`, `find`, `lines`, `replace`, ...), stated as spec functions.
use vstd::prelude::*;

verus! {

// ------------------------------------------------------------------
// Specifications
// ------------------------------------------------------------------

/// Unicode `White_Space`, the property that `char::is_whitespace` tests.
pub open spec fn is_ws(c: char) -> bool {
    ||| ('\u{9}' <= c && c <= '\u{d}')
    ||| c == ' '
    ||| c == '\u{85}'
    ||| c == '\u{a0}'
    ||| c == '\u{1680}'
    ||| ('\u{2000}' <= c && c <= '\u{200a}')
    ||| c == '\u{2028}'
    ||| c == '\u{2029}'
    ||| c == '\u{202f}'
    ||| c == '\u{205f}'
    ||| c == '\u{3000}'
}

/// Index of the first non-whitespace character at or after `i`.
pub open spec fn lead_ws(s: Seq<char>, i: int) -> int
    decreases s.len() - i,
{
    if 0 <= i < s.len() && is_ws(s[i]) {
        lead_ws(s, i + 1)
    } else {
        i
    }
}

/// End of the text once the whitespace before position `j` is dropped.
pub open spec fn trail_ws(s: Seq<char>, j: int) -> int
    decreases j,
{
    if 0 < j <= s.len() && is_ws(s[j - 1]) {
        trail_ws(s, j - 1)
    } else {
        j
    }
}

/// `str::trim_start`.
pub open spec fn trim_start(s: Seq<char>) -> Seq<char> {
    s.subrange(lead_ws(s, 0), s.len() as int)
}

/// `str::trim_end`.
pub open spec fn trim_end(s: Seq<char>) -> Seq<char> {
    s.subrange(0, trail_ws(s, s.len() as int))
}

/// `str::trim`.
pub open spec fn trim(s: Seq<char>) -> Seq<char> {
    trim_end(trim_start(s))
}

/// `str::starts_with` for a string pattern.
pub open spec fn starts_with(s: Seq<char>, p: Seq<char>) -> bool {
    p.len() <= s.len() && s.subrange(0, p.len() as int) =~= p
}

/// `str::ends_with` for a string pattern.
pub open spec fn ends_with(s: Seq<char>, p: Seq<char>) -> bool {
    p.len() <= s.len() && s.subrange(s.len() - p.len(), s.len() as int) =~= p
}

/// Whether `p` occurs in `s` at position `i`.
pub open spec fn occurs_at(s: Seq<char>, p: Seq<char>, i: int) -> bool {
    0 <= i && i + p.len() <= s.len() && s.subrange(i, i + p.len()) =~= p
}

/// First position at or after `i` where `p` occurs in `s` (`str::find` from `i`).
pub open spec fn find_from(s: Seq<char>, p: Seq<char>, i: int) -> Option<int>
    decreases s.len() - i,
{
    if i < 0 || i + p.len() > s.len() {
        None
    } else if occurs_at(s, p, i) {
        Some(i)
    } else if i >= s.len() {
        None
    } else {
        find_from(s, p, i + 1)
    }
}

/// `str::find`.
pub open spec fn find(s: Seq<char>, p: Seq<char>) -> Option<int> {
    find_from(s, p, 0)
}

/// `str::contains` for a string pattern.
pub open spec fn contains(s: Seq<char>, p: Seq<char>) -> bool {
    find(s, p) is Some
}

/// Drops one trailing carriage return.
pub open spec fn strip_cr(t: Seq<char>) -> Seq<char> {
    if t.len() > 0 && t.last() == '\r' {
        t.drop_last()
    } else {
        t
    }
}

/// `str::lines`: split at `\n`, drop a `\r` before it, no empty last line.
pub open spec fn lines(s: Seq<char>) -> Seq<Seq<char>>
    decreases s.len(),
{
    if s.len() == 0 {
        Seq::empty()
    } else {
        proof {
            lemma_find_from_bounds(s, seq!['\n'], 0);
        }
        match find(s, seq!['\n']) {
            None => seq![s],
            Some(i) => seq![strip_cr(s.subrange(0, i))] + lines(s.subrange(i + 1, s.len() as int)),
        }
    }
}

/// `str::trim_start_matches` with a single character.
pub open spec fn trim_start_char(s: Seq<char>, c: char) -> Seq<char>
    decreases s.len(),
{
    if s.len() > 0 && s[0] == c {
        trim_start_char(s.drop_first(), c)
    } else {
        s
    }
}

/// `str::trim_end_matches` with a single character.
pub open spec fn trim_end_char(s: Seq<char>, c: char) -> Seq<char>
    decreases s.len(),
{
    if s.len() > 0 && s.last() == c {
        trim_end_char(s.drop_last(), c)
    } else {
        s
    }
}

/// `str::trim_matches` with a single character.
pub open spec fn trim_char(s: Seq<char>, c: char) -> Seq<char> {
    trim_end_char(trim_start_char(s, c), c)
}

/// `[T]::join` on text pieces.
pub open spec fn join(parts: Seq<Seq<char>>, sep: Seq<char>) -> Seq<char>
    decreases parts.len(),
{
    if parts.len() == 0 {
        Seq::empty()
    } else if parts.len() == 1 {
        parts[0]
    } else {
        join(parts.drop_last(), sep) + sep + parts.last()
    }
}

/// `str::replace` with a non-empty pattern: every non-overlapping
/// occurrence, scanned from the left, is replaced.
pub open spec fn replace_all(s: Seq<char>, from: Seq<char>, to: Seq<char>) -> Seq<char>
    decreases s.len(),
{
    if from.len() == 0 {
        s
    } else {
        proof {
            lemma_find_from_bounds(s, from, 0);
        }
        match find(s, from) {
            None => s,
            Some(i) => s.subrange(0, i) + to + replace_all(
                s.subrange(i + from.len(), s.len() as int),
                from,
                to,
            ),
        }
    }
}

/// Decimal digit character.
pub open spec fn digit_char(d: nat) -> char {
    if d == 0 {
        '0'
    } else if d == 1 {
        '1'
    } else if d == 2 {
        '2'
    } else if d == 3 {
        '3'
    } else if d == 4 {
        '4'
    } else if d == 5 {
        '5'
    } else if d == 6 {
        '6'
    } else if d == 7 {
        '7'
    } else if d == 8 {
        '8'
    } else {
        '9'
    }
}

/// Decimal notation of a natural number, as `format!("{}", n)` writes it.
pub open spec fn decimal(n: nat) -> Seq<char>
    decreases n,
{
    if n < 10 {
        seq![digit_char(n)]
    } else {
        decimal(n / 10).push(digit_char(n % 10))
    }
}

/// Length of a character in UTF-8.
pub open spec fn utf8_len(c: char) -> nat {
    if (c as u32) < 0x80 {
        1
    } else if (c as u32) < 0x800 {
        2
    } else if (c as u32) < 0x10000 {
        3
    } else {
        4
    }
}

/// Position of the character that starts at byte `b`, scanning from
/// character `k`, which starts at byte `acc`; none when `b` falls inside a
/// character or past the end.
pub open spec fn boundary_from(s: Seq<char>, b: nat, k: int, acc: nat) -> Option<int>
    decreases s.len() - k,
{
    if acc == b {
        Some(k)
    } else if acc > b || k < 0 || k >= s.len() {
        None
    } else {
        boundary_from(s, b, k + 1, acc + utf8_len(s[k]))
    }
}

/// The character position at byte offset `b`, when `b` is a character boundary.
pub open spec fn char_boundary(s: Seq<char>, b: nat) -> Option<int> {
    boundary_from(s, b, 0, 0)
}

// ------------------------------------------------------------------
// Lemmas
// ------------------------------------------------------------------

/// `lead_ws` stays within the text and skips only whitespace.
pub proof fn lemma_lead_ws_bounds(s: Seq<char>, i: int)
    requires
        0 <= i <= s.len(),
    ensures
        i <= lead_ws(s, i) <= s.len(),
        lead_ws(s, i) < s.len() ==> !is_ws(s[lead_ws(s, i)]),
        forall|k: int| i <= k < lead_ws(s, i) ==> is_ws(#[trigger] s[k]),
    decreases s.len() - i,
{
    if i < s.len() && is_ws(s[i]) {
        lemma_lead_ws_bounds(s, i + 1);
    }
}

/// `trail_ws` stays within the text and drops only whitespace.
pub proof fn lemma_trail_ws_bounds(s: Seq<char>, j: int)
    requires
        0 <= j <= s.len(),
    ensures
        0 <= trail_ws(s, j) <= j,
        trail_ws(s, j) > 0 ==> !is_ws(s[trail_ws(s, j) - 1]),
        forall|k: int| trail_ws(s, j) <= k < j ==> is_ws(#[trigger] s[k]),
    decreases j,
{
    if j > 0 && is_ws(s[j - 1]) {
        lemma_trail_ws_bounds(s, j - 1);
    }
}

/// What `find_from` finds is an occurrence within the text.
pub proof fn lemma_find_from_bounds(s: Seq<char>, p: Seq<char>, i: int)
    requires
        0 <= i,
    ensures
        match find_from(s, p, i) {
            Some(k) => i <= k && occurs_at(s, p, k) && forall|j: int|
                i <= j < k ==> !occurs_at(s, p, j),
            None => forall|j: int| i <= j ==> !occurs_at(s, p, j),
        },
    decreases s.len() - i,
{
    if i < 0 || i + p.len() > s.len() {
    } else if occurs_at(s, p, i) {
    } else if i >= s.len() {
    } else {
        lemma_find_from_bounds(s, p, i + 1);
    }
}

/// A position that is the first occurrence at or after `i` is what `find_from` returns.
pub proof fn lemma_find_from_first(s: Seq<char>, p: Seq<char>, i: int, k: int)
    requires
        0 <= i <= k,
        occurs_at(s, p, k),
        forall|j: int| i <= j < k ==> !occurs_at(s, p, j),
    ensures
        find_from(s, p, i) == Some(k),
    decreases k - i,
{
    if i < k {
        assert(!occurs_at(s, p, i));
        lemma_find_from_first(s, p, i + 1, k);
    }
}

/// No occurrence at or after `i` means `find_from` gives nothing.
pub proof fn lemma_find_from_none(s: Seq<char>, p: Seq<char>, i: int)
    requires
        0 <= i,
        forall|j: int| i <= j ==> !occurs_at(s, p, j),
    ensures
        find_from(s, p, i) is None,
    decreases s.len() - i,
{
    if i + p.len() > s.len() {
    } else if i >= s.len() {
    } else {
        assert(!occurs_at(s, p, i));
        lemma_find_from_none(s, p, i + 1);
    }
}

/// Occurrences in a suffix are occurrences in the whole, shifted.
pub proof fn lemma_occurs_shift(s: Seq<char>, p: Seq<char>, a: int, j: int)
    requires
        0 <= a <= s.len(),
    ensures
        occurs_at(s.subrange(a, s.len() as int), p, j) <==> (0 <= j && occurs_at(s, p, a + j)),
{
    let t = s.subrange(a, s.len() as int);
    if 0 <= j && j + p.len() <= t.len() {
        assert(t.subrange(j, j + p.len()) =~= s.subrange(a + j, a + j + p.len()));
    }
}

/// `find` in a suffix, in terms of positions of the whole.
pub proof fn lemma_find_suffix(s: Seq<char>, p: Seq<char>, a: int)
    requires
        0 <= a <= s.len(),
    ensures
        match find_from(s, p, a) {
            Some(k) => find(s.subrange(a, s.len() as int), p) == Some(k - a),
            None => find(s.subrange(a, s.len() as int), p) is None,
        },
{
    let t = s.subrange(a, s.len() as int);
    lemma_find_from_bounds(s, p, a);
    match find_from(s, p, a) {
        Some(k) => {
            lemma_occurs_shift(s, p, a, k - a);
            assert forall|j: int| 0 <= j < k - a implies !occurs_at(t, p, j) by {
                lemma_occurs_shift(s, p, a, j);
            }
            lemma_find_from_first(t, p, 0, k - a);
        },
        None => {
            assert forall|j: int| 0 <= j implies !occurs_at(t, p, j) by {
                lemma_occurs_shift(s, p, a, j);
            }
            lemma_find_from_none(t, p, 0);
        },
    }
}

// ------------------------------------------------------------------
// Executable operations
// ------------------------------------------------------------------

/// `String::push`: appends one character at the end of the string.
#[verifier::external_body]
pub(crate) fn push_char(s: &mut String, c: char)
    ensures
        final(s)@ == old(s)@.push(c),
{
    s.push(c)
}

/// The characters of a string slice, as a vector.
pub fn chars_of(s: &str) -> (v: Vec<char>)
    ensures
        v@ == s@,
{
    let mut v: Vec<char> = Vec::new();
    for c in it: s.chars()
        invariant
            v@ == it.seq().take(it.index() as int),
            it.seq() == s@,
    {
        v.push(c);
    }
    v
}

/// A string holding the given characters.
pub fn string_of(v: &[char]) -> (s: String)
    ensures
        s@ == v@,
{
    let mut s = String::new();
    let mut i: usize = 0;
    while i < v.len()
        invariant
            i <= v@.len(),
            s@ == v@.subrange(0, i as int),
        decreases v@.len() - i,
    {
        push_char(&mut s, v[i]);
        assert(v@.subrange(0, i + 1) =~= v@.subrange(0, i as int).push(v@[i as int]));
        i = i + 1;
    }
    assert(v@.subrange(0, v@.len() as int) =~= v@);
    s
}

/// The characters `v[a..b]`.
pub fn slice_chars(v: &[char], a: usize, b: usize) -> (r: Vec<char>)
    requires
        a <= b <= v@.len(),
    ensures
        r@ == v@.subrange(a as int, b as int),
{
    let mut r: Vec<char> = Vec::new();
    let mut i: usize = a;
    while i < b
        invariant
            a <= i <= b <= v@.len(),
            r@ == v@.subrange(a as int, i as int),
        decreases b - i,
    {
        r.push(v[i]);
        assert(v@.subrange(a as int, i + 1) =~= v@.subrange(a as int, i as int).push(v@[i as int]));
        i = i + 1;
    }
    r
}

/// Appends the characters of `w` to `v`.
pub fn push_all(v: &mut Vec<char>, w: &[char])
    ensures
        final(v)@ == old(v)@ + w@,
{
    let mut i: usize = 0;
    while i < w.len()
        invariant
            i <= w@.len(),
            v@ == old(v)@ + w@.subrange(0, i as int),
        decreases w@.len() - i,
    {
        v.push(w[i]);
        assert(w@.subrange(0, i + 1) =~= w@.subrange(0, i as int).push(w@[i as int]));
        i = i + 1;
    }
    assert(w@.subrange(0, w@.len() as int) =~= w@);
}

/// Appends the characters of `s` to `v`.
pub fn push_str(v: &mut Vec<char>, s: &str)
    ensures
        final(v)@ == old(v)@ + s@,
{
    let w = chars_of(s);
    push_all(v, w.as_slice());
}

/// Whether two character sequences are equal.
pub fn chars_eq(a: &[char], b: &[char]) -> (r: bool)
    ensures
        r == (a@ == b@),
{
    if a.len() != b.len() {
        return false;
    }
    let mut i: usize = 0;
    while i < a.len()
        invariant
            a@.len() == b@.len(),
            i <= a@.len(),
            forall|k: int| 0 <= k < i ==> a@[k] == b@[k],
        decreases a@.len() - i,
    {
        if a[i] != b[i] {
            return false;
        }
        i = i + 1;
    }
    assert(a@ =~= b@);
    true
}

/// Whether two strings are equal.
pub fn str_eq(a: &str, b: &str) -> (r: bool)
    ensures
        r == (a@ == b@),
{
    let va = chars_of(a);
    let vb = chars_of(b);
    chars_eq(va.as_slice(), vb.as_slice())
}

/// `char::is_whitespace`.
pub fn is_whitespace(c: char) -> (r: bool)
    ensures
        r == is_ws(c),
{
    ('\u{9}' <= c && c <= '\u{d}') || c == ' ' || c == '\u{85}' || c == '\u{a0}' || c == '\u{1680}'
        || ('\u{2000}' <= c && c <= '\u{200a}') || c == '\u{2028}' || c == '\u{2029}' || c
        == '\u{202f}' || c == '\u{205f}' || c == '\u{3000}'
}

/// `str::trim` on characters.
pub fn trim_chars(v: &[char]) -> (r: Vec<char>)
    ensures
        r@ == trim(v@),
{
    let mut a: usize = 0;
    while a < v.len() && is_whitespace(v[a])
        invariant
            a <= v@.len(),
            lead_ws(v@, 0) == lead_ws(v@, a as int),
        decreases v@.len() - a,
    {
        a = a + 1;
    }
    let t = slice_chars(v, a, v.len());
    let mut b: usize = t.len();
    while b > 0 && is_whitespace(t[b - 1])
        invariant
            b <= t@.len(),
            trail_ws(t@, t@.len() as int) == trail_ws(t@, b as int),
        decreases b,
    {
        b = b - 1;
    }
    slice_chars(t.as_slice(), 0, b)
}

/// `str::trim_start` on characters.
pub fn trim_start_chars(v: &[char]) -> (r: Vec<char>)
    ensures
        r@ == trim_start(v@),
{
    let mut a: usize = 0;
    while a < v.len() && is_whitespace(v[a])
        invariant
            a <= v@.len(),
            lead_ws(v@, 0) == lead_ws(v@, a as int),
        decreases v@.len() - a,
    {
        a = a + 1;
    }
    slice_chars(v, a, v.len())
}

/// `str::trim_end` on characters.
pub fn trim_end_chars(v: &[char]) -> (r: Vec<char>)
    ensures
        r@ == trim_end(v@),
{
    let mut b: usize = v.len();
    while b > 0 && is_whitespace(v[b - 1])
        invariant
            b <= v@.len(),
            trail_ws(v@, v@.len() as int) == trail_ws(v@, b as int),
        decreases b,
    {
        b = b - 1;
    }
    slice_chars(v, 0, b)
}

/// Whether `p` occurs in `s` at position `i`.
pub fn occurs_at_exec(s: &[char], p: &[char], i: usize) -> (r: bool)
    ensures
        r == occurs_at(s@, p@, i as int),
{
    if i > s.len() || p.len() > s.len() - i {
        return false;
    }
    let end: usize = i + p.len();
    let mut k: usize = 0;
    while k < p.len()
        invariant
            end == i + p@.len(),
            end <= s@.len(),
            k <= p@.len(),
            forall|j: int| 0 <= j < k ==> s@[i + j] == p@[j],
        decreases p@.len() - k,
    {
        assert(i + k < end);
        if s[i + k] != p[k] {
            assert(s@.subrange(i as int, i + p@.len())[k as int] != p@[k as int]);
            return false;
        }
        k = k + 1;
    }
    assert(s@.subrange(i as int, i + p@.len()) =~= p@);
    true
}

/// `str::find` starting at position `from`.
pub fn find_chars(s: &[char], p: &[char], from: usize) -> (r: Option<usize>)
    ensures
        match r {
            Some(k) => find_from(s@, p@, from as int) == Some(k as int),
            None => find_from(s@, p@, from as int) is None,
        },
{
    let mut i: usize = from;
    while i <= s.len()
        invariant
            from <= i,
            find_from(s@, p@, from as int) == find_from(s@, p@, i as int),
        decreases s@.len() + 1 - i,
    {
        if p.len() > s.len() - i {
            return None;
        }
        if occurs_at_exec(s, p, i) {
            return Some(i);
        }
        if i == s.len() {
            return None;
        }
        i = i + 1;
    }
    None
}

/// Drops one trailing carriage return.
pub fn strip_cr_chars(v: Vec<char>) -> (r: Vec<char>)
    ensures
        r@ == strip_cr(v@),
{
    let mut v = v;
    if v.len() > 0 && v[v.len() - 1] == '\r' {
        v.pop();
    }
    v
}

/// Pushing a character vector adds its characters to the deep view.
pub proof fn lemma_deep_push(r_old: Vec<Vec<char>>, r_new: Vec<Vec<char>>, x: Vec<char>)
    requires
        r_new@ == r_old@.push(x),
    ensures
        r_new.deep_view() == r_old.deep_view().push(x@),
{
    assert(x.deep_view() =~= x@);
    assert(r_new.deep_view() =~= r_old.deep_view().push(x@));
}

/// Pushing a string adds its characters to the deep view.
pub proof fn lemma_deep_push_string(r_old: Vec<String>, r_new: Vec<String>, x: String)
    requires
        r_new@ == r_old@.push(x),
    ensures
        r_new.deep_view() == r_old.deep_view().push(x@),
{
    assert(r_new.deep_view() =~= r_old.deep_view().push(x@));
}

/// `str::lines` on characters.
pub fn split_lines(v: &[char]) -> (r: Vec<Vec<char>>)
    ensures
        r.deep_view() == lines(v@),
{
    let nl: Vec<char> = vec!['\n'];
    assert(nl@ =~= seq!['\n']);
    let mut r: Vec<Vec<char>> = Vec::new();
    let mut start: usize = 0;
    assert(v@.subrange(0, v@.len() as int) =~= v@);
    assert(r.deep_view() =~= Seq::<Seq<char>>::empty());
    while start < v.len()
        invariant
            nl@ == seq!['\n'],
            start <= v@.len(),
            lines(v@) == r.deep_view() + lines(v@.subrange(start as int, v@.len() as int)),
        decreases v@.len() - start,
    {
        let ghost t = v@.subrange(start as int, v@.len() as int);
        proof {
            lemma_find_suffix(v@, seq!['\n'], start as int);
        }
        match find_chars(v, nl.as_slice(), start) {
            None => {
                let line = slice_chars(v, start, v.len());
                let ghost old_v = r;
                r.push(line);
                proof {
                    lemma_deep_push(old_v, r, line);
                }
                assert(lines(t) == seq![t]);
                assert(r.deep_view() =~= old_v.deep_view() + seq![t]);
                assert(v@.subrange(v@.len() as int, v@.len() as int) =~= Seq::<char>::empty());
                assert(lines(Seq::<char>::empty()) =~= Seq::<Seq<char>>::empty());
                start = v.len();
            },
            Some(j) => {
                proof {
                    lemma_find_from_bounds(v@, seq!['\n'], start as int);
                }
                let line = strip_cr_chars(slice_chars(v, start, j));
                let ghost old_v = r;
                let ghost old_r = r.deep_view();
                r.push(line);
                proof {
                    lemma_deep_push(old_v, r, line);
                }
                assert(t.subrange(0, j - start) =~= v@.subrange(start as int, j as int));
                assert(t.subrange(j - start + 1, t.len() as int) =~= v@.subrange(
                    j + 1,
                    v@.len() as int,
                ));
                assert(r.deep_view() =~= old_r + seq![strip_cr(v@.subrange(start as int, j as int))]);
                start = j + 1;
            },
        }
    }
    assert(v@.subrange(start as int, v@.len() as int) =~= Seq::<char>::empty());
    assert(r.deep_view() + Seq::<Seq<char>>::empty() =~= r.deep_view());
    r
}

/// `str::strip_prefix` on characters.
pub fn strip_prefix_chars(v: &[char], p: &[char]) -> (r: Option<Vec<char>>)
    ensures
        match r {
            Some(rest) => starts_with(v@, p@) && rest@ == v@.subrange(p@.len() as int, v@.len() as int),
            None => !starts_with(v@, p@),
        },
{
    if occurs_at_exec(v, p, 0) {
        Some(slice_chars(v, p.len(), v.len()))
    } else {
        None
    }
}

/// Whether `v` starts with `p`.
pub fn starts_with_chars(v: &[char], p: &[char]) -> (r: bool)
    ensures
        r == starts_with(v@, p@),
{
    occurs_at_exec(v, p, 0)
}

/// Whether `v` starts with the string `p`.
pub fn starts_with_str(v: &[char], p: &str) -> (r: bool)
    ensures
        r == starts_with(v@, p@),
{
    let pv = chars_of(p);
    occurs_at_exec(v, pv.as_slice(), 0)
}

/// `str::trim_start_matches` with one character.
pub fn trim_start_char_exec(v: &[char], c: char) -> (r: Vec<char>)
    ensures
        r@ == trim_start_char(v@, c),
{
    let mut a: usize = 0;
    assert(v@.subrange(0, v@.len() as int) =~= v@);
    while a < v.len() && v[a] == c
        invariant
            a <= v@.len(),
            trim_start_char(v@, c) == trim_start_char(v@.subrange(a as int, v@.len() as int), c),
        decreases v@.len() - a,
    {
        assert(v@.subrange(a as int, v@.len() as int).drop_first() =~= v@.subrange(
            a + 1,
            v@.len() as int,
        ));
        a = a + 1;
    }
    slice_chars(v, a, v.len())
}

/// `str::trim_end_matches` with one character.
pub fn trim_end_char_exec(v: &[char], c: char) -> (r: Vec<char>)
    ensures
        r@ == trim_end_char(v@, c),
{
    let mut b: usize = v.len();
    assert(v@.subrange(0, v@.len() as int) =~= v@);
    while b > 0 && v[b - 1] == c
        invariant
            b <= v@.len(),
            trim_end_char(v@, c) == trim_end_char(v@.subrange(0, b as int), c),
        decreases b,
    {
        assert(v@.subrange(0, b as int).drop_last() =~= v@.subrange(0, b - 1));
        b = b - 1;
    }
    slice_chars(v, 0, b)
}

/// `str::trim_matches` with one character.
pub fn trim_char_exec(v: &[char], c: char) -> (r: Vec<char>)
    ensures
        r@ == trim_char(v@, c),
{
    let a = trim_start_char_exec(v, c);
    trim_end_char_exec(a.as_slice(), c)
}

/// Joining one more part adds the separator and the part.
pub proof fn lemma_join_step(parts: Seq<Seq<char>>, sep: Seq<char>, i: int)
    requires
        1 <= i < parts.len(),
    ensures
        join(parts.take(i + 1), sep) == join(parts.take(i), sep) + sep + parts[i],
{
    assert(parts.take(i + 1).drop_last() =~= parts.take(i));
}

/// `[String]::join`.
pub fn join_strings(parts: &Vec<String>, sep: &str) -> (r: String)
    ensures
        r@ == join(parts.deep_view(), sep@),
{
    let ghost dv = parts.deep_view();
    let sepv = chars_of(sep);
    let mut acc: Vec<char> = Vec::new();
    let mut i: usize = 0;
    while i < parts.len()
        invariant
            dv == parts.deep_view(),
            sepv@ == sep@,
            i <= parts@.len(),
            acc@ == join(dv.take(i as int), sep@),
        decreases parts@.len() - i,
    {
        proof {
            assert(dv[i as int] == parts@[i as int]@);
            if i == 0 {
                assert(dv.take(1) =~= seq![dv[0]]);
                assert(dv.take(0) =~= Seq::<Seq<char>>::empty());
                assert(acc@ =~= Seq::<char>::empty());
            } else {
                lemma_join_step(dv, sep@, i as int);
            }
        }
        if i > 0 {
            push_all(&mut acc, sepv.as_slice());
        }
        push_str(&mut acc, parts[i].as_str());
        proof {
            if i == 0 {
                assert(acc@ =~= dv[0]);
            }
        }
        i = i + 1;
    }
    assert(dv.take(parts@.len() as int) =~= dv);
    string_of(acc.as_slice())
}

/// `str::replace` with a non-empty pattern, on characters.
pub fn replace_all_chars(s: &[char], from: &[char], to: &[char]) -> (r: Vec<char>)
    requires
        from@.len() > 0,
    ensures
        r@ == replace_all(s@, from@, to@),
{
    let mut acc: Vec<char> = Vec::new();
    let mut pos: usize = 0;
    assert(s@.subrange(0, s@.len() as int) =~= s@);
    loop
        invariant
            from@.len() > 0,
            pos <= s@.len(),
            replace_all(s@, from@, to@) == acc@ + replace_all(
                s@.subrange(pos as int, s@.len() as int),
                from@,
                to@,
            ),
        decreases s@.len() - pos,
    {
        let ghost t = s@.subrange(pos as int, s@.len() as int);
        proof {
            lemma_find_suffix(s@, from@, pos as int);
            lemma_find_from_bounds(s@, from@, pos as int);
        }
        match find_chars(s, from, pos) {
            None => {
                let rest = slice_chars(s, pos, s.len());
                push_all(&mut acc, rest.as_slice());
                return acc;
            },
            Some(k) => {
                let piece = slice_chars(s, pos, k);
                push_all(&mut acc, piece.as_slice());
                push_all(&mut acc, to);
                assert(t.subrange(0, k - pos) =~= s@.subrange(pos as int, k as int));
                assert(t.subrange(k - pos + from@.len(), t.len() as int) =~= s@.subrange(
                    k + from@.len(),
                    s@.len() as int,
                ));
                assert(k + from@.len() <= s@.len());
                let slen = s.len();
                assert(slen == s@.len());
                pos = k + from.len();
            },
        }
    }
}

/// Decimal digit of `d < 10`.
pub fn digit_exec(d: u64) -> (c: char)
    requires
        d < 10,
    ensures
        c == digit_char(d as nat),
{
    if d == 0 {
        '0'
    } else if d == 1 {
        '1'
    } else if d == 2 {
        '2'
    } else if d == 3 {
        '3'
    } else if d == 4 {
        '4'
    } else if d == 5 {
        '5'
    } else if d == 6 {
        '6'
    } else if d == 7 {
        '7'
    } else if d == 8 {
        '8'
    } else {
        '9'
    }
}

/// Appends the decimal notation of `n`.
pub fn push_decimal(v: &mut Vec<char>, n: u64)
    ensures
        final(v)@ == old(v)@ + decimal(n as nat),
    decreases n,
{
    if n >= 10 {
        push_decimal(v, n / 10);
    }
    v.push(digit_exec(n % 10));
    proof {
        if n >= 10 {
            assert(decimal(n as nat) == decimal((n / 10) as nat).push(digit_char((n % 10) as nat)));
        }
    }
}

/// `n.to_string()`.
pub fn decimal_string(n: u64) -> (s: String)
    ensures
        s@ == decimal(n as nat),
{
    let mut v: Vec<char> = Vec::new();
    push_decimal(&mut v, n);
    assert(v@ =~= decimal(n as nat));
    string_of(v.as_slice())
}

/// `s.chars().take(n).collect::<String>()`.
pub fn take_chars(s: &str, n: usize) -> (r: String)
    ensures
        r@ == s@.take(if n < s@.len() { n as int } else { s@.len() as int }),
{
    let v = chars_of(s);
    let end = if n < v.len() { n } else { v.len() };
    let w = slice_chars(v.as_slice(), 0, end);
    string_of(w.as_slice())
}

/// Length of a character in UTF-8 (`char::len_utf8`).
pub fn utf8_len_exec(c: char) -> (n: usize)
    ensures
        n == utf8_len(c),
{
    let u = c as u32;
    if u < 0x80 {
        1
    } else if u < 0x800 {
        2
    } else if u < 0x10000 {
        3
    } else {
        4
    }
}

/// The character position at byte offset `b` (see `char_boundary`).
pub fn char_boundary_exec(v: &[char], b: usize) -> (r: Option<usize>)
    ensures
        match r {
            Some(k) => char_boundary(v@, b as nat) == Some(k as int) && k <= v@.len(),
            None => char_boundary(v@, b as nat) is None,
        },
{
    let mut k: usize = 0;
    let mut acc: usize = 0;
    loop
        invariant
            k <= v@.len(),
            char_boundary(v@, b as nat) == boundary_from(v@, b as nat, k as int, acc as nat),
        decreases v@.len() - k,
    {
        if acc == b {
            return Some(k);
        }
        if acc > b || k >= v.len() {
            return None;
        }
        let l = utf8_len_exec(v[k]);
        if l > b - acc {
            assert(boundary_from(v@, b as nat, k + 1, (acc + l) as nat) is None);
            return None;
        }
        acc = acc + l;
        k = k + 1;
    }
}

/// Length of text in UTF-8.
pub open spec fn byte_len(s: Seq<char>) -> nat
    decreases s.len(),
{
    if s.len() == 0 {
        0
    } else {
        byte_len(s.drop_last()) + utf8_len(s.last())
    }
}

/// Length of text in UTF-8, saturating at `usize::MAX` (`str::len`).
pub fn byte_count(s: &[char]) -> (r: usize)
    ensures
        r == crate::message::clamp(byte_len(s@)),
{
    let mut n: usize = 0;
    let mut i: usize = 0;
    while i < s.len()
        invariant
            i <= s@.len(),
            n == crate::message::clamp(byte_len(s@.take(i as int))),
        decreases s@.len() - i,
    {
        assert(s@.take(i + 1).drop_last() =~= s@.take(i as int));
        let l = utf8_len_exec(s[i]);
        n = n.saturating_add(l);
        i = i + 1;
    }
    assert(s@.take(s@.len() as int) =~= s@);
    n
}


proof fn lemma_boundary_from_prefix(s: Seq<char>, b: nat, k: int, acc: nat)
    requires
        0 <= k <= s.len(),
        acc == byte_len(s.take(k)),
    ensures
        boundary_from(s, b, k, acc) matches Some(j) ==> k <= j <= s.len() && byte_len(s.take(j)) == b,
    decreases s.len() - k,
{
    if acc != b && acc < b && k < s.len() {
        assert(s.take(k + 1).drop_last() =~= s.take(k));
        lemma_boundary_from_prefix(s, b, k + 1, acc + utf8_len(s[k]));
    }
}

/// The character position of a byte boundary ends a prefix of exactly that
/// many bytes.
pub proof fn law_char_boundary_prefix(s: Seq<char>, b: nat)
    ensures
        char_boundary(s, b) matches Some(k) ==> 0 <= k <= s.len() && byte_len(s.take(k)) == b,
{
    assert(s.take(0) =~= Seq::<char>::empty());
    lemma_boundary_from_prefix(s, b, 0, 0);
}

/// End of the word that starts at `i`: the first whitespace at or after
/// `i`, or the end of the text.
pub open spec fn word_end(s: Seq<char>, i: int) -> int
    decreases s.len() - i,
{
    if 0 <= i < s.len() && !is_ws(s[i]) {
        word_end(s, i + 1)
    } else {
        i
    }
}

/// A word ends within the text, after its first character.
pub proof fn lemma_word_end_bounds(s: Seq<char>, i: int)
    requires
        0 <= i <= s.len(),
    ensures
        i <= word_end(s, i) <= s.len(),
        i < s.len() && !is_ws(s[i]) ==> i < word_end(s, i),
    decreases s.len() - i,
{
    if i < s.len() && !is_ws(s[i]) {
        lemma_word_end_bounds(s, i + 1);
    }
}

/// The words of `s` from position `i` on (`str::split_whitespace`).
pub open spec fn words_from(s: Seq<char>, i: int) -> Seq<Seq<char>>
    decreases s.len() - i,
{
    if i < 0 || i >= s.len() {
        Seq::empty()
    } else if is_ws(s[i]) {
        words_from(s, i + 1)
    } else {
        proof {
            lemma_word_end_bounds(s, i);
        }
        seq![s.subrange(i, word_end(s, i))] + words_from(s, word_end(s, i))
    }
}

/// `str::split_whitespace`: the maximal runs of non-whitespace characters.
pub open spec fn words(s: Seq<char>) -> Seq<Seq<char>> {
    words_from(s, 0)
}

/// `str::split_whitespace` on characters.
pub fn split_words(v: &[char]) -> (r: Vec<Vec<char>>)
    ensures
        r.deep_view() == words(v@),
{
    let mut r: Vec<Vec<char>> = Vec::new();
    let mut i: usize = 0;
    assert(r.deep_view() =~= Seq::<Seq<char>>::empty());
    while i < v.len()
        invariant
            i <= v@.len(),
            words(v@) == r.deep_view() + words_from(v@, i as int),
        decreases v@.len() - i,
    {
        if is_whitespace(v[i]) {
            i = i + 1;
        } else {
            let mut j: usize = i;
            while j < v.len() && !is_whitespace(v[j])
                invariant
                    i <= j <= v@.len(),
                    word_end(v@, i as int) == word_end(v@, j as int),
                decreases v@.len() - j,
            {
                j = j + 1;
            }
            proof {
                lemma_word_end_bounds(v@, i as int);
            }
            let w = slice_chars(v, i, j);
            let ghost old_r = r;
            r.push(w);
            proof {
                lemma_deep_push(old_r, r, w);
            }
            assert(r.deep_view() + words_from(v@, j as int) =~= old_r.deep_view() + words_from(
                v@,
                i as int,
            ));
            i = j;
        }
    }
    assert(words_from(v@, i as int) =~= Seq::<Seq<char>>::empty());
    assert(r.deep_view() + Seq::<Seq<char>>::empty() =~= r.deep_view());
    r
}

/// Whether an answer to a yes/no prompt is no: `n` or `N` around
/// whitespace (`trim().eq_ignore_ascii_case("n")`).
pub open spec fn answer_no(ans: Seq<char>) -> bool {
    trim(ans) == seq!['n'] || trim(ans) == seq!['N']
}

/// Whether an answer to a yes/no prompt is no (see `answer_no`).
pub fn answer_is_no(ans: &str) -> (r: bool)
    ensures
        r == answer_no(ans@),
{
    let t = trim_chars(chars_of(ans).as_slice());
    assert(seq!['n'].len() == 1);
    if t.len() == 1 && (t[0] == 'n' || t[0] == 'N') {
        assert(t@ =~= seq![t@[0]]);
        true
    } else {
        false
    }
}

/// `str::to_lowercase`: Unicode lower case of a string. Its result depends
/// on the argument alone; it is named, not written out.
pub uninterp spec fn lowercase(s: Seq<char>) -> Seq<char>;

/// `str::to_lowercase`, whose result is `lowercase` of the argument.
#[verifier::external_body]
pub(crate) fn to_lowercase(s: &str) -> (r: String)
    ensures
        r@ == lowercase(s@),
{
    s.to_lowercase()
}

} // verus!
