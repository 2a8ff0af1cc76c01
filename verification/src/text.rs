//! Character-level helpers: whitespace trimming, ASCII case folding and
//! comparison of character sequences.

use vstd::prelude::*;

verus! {

/// Unicode `White_Space` property, which `char::is_whitespace` and
/// `str::trim` use.
pub open spec fn is_whitespace(c: char) -> bool {
    let u = c as u32;
    ||| 0x9 <= u <= 0xd
    ||| u == 0x20
    ||| u == 0x85
    ||| u == 0xa0
    ||| u == 0x1680
    ||| 0x2000 <= u <= 0x200a
    ||| u == 0x2028
    ||| u == 0x2029
    ||| u == 0x202f
    ||| u == 0x205f
    ||| u == 0x3000
}

/// The sequence with its leading whitespace removed.
pub open spec fn trim_start(s: Seq<char>) -> Seq<char>
    decreases s.len(),
{
    if s.len() > 0 && is_whitespace(s[0]) {
        trim_start(s.drop_first())
    } else {
        s
    }
}

/// The sequence with its trailing whitespace removed.
pub open spec fn trim_end(s: Seq<char>) -> Seq<char>
    decreases s.len(),
{
    if s.len() > 0 && is_whitespace(s.last()) {
        trim_end(s.drop_last())
    } else {
        s
    }
}

/// The sequence with leading and trailing whitespace removed, as `str::trim` does.
pub open spec fn trim(s: Seq<char>) -> Seq<char> {
    trim_end(trim_start(s))
}

/// ASCII lower-case of one character; every other character is unchanged.
pub open spec fn ascii_lower(c: char) -> char {
    if 'A' <= c && c <= 'Z' {
        ((c as u32) + 32) as char
    } else {
        c
    }
}

/// ASCII lower-case of a sequence, as `str::to_ascii_lowercase` does.
pub open spec fn ascii_lowercase(s: Seq<char>) -> Seq<char> {
    s.map_values(|c: char| ascii_lower(c))
}

/// Whether a character is whitespace, as `char::is_whitespace` decides.
pub fn is_whitespace_char(c: char) -> (r: bool)
    ensures
        r == is_whitespace(c),
{
    let u = c as u32;
    (0x9 <= u && u <= 0xd) || u == 0x20 || u == 0x85 || u == 0xa0 || u == 0x1680 || (0x2000 <= u
        && u <= 0x200a) || u == 0x2028 || u == 0x2029 || u == 0x202f || u == 0x205f || u == 0x3000
}

/// ASCII lower-case of one character, as `char::to_ascii_lowercase` gives.
pub fn ascii_lower_char(c: char) -> (r: char)
    ensures
        r == ascii_lower(c),
{
    if 'A' <= c && c <= 'Z' {
        let b = (c as u8) + 32;
        b as char
    } else {
        c
    }
}

/// Whether two character sequences are equal.
pub fn chars_equal(a: &[char], b: &[char]) -> (r: bool)
    ensures
        r == (a@ == b@),
{
    if a.len() != b.len() {
        return false;
    }
    let mut i: usize = 0;
    while i < a.len()
        invariant
            a@.len() == b@.len(),
            i <= a@.len(),
            forall|j: int| 0 <= j < i ==> a@[j] == b@[j],
        decreases a@.len() - i,
    {
        if a[i] != b[i] {
            return false;
        }
        i = i + 1;
    }
    assert(a@ =~= b@);
    true
}

/// The characters of a string slice, in order.
pub fn chars_of(s: &str) -> (v: Vec<char>)
    ensures
        v@ == s@,
{
    broadcast use vstd::string::group_string_axioms;
    let mut v: Vec<char> = Vec::new();
    for c in it: s.chars()
        invariant
            v@ == it.seq().take(it.index()),
    {
        v.push(c);
    }
    v
}

/// Whether every character of a sequence is whitespace.
pub open spec fn all_whitespace(s: Seq<char>) -> bool {
    forall|i: int| 0 <= i < s.len() ==> is_whitespace(#[trigger] s[i])
}

/// Leading whitespace is dropped by `trim_start`.
pub proof fn lemma_trim_start_skips_whitespace(w: Seq<char>, x: Seq<char>)
    requires
        all_whitespace(w),
    ensures
        trim_start(w + x) == trim_start(x),
    decreases w.len(),
{
    if w.len() > 0 {
        assert((w + x)[0] == w[0]);
        assert((w + x).drop_first() =~= w.drop_first() + x);
        lemma_trim_start_skips_whitespace(w.drop_first(), x);
    } else {
        assert(w + x =~= x);
    }
}

/// Trailing whitespace is dropped by `trim_end`.
pub proof fn lemma_trim_end_skips_whitespace(x: Seq<char>, w: Seq<char>)
    requires
        all_whitespace(w),
    ensures
        trim_end(x + w) == trim_end(x),
    decreases w.len(),
{
    if w.len() > 0 {
        assert((x + w).last() == w.last());
        assert((x + w).drop_last() =~= x + w.drop_last());
        lemma_trim_end_skips_whitespace(x, w.drop_last());
    } else {
        assert(x + w =~= x);
    }
}

/// A sequence of whitespace trims to nothing.
pub proof fn lemma_trim_start_of_whitespace(w: Seq<char>)
    requires
        all_whitespace(w),
    ensures
        trim_start(w) == Seq::<char>::empty(),
{
    lemma_trim_start_skips_whitespace(w, Seq::<char>::empty());
    assert(w + Seq::<char>::empty() =~= w);
}

/// Trailing characters survive `trim_start` once a non-whitespace character precedes them.
pub proof fn lemma_trim_start_append(x: Seq<char>, w: Seq<char>)
    requires
        !all_whitespace(x),
    ensures
        trim_start(x + w) == trim_start(x) + w,
    decreases x.len(),
{
    assert(x.len() > 0);
    assert((x + w)[0] == x[0]);
    if is_whitespace(x[0]) {
        let i = choose|i: int| 0 <= i < x.len() && !is_whitespace(#[trigger] x[i]);
        assert(i > 0);
        assert(x.drop_first()[i - 1] == x[i]);
        assert((x + w).drop_first() =~= x.drop_first() + w);
        lemma_trim_start_append(x.drop_first(), w);
    }
}

/// Surrounding whitespace does not change what `trim` leaves.
pub proof fn lemma_trim_ignores_surrounding_whitespace(w1: Seq<char>, s: Seq<char>, w2: Seq<char>)
    requires
        all_whitespace(w1),
        all_whitespace(w2),
    ensures
        trim(w1 + s + w2) == trim(s),
{
    assert(w1 + s + w2 =~= w1 + (s + w2));
    lemma_trim_start_skips_whitespace(w1, s + w2);
    if all_whitespace(s) {
        assert(all_whitespace(s + w2));
        lemma_trim_start_of_whitespace(s + w2);
        lemma_trim_start_of_whitespace(s);
    } else {
        lemma_trim_start_append(s, w2);
        lemma_trim_end_skips_whitespace(trim_start(s), w2);
    }
}

/// ASCII lower-casing keeps whether a character is whitespace.
pub proof fn lemma_ascii_lower_keeps_whitespace(c: char)
    ensures
        is_whitespace(ascii_lower(c)) == is_whitespace(c),
{
}

/// `trim_start` commutes with ASCII lower-casing.
pub proof fn lemma_trim_start_lowercase(s: Seq<char>)
    ensures
        trim_start(ascii_lowercase(s)) == ascii_lowercase(trim_start(s)),
    decreases s.len(),
{
    if s.len() > 0 {
        lemma_ascii_lower_keeps_whitespace(s[0]);
        assert(ascii_lowercase(s)[0] == ascii_lower(s[0]));
        if is_whitespace(s[0]) {
            assert(ascii_lowercase(s).drop_first() =~= ascii_lowercase(s.drop_first()));
            lemma_trim_start_lowercase(s.drop_first());
        }
    }
}

/// `trim_end` commutes with ASCII lower-casing.
pub proof fn lemma_trim_end_lowercase(s: Seq<char>)
    ensures
        trim_end(ascii_lowercase(s)) == ascii_lowercase(trim_end(s)),
    decreases s.len(),
{
    if s.len() > 0 {
        lemma_ascii_lower_keeps_whitespace(s.last());
        assert(ascii_lowercase(s).last() == ascii_lower(s.last()));
        if is_whitespace(s.last()) {
            assert(ascii_lowercase(s).drop_last() =~= ascii_lowercase(s.drop_last()));
            lemma_trim_end_lowercase(s.drop_last());
        }
    }
}

/// Lower-casing twice is lower-casing once.
pub proof fn lemma_ascii_lowercase_idempotent(s: Seq<char>)
    ensures
        ascii_lowercase(ascii_lowercase(s)) == ascii_lowercase(s),
{
    assert(ascii_lowercase(ascii_lowercase(s)) =~= ascii_lowercase(s));
}

} // verus!
