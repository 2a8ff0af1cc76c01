//! Colormap names and the partition into standard and diverging maps.

use vstd::prelude::*;
use crate::text::{
    all_whitespace, ascii_lower_char, ascii_lowercase, chars_equal, chars_of, is_whitespace_char,
    lemma_ascii_lowercase_idempotent, lemma_trim_end_lowercase, lemma_trim_ignores_surrounding_whitespace,
    lemma_trim_start_lowercase, trim, trim_end, trim_start,
};

verus! {

/// Available colormap types.
#[derive(Clone, Copy, Debug, PartialEq, Eq, Structural)]
pub enum Colormap {
    Grayscale,
    Inferno,
    Magma,
    /// Diverging colormap, only available in symmetric mode
    RdBu,
    /// Diverging colormap, only available in symmetric mode
    RdYlBu,
}

/// The canonical (display) name of each colormap.
pub open spec fn colormap_name(c: Colormap) -> Seq<char> {
    match c {
        Colormap::Grayscale => seq!['g', 'r', 'a', 'y'],
        Colormap::Inferno => seq!['i', 'n', 'f', 'e', 'r', 'n', 'o'],
        Colormap::Magma => seq!['m', 'a', 'g', 'm', 'a'],
        Colormap::RdBu => seq!['R', 'd', 'B', 'u'],
        Colormap::RdYlBu => seq!['R', 'd', 'Y', 'l', 'B', 'u'],
    }
}

/// The colormap that a normalized (trimmed, ASCII lower-cased) name denotes.
pub open spec fn colormap_for_key(key: Seq<char>) -> Option<Colormap> {
    if key == seq!['g', 'r', 'a', 'y'] || key == seq!['g', 'r', 'a', 'y', 's', 'c', 'a', 'l', 'e']
        || key == seq!['g', 'r', 'e', 'y', 's', 'c', 'a', 'l', 'e'] {
        Some(Colormap::Grayscale)
    } else if key == seq!['i', 'n', 'f', 'e', 'r', 'n', 'o'] {
        Some(Colormap::Inferno)
    } else if key == seq!['m', 'a', 'g', 'm', 'a'] {
        Some(Colormap::Magma)
    } else if key == seq!['r', 'd', 'b', 'u'] {
        Some(Colormap::RdBu)
    } else if key == seq!['r', 'd', 'y', 'l', 'b', 'u'] {
        Some(Colormap::RdYlBu)
    } else {
        None
    }
}

/// What `Colormap::from_name` gives for a name: surrounding whitespace and
/// ASCII case are ignored.
pub open spec fn colormap_from_name(name: Seq<char>) -> Option<Colormap> {
    colormap_for_key(ascii_lowercase(trim(name)))
}

/// Whether a colormap is diverging (meant for symmetric mode).
pub open spec fn colormap_is_diverging(c: Colormap) -> bool {
    c == Colormap::RdBu || c == Colormap::RdYlBu
}

/// Trim surrounding whitespace and fold ASCII letters to lower case.
fn normalize_name(chars: &Vec<char>) -> (r: Vec<char>)
    ensures
        r@ == ascii_lowercase(trim(chars@)),
{
    let n = chars.len();
    let mut start: usize = 0;
    assert(chars@.subrange(0, n as int) =~= chars@);
    while start < n && is_whitespace_char(chars[start])
        invariant
            n == chars@.len(),
            start <= n,
            trim_start(chars@) == trim_start(chars@.subrange(start as int, n as int)),
        decreases n - start,
    {
        assert(chars@.subrange(start as int + 1, n as int) =~= chars@.subrange(
            start as int,
            n as int,
        ).drop_first());
        start = start + 1;
    }
    assert(trim_start(chars@) == chars@.subrange(start as int, n as int));
    let mut end: usize = n;
    while end > start && is_whitespace_char(chars[end - 1])
        invariant
            n == chars@.len(),
            start <= end <= n,
            trim_end(chars@.subrange(start as int, n as int)) == trim_end(
                chars@.subrange(start as int, end as int),
            ),
        decreases end - start,
    {
        assert(chars@.subrange(start as int, end as int - 1) =~= chars@.subrange(
            start as int,
            end as int,
        ).drop_last());
        end = end - 1;
    }
    let ghost trimmed = chars@.subrange(start as int, end as int);
    assert(trim(chars@) == trimmed);
    let mut out: Vec<char> = Vec::new();
    let mut i: usize = start;
    while i < end
        invariant
            n == chars@.len(),
            start <= i <= end <= n,
            trimmed == chars@.subrange(start as int, end as int),
            out@ =~= ascii_lowercase(chars@.subrange(start as int, i as int)),
        decreases end - i,
    {
        let c = ascii_lower_char(chars[i]);
        out.push(c);
        i = i + 1;
    }
    out
}

impl Colormap {
    /// Parse a colormap name from user input.
    ///
    /// Accepts the canonical names (in any ASCII case, with surrounding
    /// whitespace) and the aliases `grayscale` and `greyscale`.
    pub fn from_name(name: &str) -> (r: Option<Colormap>)
        ensures
            r == colormap_from_name(name@),
    {
        let chars = chars_of(name);
        let key = normalize_name(&chars);
        let k = key.as_slice();
        if chars_equal(k, &['g', 'r', 'a', 'y']) || chars_equal(
            k,
            &['g', 'r', 'a', 'y', 's', 'c', 'a', 'l', 'e'],
        ) || chars_equal(k, &['g', 'r', 'e', 'y', 's', 'c', 'a', 'l', 'e']) {
            Some(Colormap::Grayscale)
        } else if chars_equal(k, &['i', 'n', 'f', 'e', 'r', 'n', 'o']) {
            Some(Colormap::Inferno)
        } else if chars_equal(k, &['m', 'a', 'g', 'm', 'a']) {
            Some(Colormap::Magma)
        } else if chars_equal(k, &['r', 'd', 'b', 'u']) {
            Some(Colormap::RdBu)
        } else if chars_equal(k, &['r', 'd', 'y', 'l', 'b', 'u']) {
            Some(Colormap::RdYlBu)
        } else {
            None
        }
    }

    /// Display name for the UI and for state reports.
    pub fn name(&self) -> (r: &'static str)
        ensures
            r@ == colormap_name(*self),
    {
        match self {
            Colormap::Grayscale => {
                proof {
                    reveal_strlit("gray");
                }
                "gray"
            },
            Colormap::Inferno => {
                proof {
                    reveal_strlit("inferno");
                }
                "inferno"
            },
            Colormap::Magma => {
                proof {
                    reveal_strlit("magma");
                }
                "magma"
            },
            Colormap::RdBu => {
                proof {
                    reveal_strlit("RdBu");
                }
                "RdBu"
            },
            Colormap::RdYlBu => {
                proof {
                    reveal_strlit("RdYlBu");
                }
                "RdYlBu"
            },
        }
    }

    /// Whether this is a diverging colormap (requires symmetric mode).
    pub fn is_diverging(&self) -> (r: bool)
        ensures
            r == colormap_is_diverging(*self),
    {
        match self {
            Colormap::RdBu | Colormap::RdYlBu => true,
            _ => false,
        }
    }

    /// All non-diverging colormaps, in UI order.
    pub fn standard_colormaps() -> (r: &'static [Colormap])
        ensures
            r@ == seq![Colormap::Grayscale, Colormap::Inferno, Colormap::Magma],
    {
        &[Colormap::Grayscale, Colormap::Inferno, Colormap::Magma]
    }

    /// The diverging colormaps (for symmetric mode), in UI order.
    pub fn diverging_colormaps() -> (r: &'static [Colormap])
        ensures
            r@ == seq![Colormap::RdBu, Colormap::RdYlBu],
    {
        &[Colormap::RdBu, Colormap::RdYlBu]
    }
}

impl Default for Colormap {
    fn default() -> (r: Colormap)
        ensures
            r == Colormap::Grayscale,
    {
        Colormap::Grayscale
    }
}

/// Parsing a colormap's display name gives that colormap back.
pub proof fn lemma_name_round_trip(c: Colormap)
    ensures
        colormap_from_name(colormap_name(c)) == Some(c),
{
    let s = colormap_name(c);
    assert(trim_start(s) == s);
    assert(trim_end(s) == s);
    match c {
        Colormap::Grayscale => {
            assert(ascii_lowercase(s) =~= seq!['g', 'r', 'a', 'y']);
        },
        Colormap::Inferno => {
            assert(ascii_lowercase(s) =~= seq!['i', 'n', 'f', 'e', 'r', 'n', 'o']);
        },
        Colormap::Magma => {
            assert(ascii_lowercase(s) =~= seq!['m', 'a', 'g', 'm', 'a']);
        },
        Colormap::RdBu => {
            assert(ascii_lowercase(s) =~= seq!['r', 'd', 'b', 'u']);
        },
        Colormap::RdYlBu => {
            assert(ascii_lowercase(s) =~= seq!['r', 'd', 'y', 'l', 'b', 'u']);
        },
    }
}

/// Every colormap is listed exactly once: in the diverging list when it is
/// diverging, in the standard list otherwise.
pub proof fn lemma_colormap_lists_partition(c: Colormap)
    ensures
        seq![Colormap::Grayscale, Colormap::Inferno, Colormap::Magma].contains(c)
            == !colormap_is_diverging(c),
        seq![Colormap::RdBu, Colormap::RdYlBu].contains(c) == colormap_is_diverging(c),
{
    let st = seq![Colormap::Grayscale, Colormap::Inferno, Colormap::Magma];
    let dv = seq![Colormap::RdBu, Colormap::RdYlBu];
    match c {
        Colormap::Grayscale => {
            assert(st[0] == c);
        },
        Colormap::Inferno => {
            assert(st[1] == c);
        },
        Colormap::Magma => {
            assert(st[2] == c);
        },
        Colormap::RdBu => {
            assert(dv[0] == c);
        },
        Colormap::RdYlBu => {
            assert(dv[1] == c);
        },
    }
}

/// Colormap names are read without regard to ASCII case or to whitespace
/// around them.
pub proof fn lemma_from_name_ignores_case_and_whitespace(
    w1: Seq<char>,
    name: Seq<char>,
    w2: Seq<char>,
)
    requires
        all_whitespace(w1),
        all_whitespace(w2),
    ensures
        colormap_from_name(ascii_lowercase(name)) == colormap_from_name(name),
        colormap_from_name(w1 + name + w2) == colormap_from_name(name),
{
    lemma_trim_start_lowercase(name);
    lemma_trim_end_lowercase(trim_start(name));
    lemma_ascii_lowercase_idempotent(trim(name));
    lemma_trim_ignores_surrounding_whitespace(w1, name, w2);
}

} // verus!
