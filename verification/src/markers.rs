//! Point markers exchanged with the host as a flat `[x0, y0, x1, y1, ...]`
//! list.

use vstd::prelude::*;

verus! {

/// The flat list of a marker list: each point's x then y.
pub open spec fn flat_of<T>(markers: Seq<(T, T)>) -> Seq<T> {
    Seq::new(
        2 * markers.len(),
        |i: int|
            if i % 2 == 0 {
                markers[i / 2].0
            } else {
                markers[i / 2].1
            },
    )
}

/// The points of an even-length flat list, taken two values at a time.
pub open spec fn pairs_of<T>(flat: Seq<T>) -> Seq<(T, T)> {
    Seq::new(flat.len() / 2, |i: int| (flat[2 * i], flat[2 * i + 1]))
}

/// Flatten markers to `[x0, y0, x1, y1, ...]`.
pub fn flatten_markers<T: Copy>(markers: &[(T, T)]) -> (r: Vec<T>)
    requires
        2 * markers@.len() <= usize::MAX,
    ensures
        r@ == flat_of(markers@),
{
    let mut flat: Vec<T> = Vec::new();
    let mut i: usize = 0;
    while i < markers.len()
        invariant
            2 * markers@.len() <= usize::MAX,
            i <= markers@.len(),
            flat@ =~= flat_of(markers@.subrange(0, i as int)),
        decreases markers@.len() - i,
    {
        let (x, y) = markers[i];
        let ghost before = flat@;
        flat.push(x);
        flat.push(y);
        proof {
            let next = markers@.subrange(0, i as int + 1);
            assert forall|k: int| 0 <= k < 2 * next.len() implies flat@[k] == flat_of(next)[k] by {
                if k < 2 * i {
                    assert(flat@[k] == before[k]);
                    assert(k / 2 < i) by (nonlinear_arith)
                        requires
                            k < 2 * i,
                            0 <= k,
                    ;
                } else if k == 2 * i {
                    assert(k % 2 == 0 && k / 2 == i) by (nonlinear_arith)
                        requires
                            k == 2 * i,
                    ;
                } else {
                    assert(k == 2 * i + 1);
                    assert(k % 2 == 1 && k / 2 == i) by (nonlinear_arith)
                        requires
                            k == 2 * i + 1,
                    ;
                }
            }
        }
        i = i + 1;
    }
    assert(markers@.subrange(0, markers@.len() as int) =~= markers@);
    flat
}

/// Markers from a flat `[x0, y0, x1, y1, ...]` list; `None` when the list
/// has an odd length.
pub fn markers_from_flat<T: Copy>(flat: &[T]) -> (r: Option<Vec<(T, T)>>)
    ensures
        r is None <==> flat@.len() % 2 != 0,
        r matches Some(v) ==> v@ == pairs_of(flat@),
{
    if flat.len() % 2 != 0 {
        return None;
    }
    let len = flat.len();
    let n = len / 2;
    let mut out: Vec<(T, T)> = Vec::new();
    let mut i: usize = 0;
    while i < n
        invariant
            len == flat@.len(),
            n == flat@.len() / 2,
            flat@.len() % 2 == 0,
            i <= n,
            out@ =~= pairs_of(flat@).subrange(0, i as int),
        decreases n - i,
    {
        assert(2 * i + 1 < flat@.len()) by (nonlinear_arith)
            requires
                i < n,
                n == flat@.len() / 2,
                flat@.len() % 2 == 0,
        ;
        assert(2 * i + 1 < len);
        let x = flat[2 * i];
        let y = flat[2 * i + 1];
        out.push((x, y));
        i = i + 1;
    }
    assert(pairs_of(flat@).subrange(0, n as int) =~= pairs_of(flat@));
    Some(out)
}

/// Reading back markers that were set gives the same markers: the flat
/// list of a marker list parses back into that list.
pub proof fn lemma_markers_round_trip<T>(markers: Seq<(T, T)>)
    ensures
        flat_of(markers).len() % 2 == 0,
        pairs_of(flat_of(markers)) == markers,
{
    let f = flat_of(markers);
    assert((2 * markers.len()) % 2 == 0) by (nonlinear_arith);
    assert((2 * markers.len()) / 2 == markers.len()) by (nonlinear_arith);
    assert forall|i: int| 0 <= i < markers.len() implies #[trigger] pairs_of(f)[i] == markers[i] by {
        assert((2 * i) % 2 == 0 && (2 * i) / 2 == i) by (nonlinear_arith);
        assert((2 * i + 1) % 2 == 1 && (2 * i + 1) / 2 == i) by (nonlinear_arith);
        assert(2 * i + 1 < 2 * markers.len()) by (nonlinear_arith)
            requires
                i < markers.len(),
        ;
    }
    assert(pairs_of(f) =~= markers);
}

/// Flattening the markers of an even-length flat list gives that list back.
pub proof fn lemma_flat_round_trip<T>(flat: Seq<T>)
    requires
        flat.len() % 2 == 0,
    ensures
        flat_of(pairs_of(flat)) == flat,
{
    let p = pairs_of(flat);
    assert(2 * (flat.len() / 2) == flat.len()) by (nonlinear_arith)
        requires
            flat.len() % 2 == 0,
    ;
    assert forall|k: int| 0 <= k < flat.len() implies #[trigger] flat_of(p)[k] == flat[k] by {
        let j = k / 2;
        assert(0 <= j < flat.len() / 2 && (k % 2 == 0 ==> k == 2 * j) && (k % 2 != 0 ==> k == 2
            * j + 1)) by (nonlinear_arith)
            requires
                0 <= k < flat.len(),
                flat.len() % 2 == 0,
                j == k / 2,
        ;
    }
    assert(flat_of(p) =~= flat);
}

/// In the flat form, point `i` contributes its x at position `2i` and its y
/// at position `2i + 1`; parsing takes them back from those positions.
pub proof fn lemma_flat_layout<T>(markers: Seq<(T, T)>, flat: Seq<T>, i: int)
    requires
        0 <= i < markers.len(),
    ensures
        flat_of(markers).len() == 2 * markers.len(),
        flat_of(markers)[2 * i] == markers[i].0,
        flat_of(markers)[2 * i + 1] == markers[i].1,
        pairs_of(flat).len() == flat.len() / 2,
        0 <= i < flat.len() / 2 ==> pairs_of(flat)[i] == (flat[2 * i], flat[2 * i + 1]),
{
    assert((2 * i) % 2 == 0 && (2 * i) / 2 == i) by (nonlinear_arith);
    assert((2 * i + 1) % 2 == 1 && (2 * i + 1) / 2 == i) by (nonlinear_arith);
    assert(2 * i + 1 < 2 * markers.len()) by (nonlinear_arith)
        requires
            i < markers.len(),
    ;
}

} // verus!
