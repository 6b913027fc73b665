//! Putting the positions of a listing's entries in listing order.

use crate::ordering::{
    in_listing_order,
    is_listed_before,
    lemma_listing_order,
    listed_before,
    EntryKey,
    SortKey,
};
use vstd::prelude::*;

verus! {

/// The keys of a vector of entry keys.
pub open spec fn key_views(keys: Seq<EntryKey>) -> Seq<SortKey> {
    keys.map_values(|k: EntryKey| k@)
}

/// Positions as mathematical integers.
pub open spec fn positions(v: Seq<usize>) -> Seq<int> {
    v.map_values(|x: usize| x as int)
}

/// Whether the position `x` is listed before the position `y` under `kv`.
spec fn earlier(kv: Seq<SortKey>, x: usize, y: usize) -> bool {
    listed_before(kv[x as int], x as int, kv[y as int], y as int)
}

/// Whether each member of `v` is listed before every later one.
spec fn ordered(kv: Seq<SortKey>, v: Seq<usize>) -> bool {
    forall|p: int, q: int| 0 <= p < q < v.len() ==> earlier(kv, #[trigger] v[p], #[trigger] v[q])
}

proof fn lemma_insert_ordered(kv: Seq<SortKey>, s: Seq<usize>, pos: int, x: usize)
    requires
        ordered(kv, s),
        0 <= pos <= s.len(),
        forall|p: int| pos <= p < s.len() ==> earlier(kv, x, #[trigger] s[p]),
        pos > 0 ==> earlier(kv, s[pos - 1], x),
    ensures
        ordered(kv, s.insert(pos, x)),
{
    let t = s.insert(pos, x);
    assert forall|p: int, q: int| 0 <= p < q < t.len() implies earlier(
        kv,
        #[trigger] t[p],
        #[trigger] t[q],
    ) by {
        if q < pos {
            assert(t[p] == s[p] && t[q] == s[q]);
        } else if q == pos {
            assert(t[p] == s[p] && t[q] == x);
            if p < pos - 1 {
                let m = s[pos - 1];
                assert(earlier(kv, s[p], s[pos - 1]));
                lemma_listing_order(
                    kv[t[p] as int],
                    t[p] as int,
                    kv[m as int],
                    m as int,
                    kv[x as int],
                    x as int,
                );
            }
        } else if p < pos {
            assert(t[p] == s[p] && t[q] == s[q - 1]);
        } else if p == pos {
            assert(t[p] == x && t[q] == s[q - 1]);
        } else {
            assert(t[p] == s[p - 1] && t[q] == s[q - 1]);
        }
    }
}

proof fn lemma_insert_contains(s: Seq<usize>, pos: int, x: usize)
    requires
        0 <= pos <= s.len(),
    ensures
        forall|y: usize| s.insert(pos, x).contains(y) <==> (s.contains(y) || y == x),
{
    let t = s.insert(pos, x);
    assert forall|y: usize| t.contains(y) <==> (s.contains(y) || y == x) by {
        if t.contains(y) {
            let j = choose|j: int| 0 <= j < t.len() && t[j] == y;
            if j < pos {
                assert(s[j] == y);
            } else if j > pos {
                assert(s[j - 1] == y);
            }
        }
        if s.contains(y) {
            let j = choose|j: int| 0 <= j < s.len() && s[j] == y;
            if j < pos {
                assert(t[j] == y);
            } else {
                assert(t[j + 1] == y);
            }
        }
        if y == x {
            assert(t[pos] == y);
        }
    }
}

proof fn lemma_take_contains(s: Seq<usize>, k: int)
    requires
        0 <= k < s.len(),
    ensures
        forall|y: usize| s.take(k + 1).contains(y) <==> (s.take(k).contains(y) || y == s[k]),
{
    let a = s.take(k);
    let b = s.take(k + 1);
    assert forall|y: usize| b.contains(y) <==> (a.contains(y) || y == s[k]) by {
        if b.contains(y) {
            let j = choose|j: int| 0 <= j < b.len() && b[j] == y;
            if j < k {
                assert(a[j] == y);
            }
        }
        if a.contains(y) {
            let j = choose|j: int| 0 <= j < a.len() && a[j] == y;
            assert(b[j] == y);
        }
        if y == s[k] {
            assert(b[k] == y);
        }
    }
}

proof fn lemma_positions(kv: Seq<SortKey>, out: Seq<usize>, kept: Seq<usize>)
    requires
        ordered(kv, out),
        forall|y: usize| out.contains(y) <==> kept.contains(y),
    ensures
        in_listing_order(kv, positions(out)),
        forall|x: int| positions(out).contains(x) <==> positions(kept).contains(x),
{
    let a = positions(out);
    let b = positions(kept);
    assert forall|p: int, q: int| 0 <= p < q < a.len() implies listed_before(
        kv[#[trigger] a[p]],
        a[p],
        kv[#[trigger] a[q]],
        a[q],
    ) by {
        assert(earlier(kv, out[p], out[q]));
    }
    assert forall|x: int| a.contains(x) <==> b.contains(x) by {
        if a.contains(x) {
            let p = choose|p: int| 0 <= p < a.len() && a[p] == x;
            assert(out.contains(out[p]));
            let r = choose|r: int| 0 <= r < kept.len() && kept[r] == out[p];
            assert(b[r] == x);
        }
        if b.contains(x) {
            let r = choose|r: int| 0 <= r < b.len() && b[r] == x;
            assert(kept.contains(kept[r]));
            let p = choose|p: int| 0 <= p < out.len() && out[p] == kept[r];
            assert(a[p] == x);
        }
    }
}

/// Puts `kept`, a choice of positions into `keys` that holds none twice, in
/// listing order: ascending by key, and by position among equal keys.
pub fn sort_positions(keys: &Vec<EntryKey>, kept: &Vec<usize>) -> (out: Vec<usize>)
    requires
        forall|r: int| 0 <= r < kept.len() ==> kept[r] < keys.len(),
        kept@.no_duplicates(),
    ensures
        out.len() == kept.len(),
        in_listing_order(key_views(keys@), positions(out@)),
        forall|x: int| positions(out@).contains(x) <==> positions(kept@).contains(x),
{
    let ghost kv = key_views(keys@);
    let mut out: Vec<usize> = Vec::new();
    let mut k: usize = 0;
    while k < kept.len()
        invariant
            k <= kept.len(),
            out.len() == k,
            kv == key_views(keys@),
            forall|r: int| 0 <= r < kept.len() ==> kept[r] < keys.len(),
            kept@.no_duplicates(),
            forall|p: int| 0 <= p < out.len() ==> #[trigger] out[p] < keys.len(),
            ordered(kv, out@),
            forall|y: usize| out@.contains(y) <==> kept@.take(k as int).contains(y),
        decreases kept.len() - k,
    {
        let x = kept[k];
        let ghost before = out@;
        assert forall|p: int| 0 <= p < before.len() implies #[trigger] before[p] != x by {
            assert(before.contains(before[p]));
            let r = choose|r: int|
                0 <= r < kept@.take(k as int).len() && kept@.take(k as int)[r] == before[p];
            assert(kept@[r] != kept@[k as int]);
        }
        let mut pos: usize = out.len();
        let mut searching = true;
        while searching && pos > 0
            invariant
                pos <= out.len(),
                out@ == before,
                x < keys.len(),
                kv == key_views(keys@),
                forall|p: int| 0 <= p < before.len() ==> #[trigger] before[p] != x,
                forall|p: int| 0 <= p < before.len() ==> #[trigger] before[p] < keys.len(),
                forall|p: int| pos <= p < before.len() ==> earlier(kv, x, #[trigger] before[p]),
                !searching ==> pos > 0 && earlier(kv, before[pos - 1], x),
            decreases pos + (if searching { 1int } else { 0int }),
        {
            let y = out[pos - 1];
            assert(y != x);
            if is_listed_before(&keys[x], x, &keys[y], y) {
                pos -= 1;
            } else {
                proof {
                    lemma_listing_order(
                        kv[x as int],
                        x as int,
                        kv[y as int],
                        y as int,
                        kv[x as int],
                        x as int,
                    );
                }
                searching = false;
            }
        }
        out.insert(pos, x);
        proof {
            lemma_insert_ordered(kv, before, pos as int, x);
            lemma_insert_contains(before, pos as int, x);
            lemma_take_contains(kept@, k as int);
            let grown = before.insert(pos as int, x);
            assert(out@ == grown);
            assert forall|p: int| 0 <= p < grown.len() implies #[trigger] grown[p] < keys.len() by {
                if p < pos {
                    assert(grown[p] == before[p]);
                } else if p > pos {
                    assert(grown[p] == before[p - 1]);
                }
            }
            assert forall|y: usize| out@.contains(y) <==> kept@.take(k + 1).contains(y) by {
                assert(grown.contains(y) <==> (before.contains(y) || y == x));
                assert(before.contains(y) <==> kept@.take(k as int).contains(y));
                assert(kept@.take(k + 1).contains(y) <==> (kept@.take(k as int).contains(y) || y
                    == kept@[k as int]));
            }
        }
        k += 1;
    }
    proof {
        assert(kept@.take(k as int) =~= kept@);
        lemma_positions(kv, out@, kept@);
    }
    out
}

} // verus!
