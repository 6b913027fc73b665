//! The total order in which a listing puts its entries.

use vstd::prelude::*;

verus! {

/// Whether `a` comes before `b` in dictionary order by code point, looking
/// only at the characters from position `i` on.
pub open spec fn text_before_from(a: Seq<char>, b: Seq<char>, i: int) -> bool
    decreases a.len() - i,
{
    if i >= b.len() {
        false
    } else if i >= a.len() {
        true
    } else if a[i] != b[i] {
        (a[i] as int) < (b[i] as int)
    } else {
        text_before_from(a, b, i + 1)
    }
}

/// Whether `a` comes strictly before `b` in dictionary order by code point.
pub open spec fn text_before(a: Seq<char>, b: Seq<char>) -> bool {
    text_before_from(a, b, 0)
}

/// What an entry is ordered by: a text, then five numbers, each ascending.
pub struct SortKey {
    pub text: Seq<char>,
    pub major: int,
    pub undated: int,
    pub year: int,
    pub month: int,
    pub day: int,
}

/// Whether the numbers of `a` come strictly before those of `b`, taken in turn.
pub open spec fn numbers_before(a: SortKey, b: SortKey) -> bool {
    a.major < b.major || (a.major == b.major && (a.undated < b.undated || (a.undated == b.undated
        && (a.year < b.year || (a.year == b.year && (a.month < b.month || (a.month == b.month
        && a.day < b.day)))))))
}

/// Whether key `a` sorts strictly before key `b`.
pub open spec fn key_before(a: SortKey, b: SortKey) -> bool {
    text_before(a.text, b.text) || (a.text == b.text && numbers_before(a, b))
}

/// Whether the entry at position `i` with key `a` is listed before the entry
/// at position `j` with key `b`: by key, and by position among equal keys.
pub open spec fn listed_before(a: SortKey, i: int, b: SortKey, j: int) -> bool {
    key_before(a, b) || (a == b && i < j)
}

proof fn lemma_text_irreflexive(a: Seq<char>, i: int)
    requires
        0 <= i,
    ensures
        !text_before_from(a, a, i),
    decreases a.len() - i,
{
    if i < a.len() {
        lemma_text_irreflexive(a, i + 1);
    }
}

proof fn lemma_text_transitive(a: Seq<char>, b: Seq<char>, c: Seq<char>, i: int)
    requires
        0 <= i,
        text_before_from(a, b, i),
        text_before_from(b, c, i),
    ensures
        text_before_from(a, c, i),
    decreases a.len() - i,
{
    if i < a.len() && i < b.len() && i < c.len() && a[i] == b[i] && b[i] == c[i] {
        lemma_text_transitive(a, b, c, i + 1);
    }
}

proof fn lemma_text_asymmetric(a: Seq<char>, b: Seq<char>, i: int)
    requires
        0 <= i,
        text_before_from(a, b, i),
    ensures
        !text_before_from(b, a, i),
    decreases a.len() - i,
{
    if i < a.len() && i < b.len() && a[i] == b[i] {
        lemma_text_asymmetric(a, b, i + 1);
    }
}

/// Two texts of which neither comes before the other from `i` on agree from
/// `i` on.
proof fn lemma_text_total(a: Seq<char>, b: Seq<char>, i: int)
    requires
        0 <= i <= a.len(),
        i <= b.len(),
        !text_before_from(a, b, i),
        !text_before_from(b, a, i),
    ensures
        a.len() == b.len(),
        forall|j: int| i <= j < a.len() ==> a[j] == b[j],
    decreases a.len() - i,
{
    if i < a.len() && i < b.len() {
        if a[i] == b[i] {
            lemma_text_total(a, b, i + 1);
        } else {
            assert((a[i] as int) != (b[i] as int));
        }
    }
}

/// Dictionary order is a strict total order on texts.
pub proof fn lemma_text_order(a: Seq<char>, b: Seq<char>, c: Seq<char>)
    ensures
        !text_before(a, a),
        text_before(a, b) ==> !text_before(b, a),
        text_before(a, b) && text_before(b, c) ==> text_before(a, c),
        text_before(a, b) || a == b || text_before(b, a),
{
    lemma_text_irreflexive(a, 0);
    if text_before(a, b) {
        lemma_text_asymmetric(a, b, 0);
        if text_before(b, c) {
            lemma_text_transitive(a, b, c, 0);
        }
    }
    if !text_before(a, b) && !text_before(b, a) {
        lemma_text_total(a, b, 0);
        assert(a =~= b);
    }
}

/// The listing order is a strict total order on the pairs of key and position:
/// no pair comes before itself, the order is transitive, and of two pairs at
/// different positions exactly one comes first.
pub proof fn lemma_listing_order(a: SortKey, i: int, b: SortKey, j: int, c: SortKey, k: int)
    ensures
        !listed_before(a, i, a, i),
        listed_before(a, i, b, j) ==> !listed_before(b, j, a, i),
        listed_before(a, i, b, j) && listed_before(b, j, c, k) ==> listed_before(a, i, c, k),
        i != j ==> listed_before(a, i, b, j) || listed_before(b, j, a, i),
{
    lemma_text_order(a.text, b.text, c.text);
    lemma_text_order(b.text, a.text, c.text);
    lemma_text_order(b.text, c.text, a.text);
    lemma_text_order(a.text, c.text, b.text);
}

/// A sequence of positions is in listing order under `keys` when each of its
/// members is listed before every later one.
pub open spec fn in_listing_order(keys: Seq<SortKey>, s: Seq<int>) -> bool {
    forall|p: int, q: int|
        0 <= p < q < s.len() ==> listed_before(
            keys[#[trigger] s[p]],
            s[p],
            keys[#[trigger] s[q]],
            s[q],
        )
}

/// Two sequences in listing order that hold the same positions are the same
/// sequence.
pub proof fn lemma_listing_unique(keys: Seq<SortKey>, a: Seq<int>, b: Seq<int>)
    requires
        in_listing_order(keys, a),
        in_listing_order(keys, b),
        forall|x: int| a.contains(x) <==> b.contains(x),
    ensures
        a == b,
    decreases a.len(),
{
    if a.len() == 0 {
        if b.len() > 0 {
            assert(b.contains(b[0]));
            assert(a.contains(b[0]));
        }
        assert(a =~= b);
    } else {
        assert(a.contains(a[0]));
        assert(b.contains(a[0]));
        let q = choose|q: int| 0 <= q < b.len() && b[q] == a[0];
        if q > 0 {
            assert(b.contains(b[0]));
            assert(a.contains(b[0]));
            let p = choose|p: int| 0 <= p < a.len() && a[p] == b[0];
            lemma_listing_order(keys[a[0]], a[0], keys[b[0]], b[0], keys[a[0]], a[0]);
            assert(listed_before(keys[b[0]], b[0], keys[b[q]], b[q]));
            if p > 0 {
                assert(listed_before(keys[a[0]], a[0], keys[a[p]], a[p]));
            }
            assert(false);
        }
        let ta = a.drop_first();
        let tb = b.drop_first();
        assert forall|x: int| ta.contains(x) <==> tb.contains(x) by {
            if ta.contains(x) {
                let i = choose|i: int| 0 <= i < ta.len() && ta[i] == x;
                assert(a[i + 1] == x);
                assert(listed_before(keys[a[0]], a[0], keys[a[i + 1]], a[i + 1]));
                lemma_listing_order(keys[a[0]], a[0], keys[x], x, keys[a[0]], a[0]);
                assert(x != a[0]);
                assert(a.contains(x));
                assert(b.contains(x));
                let j = choose|j: int| 0 <= j < b.len() && b[j] == x;
                assert(tb[j - 1] == x);
            }
            if tb.contains(x) {
                let i = choose|i: int| 0 <= i < tb.len() && tb[i] == x;
                assert(b[i + 1] == x);
                assert(listed_before(keys[b[0]], b[0], keys[b[i + 1]], b[i + 1]));
                lemma_listing_order(keys[b[0]], b[0], keys[x], x, keys[b[0]], b[0]);
                assert(x != b[0]);
                assert(b.contains(x));
                assert(a.contains(x));
                let j = choose|j: int| 0 <= j < a.len() && a[j] == x;
                assert(ta[j - 1] == x);
            }
        }
        assert forall|p: int, q: int| 0 <= p < q < ta.len() implies listed_before(
            keys[#[trigger] ta[p]],
            ta[p],
            keys[#[trigger] ta[q]],
            ta[q],
        ) by {
            assert(ta[p] == a[p + 1] && ta[q] == a[q + 1]);
        }
        assert forall|p: int, q: int| 0 <= p < q < tb.len() implies listed_before(
            keys[#[trigger] tb[p]],
            tb[p],
            keys[#[trigger] tb[q]],
            tb[q],
        ) by {
            assert(tb[p] == b[p + 1] && tb[q] == b[q + 1]);
        }
        lemma_listing_unique(keys, ta, tb);
        assert(a =~= seq![a[0]] + ta);
        assert(b =~= seq![b[0]] + tb);
    }
}

/// How two texts stand to each other in dictionary order.
#[derive(Clone, Copy, Debug, PartialEq, Eq, Structural)]
pub enum TextOrder {
    Before,
    Same,
    After,
}

/// Compares two texts in dictionary order by code point.
pub fn text_order(a: &Vec<char>, b: &Vec<char>) -> (r: TextOrder)
    ensures
        r == TextOrder::Before <==> text_before(a@, b@),
        r == TextOrder::Same <==> a@ == b@,
        r == TextOrder::After <==> text_before(b@, a@),
{
    proof {
        lemma_text_order(a@, b@, a@);
    }
    let mut i: usize = 0;
    while i < a.len() && i < b.len()
        invariant
            i <= a.len(),
            i <= b.len(),
            forall|j: int| 0 <= j < i ==> a@[j] == b@[j],
            text_before(a@, b@) == text_before_from(a@, b@, i as int),
            text_before(b@, a@) == text_before_from(b@, a@, i as int),
        decreases a.len() - i,
    {
        let x = a[i];
        let y = b[i];
        if x != y {
            if x < y {
                return TextOrder::Before;
            } else {
                return TextOrder::After;
            }
        }
        i += 1;
    }
    if a.len() == b.len() {
        assert(a@ =~= b@);
        TextOrder::Same
    } else if a.len() < b.len() {
        TextOrder::Before
    } else {
        TextOrder::After
    }
}

/// A sort key as the program holds it.
pub struct EntryKey {
    pub text: Vec<char>,
    pub major: i128,
    pub undated: i64,
    pub year: i64,
    pub month: i64,
    pub day: i64,
}

impl View for EntryKey {
    type V = SortKey;

    open spec fn view(&self) -> SortKey {
        SortKey {
            text: self.text@,
            major: self.major as int,
            undated: self.undated as int,
            year: self.year as int,
            month: self.month as int,
            day: self.day as int,
        }
    }
}

/// Whether the entry at position `i` with key `a` is listed before the entry
/// at position `j` with key `b`.
pub fn is_listed_before(a: &EntryKey, i: usize, b: &EntryKey, j: usize) -> (r: bool)
    ensures
        r == listed_before(a@, i as int, b@, j as int),
{
    match text_order(&a.text, &b.text) {
        TextOrder::Before => true,
        TextOrder::After => {
            proof {
                lemma_text_order(a@.text, b@.text, a@.text);
            }
            false
        },
        TextOrder::Same => {
            proof {
                lemma_text_order(a@.text, b@.text, a@.text);
            }
            if a.major != b.major {
                a.major < b.major
            } else if a.undated != b.undated {
                a.undated < b.undated
            } else if a.year != b.year {
                a.year < b.year
            } else if a.month != b.month {
                a.month < b.month
            } else if a.day != b.day {
                a.day < b.day
            } else {
                i < j
            }
        },
    }
}

} // verus!
