//! The listing of a dataset: which entries stay, and in what order.

use crate::date::{date_before, Date};
use crate::kind::{Card, ContentType};
use crate::ordering::{
    in_listing_order,
    lemma_listing_order,
    lemma_text_order,
    lemma_listing_unique,
    listed_before,
    EntryKey,
    SortKey,
};
use crate::rating::{rank_of, Rating};
use crate::sorting::{key_views, positions, sort_positions};
use crate::text::chars_of;
use vstd::prelude::*;

verus! {

/// The order that a listing is put in.
#[derive(Clone, Copy, Debug, PartialEq, Eq, Structural)]
pub enum Order {
    /// Best search match first.
    Relevance,
    /// Title ascending, then most recently finished first.
    Alphabetical,
    /// Best rating first, then most recently finished first.
    Rating,
    /// Most recently finished first.
    Date,
}

/// One filter of a query: absent, a value to match, or a value that nothing
/// matches.
pub enum Criterion<T> {
    Any,
    Only(T),
    Nothing,
}

/// The filters of a query, all of which an entry must pass.
pub struct Filters {
    pub kind: Criterion<ContentType>,
    pub rating: Criterion<Rating>,
    /// Keeps entries finished strictly before the date.
    pub before: Criterion<Date>,
    /// Keeps entries finished strictly after the date.
    pub after: Criterion<Date>,
}

/// Whether a card passes every filter. An entry without a finishing date
/// passes no date filter.
pub open spec fn passes(card: Card, f: Filters) -> bool {
    &&& match f.kind {
        Criterion::Any => true,
        Criterion::Only(k) => card.kind == k,
        Criterion::Nothing => false,
    }
    &&& match f.rating {
        Criterion::Any => true,
        Criterion::Only(r) => card.rating == r,
        Criterion::Nothing => false,
    }
    &&& match f.before {
        Criterion::Any => true,
        Criterion::Only(b) => card.finished_date matches Some(d) && date_before(d, b),
        Criterion::Nothing => false,
    }
    &&& match f.after {
        Criterion::Any => true,
        Criterion::Only(a) => card.finished_date matches Some(d) && date_before(a, d),
        Criterion::Nothing => false,
    }
}

/// The search score of the entry at `i`: zero where no search is made.
pub open spec fn score_at(scores: Option<Seq<isize>>, i: int) -> int {
    match scores {
        Some(s) => s[i] as int,
        None => 0,
    }
}

/// Whether the entry at `i` stays in the listing: it passes the filters and,
/// where a search is made, its score is above zero.
pub open spec fn keeps(cards: Seq<Card>, f: Filters, scores: Option<Seq<isize>>, i: int) -> bool {
    passes(cards[i], f) && (scores is Some ==> score_at(scores, i) > 0)
}

/// The key that orders a card: all keys ascend, so a date is held negated to
/// put the most recent first, with an undated entry after every dated one.
pub open spec fn sort_key(order: Order, card: Card, score: int) -> SortKey {
    let (undated, year, month, day) = match card.finished_date {
        Some(d) => (0int, -(d.year as int), -(d.month as int), -(d.day as int)),
        None => (1int, 0int, 0int, 0int),
    };
    match order {
        Order::Relevance => SortKey {
            text: Seq::<char>::empty(),
            major: -score,
            undated: 0,
            year: 0,
            month: 0,
            day: 0,
        },
        Order::Alphabetical => SortKey { text: card.title@, major: 0, undated, year, month, day },
        Order::Rating => SortKey {
            text: Seq::<char>::empty(),
            major: rank_of(card.rating),
            undated,
            year,
            month,
            day,
        },
        Order::Date => SortKey { text: Seq::<char>::empty(), major: 0, undated, year, month, day },
    }
}

/// The keys of all cards under an order.
pub open spec fn keys_of(cards: Seq<Card>, scores: Option<Seq<isize>>, order: Order) -> Seq<
    SortKey,
> {
    Seq::new(cards.len(), |i: int| sort_key(order, cards[i], score_at(scores, i)))
}

/// Whether `listing` is the listing of `cards`: it holds the positions of
/// exactly the entries that stay, in ascending order of their keys, entries
/// with equal keys in the order of the dataset.
pub open spec fn is_listing(
    cards: Seq<Card>,
    f: Filters,
    scores: Option<Seq<isize>>,
    order: Order,
    listing: Seq<int>,
) -> bool {
    &&& in_listing_order(keys_of(cards, scores, order), listing)
    &&& forall|p: int|
        0 <= p < listing.len() ==> 0 <= #[trigger] listing[p] < cards.len() && keeps(
            cards,
            f,
            scores,
            listing[p],
        )
    &&& forall|i: int| 0 <= i < cards.len() && keeps(cards, f, scores, i) ==> listing.contains(i)
}

/// The listing of `cards` under the given filters, scores and order.
pub open spec fn listing_of(
    cards: Seq<Card>,
    f: Filters,
    scores: Option<Seq<isize>>,
    order: Order,
) -> Seq<int> {
    choose|listing: Seq<int>| is_listing(cards, f, scores, order, listing)
}

/// A dataset has one listing only: whatever meets `is_listing` is
/// `listing_of`.
pub proof fn lemma_listing_determined(
    cards: Seq<Card>,
    f: Filters,
    scores: Option<Seq<isize>>,
    order: Order,
    listing: Seq<int>,
)
    requires
        is_listing(cards, f, scores, order, listing),
    ensures
        listing == listing_of(cards, f, scores, order),
{
    let other = listing_of(cards, f, scores, order);
    assert(is_listing(cards, f, scores, order, other));
    assert forall|x: int| listing.contains(x) <==> other.contains(x) by {
        if listing.contains(x) {
            let p = choose|p: int| 0 <= p < listing.len() && listing[p] == x;
            assert(keeps(cards, f, scores, listing[p]));
        }
        if other.contains(x) {
            let p = choose|p: int| 0 <= p < other.len() && other[p] == x;
            assert(keeps(cards, f, scores, other[p]));
        }
    }
    lemma_listing_unique(keys_of(cards, scores, order), listing, other);
}

/// A listing holds no position twice, so it is no longer than the dataset.
pub proof fn lemma_listing_length(
    cards: Seq<Card>,
    f: Filters,
    scores: Option<Seq<isize>>,
    order: Order,
    listing: Seq<int>,
)
    requires
        is_listing(cards, f, scores, order, listing),
    ensures
        listing.no_duplicates(),
        listing.len() <= cards.len(),
{
    let keys = keys_of(cards, scores, order);
    assert forall|p: int, q: int| 0 <= p < listing.len() && 0 <= q < listing.len() && p
        != q implies listing[p] != listing[q] by {
        let a = listing[p];
        let b = listing[q];
        lemma_listing_order(keys[a], a, keys[b], b, keys[a], a);
        if p < q {
            assert(listed_before(keys[a], a, keys[b], b));
        } else {
            assert(listed_before(keys[b], b, keys[a], a));
        }
    }
    let universe = Set::new(|i: int| 0 <= i < cards.len());
    assert(universe =~= vstd::set_lib::set_int_range(0, cards.len() as int));
    vstd::set_lib::lemma_int_range(0, cards.len() as int);
    listing.unique_seq_to_set();
    assert(listing.to_set().subset_of(universe)) by {
        assert forall|x: int| listing.to_set().contains(x) implies universe.contains(x) by {
            let p = choose|p: int| 0 <= p < listing.len() && listing[p] == x;
            assert(0 <= listing[p] < cards.len());
        }
    }
    vstd::set_lib::lemma_len_subset(listing.to_set(), universe);
}

/// Whether one of the filters is a value that nothing matches.
pub open spec fn nothing_passes(f: Filters) -> bool {
    f.kind is Nothing || f.rating is Nothing || f.before is Nothing || f.after is Nothing
}

/// Under a filter that nothing matches the listing is empty.
pub proof fn lemma_unmatched_filter_lists_nothing(
    cards: Seq<Card>,
    f: Filters,
    scores: Option<Seq<isize>>,
    order: Order,
    listing: Seq<int>,
)
    requires
        is_listing(cards, f, scores, order, listing),
        nothing_passes(f),
    ensures
        listing.len() == 0,
{
    if listing.len() > 0 {
        assert(keeps(cards, f, scores, listing[0]));
    }
}

/// Under a search the listing holds the matches only, best first: every
/// listed entry scores above zero, no listed entry scores above one listed
/// before it, and an entry that scores zero or less is not listed.
pub proof fn lemma_search_lists_matches_best_first(
    cards: Seq<Card>,
    f: Filters,
    scores: Seq<isize>,
    listing: Seq<int>,
)
    requires
        is_listing(cards, f, Some(scores), Order::Relevance, listing),
    ensures
        forall|p: int| 0 <= p < listing.len() ==> scores[#[trigger] listing[p]] > 0,
        forall|p: int, q: int|
            0 <= p < q < listing.len() ==> scores[#[trigger] listing[p]] >= scores[
                #[trigger] listing[q]
            ],
        forall|i: int| 0 <= i < cards.len() && scores[i] <= 0 ==> !listing.contains(i),
{
    let keys = keys_of(cards, Some(scores), Order::Relevance);
    assert forall|p: int| 0 <= p < listing.len() implies scores[#[trigger] listing[p]] > 0 by {
        assert(keeps(cards, f, Some(scores), listing[p]));
    }
    assert forall|p: int, q: int| 0 <= p < q < listing.len() implies scores[
        #[trigger] listing[p]
    ] >= scores[#[trigger] listing[q]] by {
        let a = listing[p];
        let b = listing[q];
        assert(listed_before(keys[a], a, keys[b], b));
        lemma_listing_order(keys[a], a, keys[b], b, keys[a], a);
        lemma_text_order(keys[a].text, keys[b].text, keys[a].text);
    }
    assert forall|i: int| 0 <= i < cards.len() && scores[i] <= 0 implies !listing.contains(i) by {
        if listing.contains(i) {
            let p = choose|p: int| 0 <= p < listing.len() && listing[p] == i;
            assert(keeps(cards, f, Some(scores), listing[p]));
        }
    }
}

/// The scores of a search as the specifications see them.
pub open spec fn scores_view(scores: Option<Vec<isize>>) -> Option<Seq<isize>> {
    match scores {
        Some(v) => Some(v@),
        None => None,
    }
}

/// Whether a card passes every filter.
pub fn card_passes(card: &Card, f: &Filters) -> (r: bool)
    ensures
        r == passes(*card, *f),
{
    let kind_ok = match &f.kind {
        Criterion::Any => true,
        Criterion::Only(k) => card.kind == *k,
        Criterion::Nothing => false,
    };
    let rating_ok = match &f.rating {
        Criterion::Any => true,
        Criterion::Only(r) => card.rating == *r,
        Criterion::Nothing => false,
    };
    let before_ok = match &f.before {
        Criterion::Any => true,
        Criterion::Only(b) => match &card.finished_date {
            Some(d) => d.is_before(b),
            None => false,
        },
        Criterion::Nothing => false,
    };
    let after_ok = match &f.after {
        Criterion::Any => true,
        Criterion::Only(a) => match &card.finished_date {
            Some(d) => a.is_before(d),
            None => false,
        },
        Criterion::Nothing => false,
    };
    kind_ok && rating_ok && before_ok && after_ok
}

/// The key that orders a card.
pub fn entry_key(order: Order, card: &Card, score: isize) -> (k: EntryKey)
    ensures
        k@ == sort_key(order, *card, score as int),
{
    let (undated, year, month, day): (i64, i64, i64, i64) = match card.finished_date {
        Some(d) => (0, -(d.year as i64), -(d.month as i64), -(d.day as i64)),
        None => (1, 0, 0, 0),
    };
    match order {
        Order::Relevance => EntryKey {
            text: Vec::new(),
            major: -(score as i128),
            undated: 0,
            year: 0,
            month: 0,
            day: 0,
        },
        Order::Alphabetical => EntryKey {
            text: chars_of(card.title.as_str()),
            major: 0,
            undated,
            year,
            month,
            day,
        },
        Order::Rating => EntryKey {
            text: Vec::new(),
            major: card.rating.rank() as i128,
            undated,
            year,
            month,
            day,
        },
        Order::Date => EntryKey { text: Vec::new(), major: 0, undated, year, month, day },
    }
}

/// Lists the dataset: the positions of the entries that pass the filters and,
/// where `scores` are given, score above zero; ordered as `order` says.
pub fn list_matching(
    cards: &Vec<Card>,
    f: &Filters,
    scores: &Option<Vec<isize>>,
    order: Order,
) -> (listing: Vec<usize>)
    requires
        scores matches Some(s) ==> s.len() == cards.len(),
    ensures
        is_listing(cards@, *f, scores_view(*scores), order, positions(listing@)),
        positions(listing@) == listing_of(cards@, *f, scores_view(*scores), order),
{
    let ghost sv = scores_view(*scores);
    let ghost all_keys = keys_of(cards@, sv, order);
    let mut keys: Vec<EntryKey> = Vec::new();
    let mut kept: Vec<usize> = Vec::new();
    let mut i: usize = 0;
    while i < cards.len()
        invariant
            i <= cards.len(),
            sv == scores_view(*scores),
            scores matches Some(s) ==> s.len() == cards.len(),
            all_keys == keys_of(cards@, sv, order),
            keys.len() == i,
            forall|j: int| 0 <= j < i ==> (#[trigger] keys[j])@ == all_keys[j],
            forall|a: int, b: int| 0 <= a < b < kept.len() ==> kept[a] < kept[b],
            forall|r: int|
                0 <= r < kept.len() ==> (#[trigger] kept[r]) < i && keeps(
                    cards@,
                    *f,
                    sv,
                    kept[r] as int,
                ),
            forall|j: int| 0 <= j < i && keeps(cards@, *f, sv, j) ==> kept@.contains(j as usize),
        decreases cards.len() - i,
    {
        let score: isize = match scores {
            Some(s) => s[i],
            None => 0,
        };
        assert(score as int == score_at(sv, i as int));
        keys.push(entry_key(order, &cards[i], score));
        let stays = card_passes(&cards[i], f) && (scores.is_none() || score > 0);
        assert(stays == keeps(cards@, *f, sv, i as int));
        let ghost before = kept@;
        if stays {
            kept.push(i);
            assert(kept@[kept.len() - 1] == i);
        }
        assert forall|j: int| 0 <= j < i + 1 && keeps(cards@, *f, sv, j) implies kept@.contains(
            j as usize,
        ) by {
            if j < i {
                let r = choose|r: int| 0 <= r < before.len() && before[r] == j as usize;
                assert(kept@[r] == j as usize);
            }
        }
        i += 1;
    }
    let listing = sort_positions(&keys, &kept);
    proof {
        let l = positions(listing@);
        assert(key_views(keys@) =~= all_keys);
        assert forall|p: int| 0 <= p < l.len() implies 0 <= #[trigger] l[p] < cards.len() && keeps(
            cards@,
            *f,
            sv,
            l[p],
        ) by {
            assert(l.contains(l[p]));
            assert(positions(kept@).contains(l[p]));
            let r = choose|r: int| 0 <= r < kept.len() && positions(kept@)[r] == l[p];
            assert(kept[r] as int == l[p]);
        }
        assert forall|j: int| 0 <= j < cards.len() && keeps(cards@, *f, sv, j) implies l.contains(
            j,
        ) by {
            assert(kept@.contains(j as usize));
            let r = choose|r: int| 0 <= r < kept.len() && kept@[r] == j as usize;
            assert(positions(kept@)[r] == j);
            assert(positions(kept@).contains(j));
        }
        lemma_listing_determined(cards@, *f, sv, order, l);
    }
    listing
}

} // verus!
