//! Pages of a listing.

use crate::kind::Card;
use crate::sorting::positions;
use crate::text::{decimal, u64_to_decimal};
use vstd::prelude::*;
use vstd::string::*;

verus! {

/// How many entries one page of a listing holds.
pub const ITEMS_PER_PAGE: usize = 30;

/// Where a page lies in a listing, with the fields of `paginate::Page`.
#[derive(Clone, Copy, Debug, PartialEq, Eq, Structural)]
pub struct PageSpan {
    /// The page's number, counted from zero.
    pub offset: usize,
    /// How many items the page holds.
    pub length: usize,
    /// The position of the page's first item, zero for an empty page.
    pub start: usize,
    /// The position of the page's last item, zero for an empty page.
    pub end: usize,
}

/// The position at which the page numbered `offset` begins, not beyond the
/// end of the listing.
pub open spec fn page_first(total: int, per_page: int, offset: int) -> int {
    if offset * per_page < total {
        offset * per_page
    } else {
        total
    }
}

/// How many items the page numbered `offset` holds.
pub open spec fn page_length(total: int, per_page: int, offset: int) -> int {
    let first = page_first(total, per_page, offset);
    if first + per_page < total {
        per_page
    } else {
        total - first
    }
}

/// The span of the page numbered `offset` among `total` items.
pub open spec fn span_of(total: int, per_page: int, offset: int) -> PageSpan {
    let first = page_first(total, per_page, offset);
    let length = page_length(total, per_page, offset);
    if length == 0 {
        PageSpan { offset: offset as usize, length: 0, start: 0, end: 0 }
    } else {
        PageSpan {
            offset: offset as usize,
            length: length as usize,
            start: first as usize,
            end: (first + length - 1) as usize,
        }
    }
}

/// How many pages `total` items fill.
pub open spec fn pages_for(total: int, per_page: int) -> int {
    (total + per_page - 1) / per_page
}

/// Calls `paginate::Pages::new(total, per_page).with_offset(offset)`.
/// Trusted: the page begins at `offset * per_page` or at the end of the items,
/// holds at most `per_page` of them, and an empty page has start and end zero.
/// The demands keep the crate's arithmetic within `usize`.
#[verifier::external_body]
fn page_span(total: usize, per_page: usize, offset: usize) -> (r: PageSpan)
    requires
        offset * per_page <= usize::MAX,
        total + per_page <= usize::MAX,
    ensures
        r == span_of(total as int, per_page as int, offset as int),
{
    let page = paginate::Pages::new(total, per_page).with_offset(offset);
    PageSpan { offset: page.offset, length: page.length, start: page.start, end: page.end }
}

/// Calls `paginate::Pages::new(total, per_page).page_count()`. Trusted: the
/// count is `total` divided by `per_page`, rounded up. The demands keep the
/// crate's arithmetic within `usize` and its divisor above zero.
#[verifier::external_body]
fn page_count(total: usize, per_page: usize) -> (r: usize)
    requires
        per_page > 0,
        total + per_page <= usize::MAX,
    ensures
        r as int == pages_for(total as int, per_page as int),
{
    paginate::Pages::new(total, per_page).page_count()
}

/// One page of a listing with the figures that describe it.
pub struct QueryResult {
    /// How many entries the whole listing holds.
    pub total_items: usize,
    pub items_per_page: usize,
    /// The page's number, counted from zero.
    pub current_page: usize,
    /// The position in the listing of the page's first entry.
    pub current_offset: usize,
    pub total_pages: usize,
    /// The page's entries, in listing order.
    pub entries: Vec<Card>,
}

/// The figures of a page as a JSON object.
pub open spec fn meta_of(r: QueryResult) -> Seq<char> {
    "{\"totalItems\": "@ + decimal(r.total_items as nat) + ", \"itemsPerPage\": "@ + decimal(
        r.items_per_page as nat,
    ) + ", \"currentPage\": "@ + decimal(r.current_page as nat) + ", \"currentOffset\": "@
        + decimal(r.current_offset as nat) + ", \"totalPages\": "@ + decimal(
        r.total_pages as nat,
    ) + "}"@
}

impl QueryResult {
    /// The figures of the page as a JSON object with the keys `totalItems`,
    /// `itemsPerPage`, `currentPage`, `currentOffset` and `totalPages`.
    pub fn meta_json(&self) -> (s: String)
        ensures
            s@ == meta_of(*self),
    {
        let mut s = String::from_str("{\"totalItems\": ");
        s.append(u64_to_decimal(self.total_items as u64).as_str());
        s.append(", \"itemsPerPage\": ");
        s.append(u64_to_decimal(self.items_per_page as u64).as_str());
        s.append(", \"currentPage\": ");
        s.append(u64_to_decimal(self.current_page as u64).as_str());
        s.append(", \"currentOffset\": ");
        s.append(u64_to_decimal(self.current_offset as u64).as_str());
        s.append(", \"totalPages\": ");
        s.append(u64_to_decimal(self.total_pages as u64).as_str());
        s.append("}");
        assert(s@ =~= meta_of(*self));
        s
    }
}

/// The cards at the given positions.
pub open spec fn cards_at(cards: Seq<Card>, at: Seq<int>) -> Seq<Card> {
    at.map_values(|i: int| cards[i])
}

/// Whether `r` is the page numbered `page` (counted from one) of `listing`.
pub open spec fn is_page_of(cards: Seq<Card>, listing: Seq<int>, page: int, r: QueryResult) -> bool {
    let total = listing.len() as int;
    let per_page = ITEMS_PER_PAGE as int;
    let first = page_first(total, per_page, page - 1);
    let length = page_length(total, per_page, page - 1);
    &&& r.total_items == total
    &&& r.items_per_page == per_page
    &&& r.total_pages == pages_for(total, per_page)
    &&& r.current_page == page - 1
    &&& r.current_offset == (if length == 0 {
        0
    } else {
        first
    })
    &&& r.entries@ == cards_at(cards, listing.subrange(first, first + length))
}

/// Cuts the page numbered `page`, counted from one, out of a listing.
pub fn page_of_listing(cards: &Vec<Card>, listing: &Vec<usize>, page: usize) -> (r: QueryResult)
    requires
        page >= 1,
        listing.len() + ITEMS_PER_PAGE <= usize::MAX,
        forall|p: int| 0 <= p < listing.len() ==> listing[p] < cards.len(),
    ensures
        is_page_of(cards@, positions(listing@), page as int, r),
{
    let total = listing.len();
    let offset = page - 1;
    let span = if offset <= usize::MAX / ITEMS_PER_PAGE {
        page_span(total, ITEMS_PER_PAGE, offset)
    } else {
        PageSpan { offset, length: 0, start: 0, end: 0 }
    };
    let total_pages = page_count(total, ITEMS_PER_PAGE);
    let ghost first = page_first(total as int, ITEMS_PER_PAGE as int, offset as int);
    let ghost length = page_length(total as int, ITEMS_PER_PAGE as int, offset as int);
    assert(span.length == length);
    assert(length > 0 ==> span.start == first);
    let ghost want = cards_at(cards@, positions(listing@).subrange(first, first + length));
    let mut entries: Vec<Card> = Vec::new();
    let mut n: usize = 0;
    while n < span.length
        invariant
            n <= span.length,
            span.length == length,
            length > 0 ==> span.start == first,
            0 <= first,
            first + length <= listing.len(),
            forall|p: int| 0 <= p < listing.len() ==> listing[p] < cards.len(),
            want == cards_at(cards@, positions(listing@).subrange(first, first + length)),
            entries@ == want.take(n as int),
        decreases span.length - n,
    {
        let at = listing[span.start + n];
        entries.push(cards[at].duplicate());
        assert(want[n as int] == cards@[at as int]);
        assert(entries@ =~= want.take(n + 1));
        n += 1;
    }
    assert(entries@ =~= want);
    QueryResult {
        total_items: total,
        items_per_page: ITEMS_PER_PAGE,
        current_page: offset,
        current_offset: span.start,
        total_pages,
        entries,
    }
}

} // verus!
