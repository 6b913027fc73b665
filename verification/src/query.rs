//! The catalogue query engine: reads a query's parameters, then filters,
//! scores, orders and paginates the dataset.

use crate::date::{date_format, parsed_date, Date};
use crate::fields::{find_first, first_value, pairs_of, text_of, Field};
use crate::kind::{kind_name, kind_of_name, Card, ContentType};
use crate::listing::{
    is_listing,
    lemma_listing_length,
    lemma_unmatched_filter_lists_nothing,
    list_matching,
    listing_of,
    scores_view,
    Criterion,
    nothing_passes,
    Filters,
    Order,
};
use crate::pagination::{is_page_of, page_of_listing, QueryResult, ITEMS_PER_PAGE};
use crate::rating::{rating_of_name, Rating};
use crate::search::{fits_matcher, score_cards, search_scores};
use crate::sorting::positions;
use crate::text::{number_of, parse_usize, str_eq};
use vstd::prelude::*;
use vstd::string::*;

verus! {

/// The sort orders that a query can ask for.
#[derive(Clone, Copy, Debug, PartialEq, Eq, Structural)]
pub enum Sort {
    Alphabetical,
    Date,
    Rating,
}

/// The sort order that a name stands for.
pub open spec fn sort_of_name(s: Seq<char>) -> Option<Sort> {
    if s == "alphabetical"@ {
        Some(Sort::Alphabetical)
    } else if s == "date"@ {
        Some(Sort::Date)
    } else if s == "rating"@ {
        Some(Sort::Rating)
    } else {
        None
    }
}

impl Sort {
    /// The sort order named `alphabetical`, `date` or `rating`.
    pub fn from_name(s: &str) -> (r: Option<Sort>)
        ensures
            r == sort_of_name(s@),
    {
        if str_eq(s, "alphabetical") {
            Some(Sort::Alphabetical)
        } else if str_eq(s, "date") {
            Some(Sort::Date)
        } else if str_eq(s, "rating") {
            Some(Sort::Rating)
        } else {
            None
        }
    }
}

/// The order of a listing: a search orders by relevance whatever sort was
/// asked for; without a search the sort asked for holds, by date if none was.
pub open spec fn order_of(searching: bool, sort: Option<Sort>) -> Order {
    if searching {
        Order::Relevance
    } else {
        match sort {
            Some(Sort::Alphabetical) => Order::Alphabetical,
            Some(Sort::Rating) => Order::Rating,
            _ => Order::Date,
        }
    }
}

/// Decides the order of a listing.
pub fn effective_order(searching: bool, sort: Option<Sort>) -> (r: Order)
    ensures
        r == order_of(searching, sort),
{
    if searching {
        Order::Relevance
    } else {
        match sort {
            Some(Sort::Alphabetical) => Order::Alphabetical,
            Some(Sort::Rating) => Order::Rating,
            _ => Order::Date,
        }
    }
}

/// The parameters of a catalogue query, as the request gave them.
pub struct QueryParams {
    pub search: Option<String>,
    pub sort: Option<Sort>,
    /// The `type` parameter.
    pub kind: Option<String>,
    pub rating: Option<String>,
    pub before: Option<String>,
    pub after: Option<String>,
    /// The page asked for, counted from one.
    pub page: Option<usize>,
}

/// The sort that a `sort` parameter asks for.
pub open spec fn sort_param(value: Option<Seq<char>>) -> Option<Sort> {
    match value {
        Some(s) => sort_of_name(s),
        None => None,
    }
}

/// The page that a `page` parameter asks for, where it is a number that fits.
pub open spec fn page_param(value: Option<Seq<char>>) -> Option<usize> {
    match value {
        Some(s) => match number_of(s) {
            Some(n) => if n <= usize::MAX {
                Some(n as usize)
            } else {
                None
            },
            None => None,
        },
        None => None,
    }
}

impl QueryParams {
    /// Reads the parameters off the pairs of a query string. Of several pairs
    /// with one name the first counts; a sort or a page that cannot be read
    /// counts as absent.
    pub fn from(fields: &Vec<Field>) -> (r: QueryParams)
        ensures
            text_of(r.search) == first_value(pairs_of(fields@), "search"@),
            r.sort == sort_param(first_value(pairs_of(fields@), "sort"@)),
            text_of(r.kind) == first_value(pairs_of(fields@), "type"@),
            text_of(r.rating) == first_value(pairs_of(fields@), "rating"@),
            text_of(r.before) == first_value(pairs_of(fields@), "before"@),
            text_of(r.after) == first_value(pairs_of(fields@), "after"@),
            r.page == page_param(first_value(pairs_of(fields@), "page"@)),
    {
        let sort = match find_first(fields, "sort") {
            Some(s) => Sort::from_name(s.as_str()),
            None => None,
        };
        let page = match find_first(fields, "page") {
            Some(s) => parse_usize(s.as_str()),
            None => None,
        };
        QueryParams {
            search: find_first(fields, "search"),
            sort,
            kind: find_first(fields, "type"),
            rating: find_first(fields, "rating"),
            before: find_first(fields, "before"),
            after: find_first(fields, "after"),
            page,
        }
    }
}

impl QueryParams {
    /// The same query within the listing of one kind: a query that names no
    /// kind is given that kind, one that names a kind keeps it.
    pub fn scoped_to(self, kind: ContentType) -> (r: QueryParams)
        ensures
            text_of(r.kind) == (match text_of(self.kind) {
                Some(k) => Some(k),
                None => Some(kind_name(kind)),
            }),
            r.search == self.search,
            r.sort == self.sort,
            r.rating == self.rating,
            r.before == self.before,
            r.after == self.after,
            r.page == self.page,
    {
        let kind_text = match self.kind {
            Some(k) => Some(k),
            None => Some(String::from_str(kind.name())),
        };
        QueryParams {
            search: self.search,
            sort: self.sort,
            kind: kind_text,
            rating: self.rating,
            before: self.before,
            after: self.after,
            page: self.page,
        }
    }
}

/// What a `type` filter keeps: a name that is no kind keeps nothing.
pub open spec fn kind_criterion(value: Option<Seq<char>>) -> Criterion<ContentType> {
    match value {
        None => Criterion::Any,
        Some(s) => match kind_of_name(s) {
            Some(k) => Criterion::Only(k),
            None => Criterion::Nothing,
        },
    }
}

/// What a `rating` filter keeps: a name that is no rating keeps nothing.
pub open spec fn rating_criterion(value: Option<Seq<char>>) -> Criterion<Rating> {
    match value {
        None => Criterion::Any,
        Some(s) => match rating_of_name(s) {
            Some(r) => Criterion::Only(r),
            None => Criterion::Nothing,
        },
    }
}

/// The bound of a `before` or `after` filter, given what the date parser made
/// of its text: a text that is no date keeps nothing.
pub open spec fn date_criterion(given: bool, parsed: Option<Date>) -> Criterion<Date> {
    if !given {
        Criterion::Any
    } else {
        match parsed {
            Some(d) => Criterion::Only(d),
            None => Criterion::Nothing,
        }
    }
}

/// The bound that a `before` or `after` parameter sets.
pub open spec fn date_param(value: Option<Seq<char>>) -> Criterion<Date> {
    match value {
        None => Criterion::Any,
        Some(s) => date_criterion(true, parsed_date(s, date_format())),
    }
}

/// The filters that a query's parameters set.
pub open spec fn filters_of(params: QueryParams) -> Filters {
    Filters {
        kind: kind_criterion(text_of(params.kind)),
        rating: rating_criterion(text_of(params.rating)),
        before: date_param(text_of(params.before)),
        after: date_param(text_of(params.after)),
    }
}

/// Decides a date filter from whether it was given and what its text parsed to.
pub fn resolve_date_criterion(given: bool, parsed: Option<Date>) -> (r: Criterion<Date>)
    ensures
        r == date_criterion(given, parsed),
{
    if !given {
        Criterion::Any
    } else {
        match parsed {
            Some(d) => Criterion::Only(d),
            None => Criterion::Nothing,
        }
    }
}

fn read_date_param(value: &Option<String>) -> (r: Criterion<Date>)
    ensures
        r == date_param(text_of(*value)),
{
    match value {
        None => resolve_date_criterion(false, None),
        Some(s) => resolve_date_criterion(true, Date::parse(s.as_str())),
    }
}

/// Reads the filters off a query's parameters.
pub fn resolve_filters(params: &QueryParams) -> (r: Filters)
    ensures
        r == filters_of(*params),
{
    let kind = match &params.kind {
        None => Criterion::Any,
        Some(s) => match ContentType::from_name(s.as_str()) {
            Some(k) => Criterion::Only(k),
            None => Criterion::Nothing,
        },
    };
    let rating = match &params.rating {
        None => Criterion::Any,
        Some(s) => match Rating::from_name(s.as_str()) {
            Some(r) => Criterion::Only(r),
            None => Criterion::Nothing,
        },
    };
    Filters {
        kind,
        rating,
        before: read_date_param(&params.before),
        after: read_date_param(&params.after),
    }
}

/// The page that a query shows: the one asked for, the first where none or
/// page zero was.
pub open spec fn page_shown(page: Option<usize>) -> int {
    match page {
        Some(n) => if n >= 1 {
            n as int
        } else {
            1
        },
        None => 1,
    }
}

/// The scores that a query's search gives the cards; none without a search.
pub open spec fn scores_of(search: Option<String>, cards: Seq<Card>) -> Option<Seq<isize>> {
    match search {
        Some(q) => Some(search_scores(q@, cards)),
        None => None,
    }
}

/// Whether the matcher can size its table for a query's search text, if the
/// query has one.
pub open spec fn search_fits(search: Option<String>) -> bool {
    match search {
        Some(q) => fits_matcher(q@),
        None => true,
    }
}

/// The listing that a query asks for.
pub open spec fn listing_for(cards: Seq<Card>, params: QueryParams) -> Seq<int> {
    listing_of(
        cards,
        filters_of(params),
        scores_of(params.search, cards),
        order_of(params.search is Some, params.sort),
    )
}

/// Answers a catalogue query: filters the dataset, scores it against the
/// search text if there is one, orders it, and cuts out the page asked for.
/// Every query is answered; a filter that names no kind, rating or date
/// leaves a listing without entries. The demands are the machine's: the
/// dataset with one more page, and the square of the search text's length,
/// must fit in `usize`.
pub fn handler(cards: &Vec<Card>, params: &QueryParams) -> (r: QueryResult)
    requires
        cards.len() + ITEMS_PER_PAGE <= usize::MAX,
        search_fits(params.search),
    ensures
        is_listing(
            cards@,
            filters_of(*params),
            scores_of(params.search, cards@),
            order_of(params.search is Some, params.sort),
            listing_for(cards@, *params),
        ),
        is_page_of(cards@, listing_for(cards@, *params), page_shown(params.page), r),
        nothing_passes(filters_of(*params)) ==> r.total_items == 0 && r.entries.len() == 0,
{
    let scores: Option<Vec<isize>> = match &params.search {
        Some(q) => Some(score_cards(q.as_str(), cards)),
        None => None,
    };
    assert(scores_view(scores) == scores_of(params.search, cards@));
    let filters = resolve_filters(params);
    let order = effective_order(params.search.is_some(), params.sort);
    let listing = list_matching(cards, &filters, &scores, order);
    let page: usize = match params.page {
        Some(n) => if n >= 1 {
            n
        } else {
            1
        },
        None => 1,
    };
    assert forall|p: int| 0 <= p < listing.len() implies listing[p] < cards.len() by {
        assert(positions(listing@)[p] == listing[p] as int);
    }
    assert(listing.len() <= cards.len()) by {
        lemma_listing_length(cards@, filters, scores_view(scores), order, positions(listing@));
    }
    proof {
        if nothing_passes(filters) {
            lemma_unmatched_filter_lists_nothing(
                cards@,
                filters,
                scores_view(scores),
                order,
                positions(listing@),
            );
        }
    }
    page_of_listing(cards, &listing, page)
}

} // verus!
