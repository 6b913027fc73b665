//! Scoring titles against a search text.

use crate::kind::Card;
use vstd::prelude::*;
use vstd::string::*;

verus! {

/// The score that `sublime_fuzzy::best_match` gives the best match of `query`
/// in `target`; `None` where it finds no match of the whole query.
pub uninterp spec fn fuzzy_score(query: Seq<char>, target: Seq<char>) -> Option<isize>;

/// Whether the matcher can size its table for a query: the table's capacity
/// is the square of the number of the query's characters, which must fit in
/// `usize`.
pub open spec fn fits_matcher(query: Seq<char>) -> bool {
    query.len() * query.len() <= usize::MAX
}

/// Calls `sublime_fuzzy::best_match` and takes the score of the match.
/// Trusted: the result is the named `fuzzy_score`, and an empty query or an
/// empty target has no match. The demand keeps the capacity of the table that
/// the matcher allocates, the square of the query's length, within `usize`.
#[verifier::external_body]
fn best_match_score(query: &str, target: &str) -> (r: Option<isize>)
    requires
        fits_matcher(query@),
    ensures
        r == fuzzy_score(query@, target@),
        query@.len() == 0 || target@.len() == 0 ==> r is None,
{
    match sublime_fuzzy::best_match(query, target) {
        Some(found) => Some(found.score()),
        None => None,
    }
}

/// The search score of a title: that of its best match, zero without one.
pub open spec fn score_of_match(found: Option<isize>) -> isize {
    match found {
        Some(s) => s,
        None => 0,
    }
}

/// The search scores of all cards for a query.
pub open spec fn search_scores(query: Seq<char>, cards: Seq<Card>) -> Seq<isize> {
    Seq::new(cards.len(), |i: int| score_of_match(fuzzy_score(query, cards[i].title@)))
}

/// Whether the matcher can size its table for a query.
pub fn query_fits(query: &str) -> (r: bool)
    ensures
        r == fits_matcher(query@),
{
    let n: usize = query.unicode_len();
    if n == 0 {
        true
    } else {
        let limit: usize = usize::MAX / n;
        assert((n <= limit) == (n * n <= usize::MAX)) by (nonlinear_arith)
            requires
                n > 0,
                limit == usize::MAX / n,
        ;
        n <= limit
    }
}

/// Scores every card's title against a search text.
pub fn score_cards(query: &str, cards: &Vec<Card>) -> (scores: Vec<isize>)
    requires
        fits_matcher(query@),
    ensures
        scores@ == search_scores(query@, cards@),
        query@.len() == 0 ==> forall|i: int| 0 <= i < scores.len() ==> scores[i] == 0,
{
    let mut scores: Vec<isize> = Vec::new();
    let mut i: usize = 0;
    while i < cards.len()
        invariant
            i <= cards.len(),
            fits_matcher(query@),
            scores@ == search_scores(query@, cards@).take(i as int),
            query@.len() == 0 ==> forall|j: int| 0 <= j < scores.len() ==> scores[j] == 0,
        decreases cards.len() - i,
    {
        let score = match best_match_score(query, cards[i].title.as_str()) {
            Some(s) => s,
            None => 0,
        };
        scores.push(score);
        assert(scores@ =~= search_scores(query@, cards@).take(i + 1));
        i += 1;
    }
    assert(scores@ =~= search_scores(query@, cards@));
    scores
}

} // verus!
