use erika_catalogue::date::Date;
use erika_catalogue::kind::ContentType;
use erika_catalogue::listing::{list_matching, Criterion, Filters, Order};
use erika_catalogue::ordering::EntryKey;
use erika_catalogue::rating::Rating;
use erika_catalogue::row::{card_of_row, CatalogueRow, RowError};
use erika_catalogue::sorting::sort_positions;

fn row(kind: &str, rating: &str, finished: Option<&str>, author: Option<&str>) -> CatalogueRow {
    CatalogueRow {
        kind: kind.to_string(),
        title: String::from("Dune"),
        author: author.map(|a| a.to_string()),
        rating: rating.to_string(),
        finished_date: finished.map(|d| d.to_string()),
        cover: String::from("/dune.avif"),
        placeholder: String::from("blur"),
    }
}

#[test]
fn a_row_becomes_a_card() {
    let card = card_of_row(row("book", "masterpiece", Some("2023-05-01"), Some("Frank Herbert")))
        .unwrap()
        .unwrap();
    assert_eq!(card.kind, ContentType::Book);
    assert_eq!(card.title, "Dune");
    assert_eq!(card.author, "Frank Herbert");
    assert_eq!(card.cover, "/dune.avif");
    assert_eq!(card.placeholder, "blur");
    assert_eq!(card.rating, Rating::Masterpiece);
    assert_eq!(card.finished_date, Some(Date { year: 2023, month: 5, day: 1 }));
}

#[test]
fn a_row_without_date_or_author_is_undated_and_unsigned() {
    let card = card_of_row(row("game", "okay", None, None)).unwrap().unwrap();
    assert_eq!(card.finished_date, None);
    assert_eq!(card.author, "");
    let card = card_of_row(row("show", "hated", Some("N/A"), None)).unwrap().unwrap();
    assert_eq!(card.finished_date, None);
    assert_eq!(card.kind, ContentType::Show);
}

#[test]
fn a_row_of_an_unknown_kind_stands_for_nothing() {
    assert!(matches!(card_of_row(row("podcast", "loved", None, None)), Ok(None)));
    assert!(matches!(card_of_row(row("podcast", "meh", Some("soon"), None)), Ok(None)));
    assert!(matches!(card_of_row(row("tv", "loved", None, None)), Ok(None)));
}

#[test]
fn a_row_with_an_unreadable_rating_or_date_is_an_error() {
    assert!(matches!(card_of_row(row("book", "meh", None, None)), Err(RowError::UnknownRating)));
    assert!(matches!(
        card_of_row(row("book", "meh", Some("soon"), None)),
        Err(RowError::UnknownRating)
    ));
    assert!(matches!(
        card_of_row(row("book", "loved", Some("soon"), None)),
        Err(RowError::InvalidDate)
    ));
    assert!(matches!(
        card_of_row(row("book", "loved", Some("2023-02-30"), None)),
        Err(RowError::InvalidDate)
    ));
    assert!(matches!(card_of_row(row("book", "loved", Some(""), None)), Err(RowError::InvalidDate)));
}

fn key(major: i128) -> EntryKey {
    EntryKey { text: Vec::new(), major, undated: 0, year: 0, month: 0, day: 0 }
}

#[test]
fn positions_are_sorted_in_whatever_order_they_come() {
    let keys = vec![key(3), key(1), key(2), key(1), key(0)];
    assert_eq!(sort_positions(&keys, &vec![0, 1, 2, 3, 4]), vec![4, 1, 3, 2, 0]);
    assert_eq!(sort_positions(&keys, &vec![4, 3, 2, 1, 0]), vec![4, 1, 3, 2, 0]);
    assert_eq!(sort_positions(&keys, &vec![3, 0, 1]), vec![1, 3, 0]);
    assert_eq!(sort_positions(&keys, &Vec::new()), Vec::<usize>::new());
}

#[test]
fn under_a_search_only_matches_are_listed_best_first() {
    let cards: Vec<_> = ["a", "b", "c", "d", "e"]
        .iter()
        .map(|t| card_of_row(CatalogueRow { title: t.to_string(), ..row("book", "liked", None, None) }).unwrap().unwrap())
        .collect();
    let filters = Filters {
        kind: Criterion::Any,
        rating: Criterion::Any,
        before: Criterion::Any,
        after: Criterion::Any,
    };
    let scores = Some(vec![5isize, -3, 0, 9, 5]);
    assert_eq!(list_matching(&cards, &filters, &scores, Order::Relevance), vec![3, 0, 4]);
    let none = Some(vec![0isize, 0, -1, 0, 0]);
    assert!(list_matching(&cards, &filters, &none, Order::Relevance).is_empty());
}
