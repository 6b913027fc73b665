//! Rows of the catalogue's store, as texts, and the cards they stand for.

use crate::date::{
    date_format,
    deserialize_optional_date,
    optional_date_of,
    no_date_text,
    parsed_date,
    Date,
    DateError,
};
use crate::kind::{kind_of_name, Card, ContentType};
use crate::rating::{rating_of_name, Rating};
use vstd::prelude::*;

verus! {

/// One row of the catalogue's store, joined with its cover.
pub struct CatalogueRow {
    /// The name of the entry's kind.
    pub kind: String,
    pub title: String,
    pub author: Option<String>,
    /// The stored name of the rating.
    pub rating: String,
    /// The finishing date as `%Y-%m-%d`; absent or `N/A` for an undated
    /// entry.
    pub finished_date: Option<String>,
    pub cover: String,
    pub placeholder: String,
}

/// Why a row stands for no card.
#[derive(Clone, Copy, Debug, PartialEq, Eq, Structural)]
pub enum RowError {
    /// The rating names none of the six.
    UnknownRating,
    /// The finishing date is neither a date nor the no-date marker.
    InvalidDate,
}

/// The finishing date that a row holds.
pub open spec fn row_date(finished: Option<String>) -> Result<Option<Date>, DateError> {
    match finished {
        None => Ok(None),
        Some(text) => optional_date_of(
            text@ == no_date_text(),
            parsed_date(text@, date_format()),
        ),
    }
}

/// Whether `r` is what a row stands for. A row of a kind that no listing
/// shows stands for nothing. Of any other row the rating and the date must be
/// readable, and its card takes the row's texts as they are, with an empty
/// author where the row has none.
pub open spec fn is_card_of(r: Result<Option<Card>, RowError>, row: CatalogueRow) -> bool {
    match kind_of_name(row.kind@) {
        None => r == Ok::<Option<Card>, RowError>(None),
        Some(kind) => match rating_of_name(row.rating@) {
            None => r == Err::<Option<Card>, RowError>(RowError::UnknownRating),
            Some(rating) => match row_date(row.finished_date) {
                Err(_) => r == Err::<Option<Card>, RowError>(RowError::InvalidDate),
                Ok(date) => r matches Ok(Some(card)) && card.kind == kind && card.title
                    == row.title && card.author@ == (match row.author {
                    Some(a) => a@,
                    None => Seq::<char>::empty(),
                }) && card.cover == row.cover && card.placeholder == row.placeholder
                    && card.rating == rating && card.finished_date == date,
            },
        },
    }
}

/// The card that a row of the store stands for.
pub fn card_of_row(row: CatalogueRow) -> (r: Result<Option<Card>, RowError>)
    ensures
        is_card_of(r, row),
{
    let kind = match ContentType::from_name(row.kind.as_str()) {
        Some(k) => k,
        None => {
            return Ok(None);
        },
    };
    let rating = match Rating::from_name(row.rating.as_str()) {
        Some(r) => r,
        None => {
            return Err(RowError::UnknownRating);
        },
    };
    let finished_date = match &row.finished_date {
        None => None,
        Some(text) => match deserialize_optional_date(text.as_str()) {
            Ok(d) => d,
            Err(_) => {
                return Err(RowError::InvalidDate);
            },
        },
    };
    let author = match row.author {
        Some(a) => a,
        None => String::new(),
    };
    Ok(
        Some(
            Card {
                kind,
                title: row.title,
                author,
                cover: row.cover,
                placeholder: row.placeholder,
                rating,
                finished_date,
            },
        ),
    )
}

} // verus!
