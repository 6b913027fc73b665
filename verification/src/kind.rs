//! The four kinds of catalogue content and what is fixed for each: where its
//! entries are stored, under which key its outside identifier is written, and
//! the names by which forms and queries refer to it.

use crate::text::str_eq;
use vstd::prelude::*;

verus! {

/// The kind of a catalogue entry.
#[derive(Clone, Copy, Debug, PartialEq, Eq, Structural, Hash)]
pub enum ContentType {
    Book,
    Movie,
    Show,
    Game,
}

/// The kind that a value of the add form's `type` field selects.
pub open spec fn kind_of_form_value(s: Seq<char>) -> Option<ContentType> {
    if s == "movie"@ {
        Some(ContentType::Movie)
    } else if s == "tv"@ {
        Some(ContentType::Show)
    } else if s == "game"@ {
        Some(ContentType::Game)
    } else if s == "book"@ {
        Some(ContentType::Book)
    } else {
        None
    }
}

/// The kind that a value of a query's `type` filter names.
pub open spec fn kind_of_name(s: Seq<char>) -> Option<ContentType> {
    if s == "book"@ {
        Some(ContentType::Book)
    } else if s == "game"@ {
        Some(ContentType::Game)
    } else if s == "movie"@ {
        Some(ContentType::Movie)
    } else if s == "show"@ {
        Some(ContentType::Show)
    } else {
        None
    }
}

/// The name by which queries refer to a kind.
pub open spec fn kind_name(k: ContentType) -> Seq<char> {
    match k {
        ContentType::Book => "book"@,
        ContentType::Game => "game"@,
        ContentType::Movie => "movie"@,
        ContentType::Show => "show"@,
    }
}

/// The front-matter key under which a kind's outside identifier is written.
pub open spec fn source_key_of(k: ContentType) -> Seq<char> {
    match k {
        ContentType::Movie => "tmdb"@,
        ContentType::Show => "tmdb"@,
        ContentType::Game => "igdb"@,
        ContentType::Book => "isbn"@,
    }
}

/// The directory of the content store that holds a kind's entries.
pub open spec fn directory_of(k: ContentType) -> Seq<char> {
    match k {
        ContentType::Movie => "movies"@,
        ContentType::Show => "shows"@,
        ContentType::Game => "games"@,
        ContentType::Book => "books"@,
    }
}

/// The kind whose entries a directory of the content store holds.
pub open spec fn kind_of_directory(s: Seq<char>) -> Option<ContentType> {
    if s == "movies"@ {
        Some(ContentType::Movie)
    } else if s == "shows"@ {
        Some(ContentType::Show)
    } else if s == "games"@ {
        Some(ContentType::Game)
    } else if s == "books"@ {
        Some(ContentType::Book)
    } else {
        None
    }
}

/// The number that stands for a kind in the exported dataset.
pub open spec fn type_id_of(k: ContentType) -> int {
    match k {
        ContentType::Game => 0,
        ContentType::Movie => 1,
        ContentType::Show => 2,
        ContentType::Book => 3,
    }
}

impl ContentType {
    /// The kind selected by the add form's `type` field: `movie`, `tv`,
    /// `game` or `book`.
    pub fn from_form_value(s: &str) -> (r: Option<ContentType>)
        ensures
            r == kind_of_form_value(s@),
    {
        if str_eq(s, "movie") {
            Some(ContentType::Movie)
        } else if str_eq(s, "tv") {
            Some(ContentType::Show)
        } else if str_eq(s, "game") {
            Some(ContentType::Game)
        } else if str_eq(s, "book") {
            Some(ContentType::Book)
        } else {
            None
        }
    }

    /// The kind named by a query's `type` filter: `book`, `game`, `movie` or
    /// `show`.
    pub fn from_name(s: &str) -> (r: Option<ContentType>)
        ensures
            r == kind_of_name(s@),
    {
        if str_eq(s, "book") {
            Some(ContentType::Book)
        } else if str_eq(s, "game") {
            Some(ContentType::Game)
        } else if str_eq(s, "movie") {
            Some(ContentType::Movie)
        } else if str_eq(s, "show") {
            Some(ContentType::Show)
        } else {
            None
        }
    }

    /// The name by which queries refer to this kind.
    pub fn name(&self) -> (s: &'static str)
        ensures
            s@ == kind_name(*self),
    {
        match self {
            ContentType::Book => "book",
            ContentType::Game => "game",
            ContentType::Movie => "movie",
            ContentType::Show => "show",
        }
    }

    /// The front-matter key of the outside identifier: `tmdb` for movies and
    /// shows, `igdb` for games, `isbn` for books.
    pub fn source_key(&self) -> (s: &'static str)
        ensures
            s@ == source_key_of(*self),
    {
        match self {
            ContentType::Movie => "tmdb",
            ContentType::Show => "tmdb",
            ContentType::Game => "igdb",
            ContentType::Book => "isbn",
        }
    }

    /// The directory of the content store that holds this kind's entries.
    pub fn directory(&self) -> (s: &'static str)
        ensures
            s@ == directory_of(*self),
    {
        match self {
            ContentType::Movie => "movies",
            ContentType::Show => "shows",
            ContentType::Game => "games",
            ContentType::Book => "books",
        }
    }

    /// The kind whose entries the directory named `movies`, `shows`, `games`
    /// or `books` holds.
    pub fn from_directory(s: &str) -> (r: Option<ContentType>)
        ensures
            r == kind_of_directory(s@),
    {
        if str_eq(s, "movies") {
            Some(ContentType::Movie)
        } else if str_eq(s, "shows") {
            Some(ContentType::Show)
        } else if str_eq(s, "games") {
            Some(ContentType::Game)
        } else if str_eq(s, "books") {
            Some(ContentType::Book)
        } else {
            None
        }
    }

    /// The number that stands for this kind in the exported dataset.
    pub fn type_id(&self) -> (n: u8)
        ensures
            n as int == type_id_of(*self),
    {
        match self {
            ContentType::Game => 0,
            ContentType::Movie => 1,
            ContentType::Show => 2,
            ContentType::Book => 3,
        }
    }
}

/// One entry as listings and the exported dataset see it.
pub struct Card {
    pub kind: ContentType,
    pub title: String,
    pub author: String,
    /// Address of the cover image.
    pub cover: String,
    /// Blurred placeholder shown while the cover loads.
    pub placeholder: String,
    pub rating: crate::rating::Rating,
    pub finished_date: Option<crate::date::Date>,
}

impl Card {
    /// A copy of this card.
    pub fn duplicate(&self) -> (r: Card)
        ensures
            r == *self,
    {
        Card {
            kind: self.kind,
            title: self.title.clone(),
            author: self.author.clone(),
            cover: self.cover.clone(),
            placeholder: self.placeholder.clone(),
            rating: self.rating,
            finished_date: self.finished_date,
        }
    }
}

} // verus!
