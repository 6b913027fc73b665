//! Catalogue entries: what an entry's markdown file says, joined with its
//! cover and its sidecar data.

use crate::date::Date;
use crate::fields::text_of;
use crate::kind::{Card, ContentType};
use crate::metadata::{
    book_author,
    first_developer,
    first_name,
    BookData,
    BookPlatform,
    GameData,
    MovieData,
    ShowData,
};
use crate::rating::Rating;
use vstd::prelude::*;
use vstd::string::*;

verus! {

/// A book of the catalogue.
pub struct CatalogueBook {
    pub title: String,
    pub rating: Rating,
    pub platform: BookPlatform,
    pub finished_date: Option<Date>,
    pub isbn: String,
    pub metadata: Option<BookData>,
    /// Address of the cover image, and its blurred placeholder.
    pub cover: (String, String),
}

/// A movie of the catalogue.
pub struct CatalogueMovie {
    pub title: String,
    pub rating: Rating,
    pub finished_date: Option<Date>,
    pub tmdb: String,
    pub metadata: Option<MovieData>,
    /// Address of the cover image, and its blurred placeholder.
    pub cover: (String, String),
}

/// A game of the catalogue.
pub struct CatalogueGame {
    pub title: String,
    pub rating: Rating,
    pub finished_date: Option<Date>,
    pub igdb: String,
    pub metadata: Option<GameData>,
    /// Address of the cover image, and its blurred placeholder.
    pub cover: (String, String),
}

/// A show of the catalogue.
pub struct CatalogueShow {
    pub title: String,
    pub rating: Rating,
    pub finished_date: Option<Date>,
    pub tmdb: String,
    pub metadata: Option<ShowData>,
    /// Address of the cover image, and its blurred placeholder.
    pub cover: (String, String),
}

/// What every kind of entry offers: a cover and sidecar data of type `T`,
/// both attached after the entry was read, and an author drawn from the data.
pub trait CatalogueMetadata<T> {
    /// The sidecar data, once attached.
    spec fn attached(&self) -> Option<T>;

    /// The cover's address and placeholder.
    spec fn cover_text(&self) -> (Seq<char>, Seq<char>);

    /// The author that the attached data names, if any.
    spec fn author_text(&self) -> Option<Seq<char>>;

    fn set_cover(&mut self, cover: (String, String))
        ensures
            final(self).cover_text() == (cover.0@, cover.1@),
            final(self).attached() == old(self).attached(),
    ;

    fn set_metadata(&mut self, metadata: T)
        ensures
            final(self).attached() == Some(metadata),
            final(self).cover_text() == old(self).cover_text(),
    ;

    fn get_metadata(&self) -> (r: &T)
        requires
            self.attached() is Some,
        ensures
            self.attached() == Some(*r),
    ;

    fn get_author(&self) -> (r: Option<String>)
        requires
            self.attached() is Some,
        ensures
            text_of(r) == self.author_text(),
    ;
}

impl CatalogueMetadata<BookData> for CatalogueBook {
    open spec fn attached(&self) -> Option<BookData> {
        self.metadata
    }

    open spec fn cover_text(&self) -> (Seq<char>, Seq<char>) {
        (self.cover.0@, self.cover.1@)
    }

    open spec fn author_text(&self) -> Option<Seq<char>> {
        match self.metadata {
            Some(data) => book_author(data),
            None => None,
        }
    }

    fn set_cover(&mut self, cover: (String, String))
        ensures
            final(self).title == old(self).title,
            final(self).rating == old(self).rating,
            final(self).platform == old(self).platform,
            final(self).finished_date == old(self).finished_date,
            final(self).isbn == old(self).isbn,
    {
        self.cover = cover;
    }

    fn set_metadata(&mut self, metadata: BookData)
        ensures
            final(self).title == old(self).title,
            final(self).rating == old(self).rating,
            final(self).platform == old(self).platform,
            final(self).finished_date == old(self).finished_date,
            final(self).isbn == old(self).isbn,
    {
        self.metadata = Some(metadata);
    }

    fn get_metadata(&self) -> (r: &BookData) {
        self.metadata.as_ref().unwrap()
    }

    fn get_author(&self) -> (r: Option<String>) {
        self.get_metadata().author()
    }
}

impl CatalogueMetadata<MovieData> for CatalogueMovie {
    open spec fn attached(&self) -> Option<MovieData> {
        self.metadata
    }

    open spec fn cover_text(&self) -> (Seq<char>, Seq<char>) {
        (self.cover.0@, self.cover.1@)
    }

    open spec fn author_text(&self) -> Option<Seq<char>> {
        match self.metadata {
            Some(data) => first_name(data.companies@),
            None => None,
        }
    }

    fn set_cover(&mut self, cover: (String, String))
        ensures
            final(self).title == old(self).title,
            final(self).rating == old(self).rating,
            final(self).finished_date == old(self).finished_date,
            final(self).tmdb == old(self).tmdb,
    {
        self.cover = cover;
    }

    fn set_metadata(&mut self, metadata: MovieData)
        ensures
            final(self).title == old(self).title,
            final(self).rating == old(self).rating,
            final(self).finished_date == old(self).finished_date,
            final(self).tmdb == old(self).tmdb,
    {
        self.metadata = Some(metadata);
    }

    fn get_metadata(&self) -> (r: &MovieData) {
        self.metadata.as_ref().unwrap()
    }

    fn get_author(&self) -> (r: Option<String>) {
        self.get_metadata().author()
    }
}

impl CatalogueMetadata<GameData> for CatalogueGame {
    open spec fn attached(&self) -> Option<GameData> {
        self.metadata
    }

    open spec fn cover_text(&self) -> (Seq<char>, Seq<char>) {
        (self.cover.0@, self.cover.1@)
    }

    open spec fn author_text(&self) -> Option<Seq<char>> {
        match self.metadata {
            Some(data) => first_developer(data.companies@),
            None => None,
        }
    }

    fn set_cover(&mut self, cover: (String, String))
        ensures
            final(self).title == old(self).title,
            final(self).rating == old(self).rating,
            final(self).finished_date == old(self).finished_date,
            final(self).igdb == old(self).igdb,
    {
        self.cover = cover;
    }

    fn set_metadata(&mut self, metadata: GameData)
        ensures
            final(self).title == old(self).title,
            final(self).rating == old(self).rating,
            final(self).finished_date == old(self).finished_date,
            final(self).igdb == old(self).igdb,
    {
        self.metadata = Some(metadata);
    }

    fn get_metadata(&self) -> (r: &GameData) {
        self.metadata.as_ref().unwrap()
    }

    fn get_author(&self) -> (r: Option<String>) {
        self.get_metadata().author()
    }
}

impl CatalogueMetadata<ShowData> for CatalogueShow {
    open spec fn attached(&self) -> Option<ShowData> {
        self.metadata
    }

    open spec fn cover_text(&self) -> (Seq<char>, Seq<char>) {
        (self.cover.0@, self.cover.1@)
    }

    open spec fn author_text(&self) -> Option<Seq<char>> {
        match self.metadata {
            Some(data) => first_name(data.companies@),
            None => None,
        }
    }

    fn set_cover(&mut self, cover: (String, String))
        ensures
            final(self).title == old(self).title,
            final(self).rating == old(self).rating,
            final(self).finished_date == old(self).finished_date,
            final(self).tmdb == old(self).tmdb,
    {
        self.cover = cover;
    }

    fn set_metadata(&mut self, metadata: ShowData)
        ensures
            final(self).title == old(self).title,
            final(self).rating == old(self).rating,
            final(self).finished_date == old(self).finished_date,
            final(self).tmdb == old(self).tmdb,
    {
        self.metadata = Some(metadata);
    }

    fn get_metadata(&self) -> (r: &ShowData) {
        self.metadata.as_ref().unwrap()
    }

    fn get_author(&self) -> (r: Option<String>) {
        self.get_metadata().author()
    }
}

/// An entry of the catalogue, of any kind.
pub enum CatalogueEntry {
    Game(CatalogueGame),
    Movie(CatalogueMovie),
    Book(CatalogueBook),
    Show(CatalogueShow),
}

/// The text of an optional author, empty where there is none.
pub open spec fn byline(author: Option<Seq<char>>) -> Seq<char> {
    match author {
        Some(a) => a,
        None => Seq::<char>::empty(),
    }
}

impl CatalogueEntry {
    /// The entry's kind.
    pub open spec fn spec_kind(&self) -> ContentType {
        match self {
            CatalogueEntry::Game(_) => ContentType::Game,
            CatalogueEntry::Movie(_) => ContentType::Movie,
            CatalogueEntry::Book(_) => ContentType::Book,
            CatalogueEntry::Show(_) => ContentType::Show,
        }
    }

    /// The day the entry was finished, if it has one.
    pub open spec fn spec_finished_date(&self) -> Option<Date> {
        match self {
            CatalogueEntry::Game(g) => g.finished_date,
            CatalogueEntry::Movie(m) => m.finished_date,
            CatalogueEntry::Book(b) => b.finished_date,
            CatalogueEntry::Show(s) => s.finished_date,
        }
    }

    /// Whether the entry's sidecar data is attached.
    pub open spec fn has_metadata(&self) -> bool {
        match self {
            CatalogueEntry::Game(g) => g.metadata is Some,
            CatalogueEntry::Movie(m) => m.metadata is Some,
            CatalogueEntry::Book(b) => b.metadata is Some,
            CatalogueEntry::Show(s) => s.metadata is Some,
        }
    }

    /// The entry's author, as its kind draws it from the sidecar data.
    pub open spec fn spec_author(&self) -> Option<Seq<char>> {
        match self {
            CatalogueEntry::Game(g) => g.author_text(),
            CatalogueEntry::Movie(m) => m.author_text(),
            CatalogueEntry::Book(b) => b.author_text(),
            CatalogueEntry::Show(s) => s.author_text(),
        }
    }

    /// Whether `card` shows this entry: its kind, title, rating, date and
    /// cover, and its author, left empty where the data names none.
    pub open spec fn shown_as(&self, card: Card) -> bool {
        &&& card.kind == self.spec_kind()
        &&& card.finished_date == self.spec_finished_date()
        &&& card.author@ == byline(self.spec_author())
        &&& match self {
            CatalogueEntry::Game(e) => card.title == e.title && card.rating == e.rating
                && card.cover == e.cover.0 && card.placeholder == e.cover.1,
            CatalogueEntry::Movie(e) => card.title == e.title && card.rating == e.rating
                && card.cover == e.cover.0 && card.placeholder == e.cover.1,
            CatalogueEntry::Book(e) => card.title == e.title && card.rating == e.rating
                && card.cover == e.cover.0 && card.placeholder == e.cover.1,
            CatalogueEntry::Show(e) => card.title == e.title && card.rating == e.rating
                && card.cover == e.cover.0 && card.placeholder == e.cover.1,
        }
    }

    /// The entry's kind.
    pub fn kind(&self) -> (r: ContentType)
        ensures
            r == self.spec_kind(),
    {
        match self {
            CatalogueEntry::Game(_) => ContentType::Game,
            CatalogueEntry::Movie(_) => ContentType::Movie,
            CatalogueEntry::Book(_) => ContentType::Book,
            CatalogueEntry::Show(_) => ContentType::Show,
        }
    }

    /// The day the entry was finished, if it has one.
    pub fn finished_date(&self) -> (r: Option<Date>)
        ensures
            r == self.spec_finished_date(),
    {
        match self {
            CatalogueEntry::Game(g) => g.finished_date,
            CatalogueEntry::Movie(m) => m.finished_date,
            CatalogueEntry::Book(b) => b.finished_date,
            CatalogueEntry::Show(s) => s.finished_date,
        }
    }

    /// The entry's author, as its kind draws it from the sidecar data.
    pub fn author(&self) -> (r: Option<String>)
        requires
            self.has_metadata(),
        ensures
            text_of(r) == self.spec_author(),
    {
        match self {
            CatalogueEntry::Game(g) => g.get_author(),
            CatalogueEntry::Movie(m) => m.get_author(),
            CatalogueEntry::Book(b) => b.get_author(),
            CatalogueEntry::Show(s) => s.get_author(),
        }
    }

    /// The card that listings and the exported dataset show for the entry.
    pub fn card(&self) -> (r: Card)
        requires
            self.has_metadata(),
        ensures
            self.shown_as(r),
    {
        let author = match self.author() {
            Some(a) => a,
            None => String::new(),
        };
        let kind = self.kind();
        let finished_date = self.finished_date();
        match self {
            CatalogueEntry::Game(e) => Card {
                kind,
                title: e.title.clone(),
                author,
                cover: e.cover.0.clone(),
                placeholder: e.cover.1.clone(),
                rating: e.rating,
                finished_date,
            },
            CatalogueEntry::Movie(e) => Card {
                kind,
                title: e.title.clone(),
                author,
                cover: e.cover.0.clone(),
                placeholder: e.cover.1.clone(),
                rating: e.rating,
                finished_date,
            },
            CatalogueEntry::Book(e) => Card {
                kind,
                title: e.title.clone(),
                author,
                cover: e.cover.0.clone(),
                placeholder: e.cover.1.clone(),
                rating: e.rating,
                finished_date,
            },
            CatalogueEntry::Show(e) => Card {
                kind,
                title: e.title.clone(),
                author,
                cover: e.cover.0.clone(),
                placeholder: e.cover.1.clone(),
                rating: e.rating,
                finished_date,
            },
        }
    }
}

} // verus!
