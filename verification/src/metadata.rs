//! What the sidecar file beside an entry says about the work itself, and who
//! counts as its author.

use crate::fields::text_of;
use crate::text::{lowercase, lowercase_of, str_eq};
use vstd::prelude::*;

verus! {

/// The form in which a book was read.
#[derive(Clone, Copy, Debug, PartialEq, Eq, Structural, Hash)]
pub enum BookPlatform {
    Ebook,
    Physical,
    Audiobook,
}

/// The form of a book that a front-matter value names.
pub open spec fn platform_of_name(s: Seq<char>) -> Option<BookPlatform> {
    if s == "ebook"@ {
        Some(BookPlatform::Ebook)
    } else if s == "physical"@ {
        Some(BookPlatform::Physical)
    } else if s == "audiobook"@ {
        Some(BookPlatform::Audiobook)
    } else {
        None
    }
}

impl BookPlatform {
    /// The form named `ebook`, `physical` or `audiobook`.
    pub fn from_name(s: &str) -> (r: Option<BookPlatform>)
        ensures
            r == platform_of_name(s@),
    {
        if str_eq(s, "ebook") {
            Some(BookPlatform::Ebook)
        } else if str_eq(s, "physical") {
            Some(BookPlatform::Physical)
        } else if str_eq(s, "audiobook") {
            Some(BookPlatform::Audiobook)
        } else {
            None
        }
    }
}

/// Sidecar data of a book.
pub struct BookData {
    pub title: String,
    pub authors: Vec<String>,
    pub publishers: Vec<String>,
    pub pages: Option<u32>,
    pub publish_date: u64,
}

/// Sidecar data of a movie.
pub struct MovieData {
    pub title: String,
    pub tagline: Option<String>,
    pub id: u32,
    pub overview: Option<String>,
    /// Date in `YYYY-MM-DD` form.
    pub release_date: String,
    /// Runtime in minutes.
    pub runtime: Option<u32>,
    pub companies: Vec<String>,
    pub genres: Vec<String>,
}

/// A genre of a game.
pub struct GameGenre {
    pub id: u32,
    pub name: String,
}

/// A platform that a game runs on.
pub struct GamePlatform {
    pub id: u32,
    pub abbreviation: String,
}

/// A company that worked on a game, and as what.
pub struct GameCompany {
    pub id: u32,
    pub name: String,
    pub role: String,
}

/// Sidecar data of a game.
pub struct GameData {
    /// Unix timestamp of the first release.
    pub first_release_date: Option<u64>,
    pub genres: Vec<GameGenre>,
    pub platforms: Vec<GamePlatform>,
    pub companies: Vec<GameCompany>,
}

/// Sidecar data of a show.
pub struct ShowData {
    pub tagline: Option<String>,
    pub id: u32,
    pub overview: Option<String>,
    pub companies: Vec<String>,
    pub genres: Vec<String>,
}

/// The first of a list of names.
pub open spec fn first_name(names: Seq<String>) -> Option<Seq<char>> {
    if names.len() > 0 {
        Some(names[0]@)
    } else {
        None
    }
}

/// The author of a book: its first author, or else its first publisher.
pub open spec fn book_author(data: BookData) -> Option<Seq<char>> {
    if data.authors.len() > 0 {
        first_name(data.authors@)
    } else {
        first_name(data.publishers@)
    }
}

/// Whether a role, put in lower case, is that of a game's developer.
pub open spec fn is_developer_role(lowered: Seq<char>) -> bool {
    lowered == "developer"@
}

/// The name of the first company whose role is, whatever its case, developer.
pub open spec fn first_developer(companies: Seq<GameCompany>) -> Option<Seq<char>>
    decreases companies.len(),
{
    if companies.len() == 0 {
        None
    } else if is_developer_role(lowercase_of(companies[0].role@)) {
        Some(companies[0].name@)
    } else {
        first_developer(companies.drop_first())
    }
}

/// The first of a list of names, copied.
pub fn first_of(names: &Vec<String>) -> (r: Option<String>)
    ensures
        text_of(r) == first_name(names@),
{
    if names.len() > 0 {
        Some(names[0].clone())
    } else {
        None
    }
}

/// Whether a role that was put in lower case is that of a game's developer.
pub fn role_is_developer(lowered: &str) -> (r: bool)
    ensures
        r == is_developer_role(lowered@),
{
    str_eq(lowered, "developer")
}

impl BookData {
    /// The book's first author, or else its first publisher.
    pub fn author(&self) -> (r: Option<String>)
        ensures
            text_of(r) == book_author(*self),
    {
        if self.authors.len() > 0 {
            first_of(&self.authors)
        } else {
            first_of(&self.publishers)
        }
    }
}

impl MovieData {
    /// The first company behind the movie.
    pub fn author(&self) -> (r: Option<String>)
        ensures
            text_of(r) == first_name(self.companies@),
    {
        first_of(&self.companies)
    }
}

impl ShowData {
    /// The first company behind the show.
    pub fn author(&self) -> (r: Option<String>)
        ensures
            text_of(r) == first_name(self.companies@),
    {
        first_of(&self.companies)
    }
}

impl GameData {
    /// The game's developer: the first company listed in that role.
    pub fn author(&self) -> (r: Option<String>)
        ensures
            text_of(r) == first_developer(self.companies@),
    {
        let ghost all = self.companies@;
        let mut i: usize = 0;
        assert(all.subrange(0, all.len() as int) =~= all);
        while i < self.companies.len()
            invariant
                i <= self.companies.len(),
                all == self.companies@,
                first_developer(all) == first_developer(all.subrange(i as int, all.len() as int)),
            decreases self.companies.len() - i,
        {
            let ghost rest = all.subrange(i as int, all.len() as int);
            assert(rest[0] == all[i as int]);
            assert(rest.drop_first() =~= all.subrange(i + 1, all.len() as int));
            let lowered = lowercase(self.companies[i].role.as_str());
            if role_is_developer(lowered.as_str()) {
                return Some(self.companies[i].name.clone());
            }
            i += 1;
        }
        None
    }
}

} // verus!
