use erika_catalogue::dataset::{
    catalogue_hash, dataset_rows, export_json, i64_to_decimal, row_of, u64_to_hex, write_row,
};
use erika_catalogue::date::Date;
use erika_catalogue::entry::{
    CatalogueBook, CatalogueEntry, CatalogueGame, CatalogueMetadata, CatalogueMovie, CatalogueShow,
};
use erika_catalogue::kind::{Card, ContentType};
use erika_catalogue::metadata::{
    role_is_developer, BookData, BookPlatform, GameCompany, GameData, GameGenre, GamePlatform,
    MovieData, ShowData,
};
use erika_catalogue::rating::Rating;

fn card(kind: ContentType, title: &str, date: Option<Date>) -> Card {
    Card {
        kind,
        title: title.to_string(),
        author: String::from("A \"quoted\" author"),
        cover: String::from("/c.avif"),
        placeholder: String::from("blur"),
        rating: Rating::Loved,
        finished_date: date,
    }
}

#[test]
fn hexadecimal_numerals() {
    for n in [0u64, 1, 9, 10, 15, 16, 255, 256, 0xdead_beef, u64::MAX] {
        assert_eq!(u64_to_hex(n), format!("{:x}", n));
    }
    assert_eq!(u64_to_hex(u64::MAX), "ffffffffffffffff");
}

#[test]
fn signed_numerals() {
    for n in [0i64, 1, -1, 10, -10, 1_700_000_000_000, i64::MAX, i64::MIN] {
        assert_eq!(i64_to_decimal(n), n.to_string());
    }
}

#[test]
fn rows_carry_what_a_card_is_drawn_from() {
    let row = row_of(&card(ContentType::Show, "Dark", Some(Date { year: 1970, month: 1, day: 2 })));
    assert_eq!(row.cover, "/c.avif");
    assert_eq!(row.placeholder, "blur");
    assert_eq!(row.type_id, 2);
    assert_eq!(row.title, "Dark");
    assert_eq!(row.rating, 4);
    assert_eq!(row.author, "A \"quoted\" author");
    assert_eq!(row.finished_ms, Some(86_400_000));
    assert_eq!(row_of(&card(ContentType::Game, "g", None)).type_id, 0);
    assert_eq!(row_of(&card(ContentType::Movie, "m", None)).type_id, 1);
    assert_eq!(row_of(&card(ContentType::Book, "b", None)).type_id, 3);
    assert_eq!(row_of(&card(ContentType::Book, "b", None)).finished_ms, None);
}

#[test]
fn the_hash_is_stable_and_sensitive_to_order() {
    let a = card(ContentType::Game, "Celeste", None);
    let b = card(ContentType::Book, "Dune", Some(Date { year: 2023, month: 5, day: 1 }));
    let one = catalogue_hash(&dataset_rows(&vec![a.duplicate(), b.duplicate()]));
    let same = catalogue_hash(&dataset_rows(&vec![a.duplicate(), b.duplicate()]));
    let swapped = catalogue_hash(&dataset_rows(&vec![b.duplicate(), a.duplicate()]));
    let fewer = catalogue_hash(&dataset_rows(&vec![a.duplicate()]));
    assert_eq!(one, same);
    assert_ne!(one, swapped);
    assert_ne!(one, fewer);
    assert!(!one.is_empty() && one.len() <= 16);
    assert!(one.chars().all(|c| c.is_ascii_digit() || ('a'..='f').contains(&c)));
    assert!(one == "0" || !one.starts_with('0'));
}

#[test]
fn rows_are_written_as_json_arrays() {
    let dated = row_of(&card(ContentType::Show, "Dark", Some(Date { year: 1969, month: 12, day: 31 })));
    assert_eq!(
        write_row(&dated),
        "[\"/c.avif\",\"blur\",2,\"Dark\",4,\"A \\\"quoted\\\" author\",-86400000]"
    );
    let undated = row_of(&card(ContentType::Book, "Dune", None));
    assert_eq!(write_row(&undated), "[\"/c.avif\",\"blur\",3,\"Dune\",4,\"A \\\"quoted\\\" author\"]");
}

#[test]
fn the_export_holds_the_hash_and_the_rows() {
    let rows = dataset_rows(&vec![
        card(ContentType::Game, "Celeste", None),
        card(ContentType::Movie, "Heat", Some(Date { year: 1970, month: 1, day: 1 })),
    ]);
    let text = export_json("abc", &rows);
    assert_eq!(
        text,
        "[\"abc\",[[\"/c.avif\",\"blur\",0,\"Celeste\",4,\"A \\\"quoted\\\" author\"],[\"/c.avif\",\"blur\",1,\"Heat\",4,\"A \\\"quoted\\\" author\",0]]]"
    );
    let parsed: serde_json::Value = serde_json::from_str(&text).unwrap();
    assert_eq!(parsed.pointer("/0").unwrap().as_str(), Some("abc"));
    assert_eq!(parsed.pointer("/1/1/3").unwrap().as_str(), Some("Heat"));
    assert_eq!(export_json("h", &Vec::new()), "[\"h\",[]]");
}

fn book(authors: &[&str], publishers: &[&str]) -> CatalogueBook {
    CatalogueBook {
        title: String::from("Dune"),
        rating: Rating::Masterpiece,
        platform: BookPlatform::Ebook,
        finished_date: Some(Date { year: 2023, month: 5, day: 1 }),
        isbn: String::from("9780441013593"),
        metadata: Some(BookData {
            title: String::from("Dune"),
            authors: authors.iter().map(|s| s.to_string()).collect(),
            publishers: publishers.iter().map(|s| s.to_string()).collect(),
            pages: Some(612),
            publish_date: 1965,
        }),
        cover: (String::from("/dune.avif"), String::from("blur")),
    }
}

fn game(companies: &[(&str, &str)]) -> CatalogueGame {
    CatalogueGame {
        title: String::from("Celeste"),
        rating: Rating::Loved,
        finished_date: None,
        igdb: String::from("26226"),
        metadata: Some(GameData {
            first_release_date: Some(1516838400),
            genres: vec![GameGenre { id: 8, name: String::from("Platform") }],
            platforms: vec![GamePlatform { id: 6, abbreviation: String::from("PC") }],
            companies: companies
                .iter()
                .enumerate()
                .map(|(i, (name, role))| GameCompany { id: i as u32, name: name.to_string(), role: role.to_string() })
                .collect(),
        }),
        cover: (String::from("/celeste.avif"), String::from("blur")),
    }
}

#[test]
fn a_book_is_by_its_first_author_or_else_its_publisher() {
    assert_eq!(book(&["Frank Herbert", "Other"], &["Ace"]).get_author(), Some(String::from("Frank Herbert")));
    assert_eq!(book(&[], &["Ace", "Chilton"]).get_author(), Some(String::from("Ace")));
    assert_eq!(book(&[], &[]).get_author(), None);
}

#[test]
fn a_game_is_by_its_first_developer() {
    let g = game(&[("Publisher Inc", "publisher"), ("Maddy Makes Games", "Developer"), ("Other", "developer")]);
    assert_eq!(g.get_author(), Some(String::from("Maddy Makes Games")));
    assert_eq!(game(&[("Publisher Inc", "publisher")]).get_author(), None);
    assert_eq!(game(&[("X", "DEVELOPER")]).get_author(), Some(String::from("X")));
    assert_eq!(game(&[]).get_author(), None);
    assert!(role_is_developer("developer"));
    assert!(!role_is_developer("Developer"));
}

#[test]
fn movies_and_shows_are_by_their_first_company() {
    let movie = CatalogueMovie {
        title: String::from("Arrival"),
        rating: Rating::Loved,
        finished_date: None,
        tmdb: String::from("329865"),
        metadata: Some(MovieData {
            title: String::from("Arrival"),
            tagline: None,
            id: 329865,
            overview: None,
            release_date: String::from("2016-11-10"),
            runtime: Some(116),
            companies: vec![String::from("FilmNation"), String::from("Lava Bear")],
            genres: vec![],
        }),
        cover: (String::new(), String::new()),
    };
    assert_eq!(movie.get_author(), Some(String::from("FilmNation")));
    assert_eq!(movie.get_metadata().runtime, Some(116));
    let show = CatalogueShow {
        title: String::from("Dark"),
        rating: Rating::Liked,
        finished_date: None,
        tmdb: String::from("70523"),
        metadata: Some(ShowData { tagline: None, id: 70523, overview: None, companies: vec![], genres: vec![] }),
        cover: (String::new(), String::new()),
    };
    assert_eq!(show.get_author(), None);
}

#[test]
fn cover_and_metadata_are_attached_later() {
    let mut b = book(&["Frank Herbert"], &[]);
    b.metadata = None;
    b.set_cover((String::from("/new.avif"), String::from("hash")));
    assert_eq!(b.cover, (String::from("/new.avif"), String::from("hash")));
    assert!(b.metadata.is_none());
    b.set_metadata(BookData {
        title: String::from("Dune"),
        authors: vec![],
        publishers: vec![String::from("Ace")],
        pages: None,
        publish_date: 1965,
    });
    assert_eq!(b.get_metadata().publishers, vec![String::from("Ace")]);
    assert_eq!(b.get_author(), Some(String::from("Ace")));
    assert_eq!(b.title, "Dune");
}

#[test]
fn an_entry_is_shown_as_a_card() {
    let entry = CatalogueEntry::Book(book(&["Frank Herbert"], &[]));
    assert_eq!(entry.kind(), ContentType::Book);
    assert_eq!(entry.finished_date(), Some(Date { year: 2023, month: 5, day: 1 }));
    assert_eq!(entry.author(), Some(String::from("Frank Herbert")));
    let c = entry.card();
    assert_eq!(c.kind, ContentType::Book);
    assert_eq!(c.title, "Dune");
    assert_eq!(c.author, "Frank Herbert");
    assert_eq!(c.cover, "/dune.avif");
    assert_eq!(c.placeholder, "blur");
    assert_eq!(c.rating, Rating::Masterpiece);
    assert_eq!(c.finished_date, Some(Date { year: 2023, month: 5, day: 1 }));

    let entry = CatalogueEntry::Game(game(&[]));
    assert_eq!(entry.kind(), ContentType::Game);
    assert_eq!(entry.finished_date(), None);
    assert_eq!(entry.card().author, "");
}

#[test]
fn kinds_have_their_names_keys_and_directories() {
    assert_eq!(ContentType::from_form_value("movie"), Some(ContentType::Movie));
    assert_eq!(ContentType::from_form_value("tv"), Some(ContentType::Show));
    assert_eq!(ContentType::from_form_value("game"), Some(ContentType::Game));
    assert_eq!(ContentType::from_form_value("book"), Some(ContentType::Book));
    assert_eq!(ContentType::from_form_value("show"), None);
    assert_eq!(ContentType::from_name("show"), Some(ContentType::Show));
    assert_eq!(ContentType::from_name("tv"), None);
    for k in [ContentType::Book, ContentType::Game, ContentType::Movie, ContentType::Show] {
        assert_eq!(ContentType::from_name(k.name()), Some(k));
    }
    assert_eq!(ContentType::Movie.source_key(), "tmdb");
    assert_eq!(ContentType::Show.source_key(), "tmdb");
    assert_eq!(ContentType::Game.source_key(), "igdb");
    assert_eq!(ContentType::Book.source_key(), "isbn");
    assert_eq!(ContentType::Movie.directory(), "movies");
    assert_eq!(ContentType::Show.directory(), "shows");
    assert_eq!(ContentType::Game.directory(), "games");
    assert_eq!(ContentType::Book.directory(), "books");
    assert_eq!(BookPlatform::from_name("ebook"), Some(BookPlatform::Ebook));
    assert_eq!(BookPlatform::from_name("physical"), Some(BookPlatform::Physical));
    assert_eq!(BookPlatform::from_name("audiobook"), Some(BookPlatform::Audiobook));
    assert_eq!(BookPlatform::from_name("vinyl"), None);
}
