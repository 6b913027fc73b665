use erika_catalogue::form::{is_single_line, read_submission, CatalogueForm, FormError};
use erika_catalogue::fields::parse_fields;
use erika_catalogue::kind::ContentType;
use erika_catalogue::markdown::{parse_front_matter, synthesize, write_document};
use erika_catalogue::rating::Rating;

#[test]
fn document_has_the_exact_shape() {
    let doc = synthesize(
        ContentType::Movie,
        "Arrival",
        "",
        Rating::Loved,
        Some("2024-01-10"),
        "329865",
        "Language as a weapon.",
    );
    assert_eq!(
        doc,
        "---\ntitle: \"Arrival\"\nrating: \"loved\"\nfinishedDate: 2024-01-10\ntmdb: \"329865\"\n---\n\nLanguage as a weapon.\n"
    );
}

#[test]
fn platform_line_stands_between_title_and_rating() {
    let doc = synthesize(
        ContentType::Book,
        "Dune",
        "ebook",
        Rating::Masterpiece,
        None,
        "9780441013593",
        "Spice.\n\nSecond paragraph.",
    );
    assert_eq!(
        doc,
        "---\ntitle: \"Dune\"\nplatform: \"ebook\"\nrating: \"masterpiece\"\nfinishedDate: N/A\nisbn: \"9780441013593\"\n---\n\nSpice.\n\nSecond paragraph.\n"
    );
}

#[test]
fn source_key_follows_the_kind() {
    for (kind, key) in [
        (ContentType::Movie, "tmdb"),
        (ContentType::Show, "tmdb"),
        (ContentType::Game, "igdb"),
        (ContentType::Book, "isbn"),
    ] {
        let doc = synthesize(kind, "x", "", Rating::Okay, None, "1", "");
        assert!(doc.contains(&format!("\n{}: \"1\"\n---\n", key)), "{}", doc);
    }
}

#[test]
fn synthesizing_then_parsing_recovers_every_field() {
    let doc = synthesize(
        ContentType::Game,
        "The \"Best\": Game",
        "switch",
        Rating::Liked,
        Some("2023-06-01"),
        "119133",
        "---\nnot front matter\n",
    );
    let fm = parse_front_matter(&doc).unwrap();
    assert_eq!(fm.title, "The \"Best\": Game");
    assert_eq!(fm.platform, Some(String::from("switch")));
    assert_eq!(fm.rating, "liked");
    assert_eq!(fm.finished_date, "2023-06-01");
    assert_eq!(fm.source_key, "igdb");
    assert_eq!(fm.source_id, "119133");
    assert_eq!(fm.body, "---\nnot front matter\n");
}

#[test]
fn an_undated_entry_reads_back_as_the_marker() {
    let doc = synthesize(ContentType::Show, "Dark", "", Rating::Hated, None, "70523", "");
    let fm = parse_front_matter(&doc).unwrap();
    assert_eq!(fm.finished_date, "N/A");
    assert_eq!(fm.platform, None);
    assert_eq!(fm.title, "Dark");
    assert_eq!(fm.rating, "hated");
    assert_eq!(fm.source_key, "tmdb");
    assert_eq!(fm.source_id, "70523");
    assert_eq!(fm.body, "");
}

#[test]
fn documents_of_another_shape_are_not_read() {
    let good = write_document("t", "", "okay", "N/A", "tmdb", "1", "c");
    assert!(parse_front_matter(&good).is_some());
    for bad in [
        "",
        "---",
        "---\n",
        "title: \"t\"\n",
        "---\ntitle: \"t\"\nrating: \"okay\"\nfinishedDate: N/A\ntmdb: \"1\"\n---\n\nc",
        "---\ntitle: \"t\"\nrating: \"okay\"\nfinishedDate: N/A\ntmdb: \"1\"\n---\nc\n",
        "---\ntitle: t\nrating: \"okay\"\nfinishedDate: N/A\ntmdb: \"1\"\n---\n\nc\n",
        "---\ntitle: \"t\"\nfinishedDate: N/A\nrating: \"okay\"\ntmdb: \"1\"\n---\n\nc\n",
        "---\ntitle: \"t\"\nrating: \"okay\"\nfinishedDate: N/A\ntmdb \"1\"\n---\n\nc\n",
        "--\ntitle: \"t\"\nrating: \"okay\"\nfinishedDate: N/A\ntmdb: \"1\"\n---\n\nc\n",
        "---\ntitle: \"t\"\nrating: \"okay\"\nfinishedDate: N/A\ntmdb: \"1\"\n----\n\nc\n",
    ] {
        assert!(parse_front_matter(bad).is_none(), "{:?}", bad);
    }
}

#[test]
fn a_field_of_several_lines_breaks_the_round_trip() {
    let doc = write_document("two\nlines", "", "okay", "N/A", "tmdb", "1", "c");
    let read = parse_front_matter(&doc);
    assert!(read.is_none() || read.unwrap().title != "two\nlines");
}

fn submit(body: &str) -> Result<CatalogueForm, FormError> {
    read_submission(&parse_fields(body), "secret")
}

const VALID: &str = "type=movie&name=Arrival&rating=loved&no-date=on&date=2024-01-10&source-id=329865&platform-select=&comment=Great+film&form_password=secret";

#[test]
fn a_valid_submission_is_read() {
    let form = submit(VALID).unwrap();
    assert_eq!(form.kind, ContentType::Movie);
    assert_eq!(form.name, "Arrival");
    assert_eq!(form.rating, Rating::Loved);
    assert_eq!(form.date, Some(String::from("2024-01-10")));
    assert_eq!(form.source_id, "329865");
    assert_eq!(form.platform, "");
    assert_eq!(form.comment, "Great film");
    assert!(!form.skip_ci);
    assert_eq!(
        form.document(),
        "---\ntitle: \"Arrival\"\nrating: \"loved\"\nfinishedDate: 2024-01-10\ntmdb: \"329865\"\n---\n\nGreat film\n"
    );
}

#[test]
fn an_unchecked_date_box_leaves_the_entry_undated() {
    let form = submit("type=tv&name=Dark&rating=okay&date=2024-01-10&source-id=7&comment=&form_password=secret&skip-ci=skip-ci").unwrap();
    assert_eq!(form.kind, ContentType::Show);
    assert_eq!(form.date, None);
    assert!(form.skip_ci);
    assert!(form.document().contains("\nfinishedDate: N/A\n"));
}

#[test]
fn each_fault_refuses_the_submission() {
    let cases: [(&str, FormError, u16); 12] = [
        ("type=movie&name=A&rating=loved&source-id=1&comment=c", FormError::WrongPassword, 401),
        ("type=movie&name=A&rating=loved&source-id=1&comment=c&form_password=Secret", FormError::WrongPassword, 401),
        ("name=A&rating=loved&source-id=1&comment=c&form_password=secret", FormError::InvalidType, 400),
        ("type=podcast&name=A&rating=loved&source-id=1&comment=c&form_password=secret", FormError::InvalidType, 400),
        ("type=movie&rating=loved&source-id=1&comment=c&form_password=secret", FormError::InvalidName, 400),
        ("type=movie&name=A%0AB&rating=loved&source-id=1&comment=c&form_password=secret", FormError::InvalidName, 400),
        ("type=movie&name=A&rating=meh&source-id=1&comment=c&form_password=secret", FormError::InvalidRating, 400),
        ("type=movie&name=A&rating=loved&no-date=on&source-id=1&comment=c&form_password=secret", FormError::InvalidDate, 400),
        ("type=movie&name=A&rating=loved&no-date=on&date=soon&source-id=1&comment=c&form_password=secret", FormError::InvalidDate, 400),
        ("type=movie&name=A&rating=loved&comment=c&form_password=secret", FormError::InvalidSourceId, 400),
        ("type=movie&name=A&rating=loved&source-id=1&platform-select=a%0Ab&comment=c&form_password=secret", FormError::InvalidPlatform, 400),
        ("type=movie&name=A&rating=loved&source-id=1&form_password=secret", FormError::MissingComment, 400),
    ];
    for (body, fault, status) in cases {
        match submit(body) {
            Err(e) => {
                assert_eq!(e, fault, "{}", body);
                assert_eq!(e.status(), status);
            }
            Ok(_) => panic!("accepted {}", body),
        }
    }
}

#[test]
fn each_fault_has_its_message() {
    assert_eq!(FormError::WrongPassword.text(), "Invalid password");
    assert_eq!(FormError::InvalidType.text(), "Invalid type");
    assert_eq!(FormError::InvalidName.text(), "Invalid name");
    assert_eq!(FormError::InvalidRating.text(), "Invalid rating");
    assert_eq!(FormError::InvalidDate.text(), "Invalid date");
    assert_eq!(FormError::InvalidSourceId.text(), "Invalid source ID");
    assert_eq!(FormError::InvalidPlatform.text(), "Invalid platform");
    assert_eq!(FormError::MissingComment.text(), "Missing comment");
}

#[test]
fn the_last_of_several_fields_counts() {
    let form = submit("type=movie&type=book&name=A&name=B&rating=loved&source-id=1&comment=c&form_password=no&form_password=secret").unwrap();
    assert_eq!(form.kind, ContentType::Book);
    assert_eq!(form.name, "B");
}

#[test]
fn single_lines() {
    assert!(is_single_line(""));
    assert!(is_single_line("one line\r"));
    assert!(!is_single_line("two\nlines"));
    assert!(!is_single_line("\n"));
}
