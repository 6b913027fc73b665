use erika_catalogue::http::Fetched;
use erika_catalogue::kind::ContentType;
use erika_catalogue::slug::{entry_path, probe_found, SlugProbe, SlugStep};

#[test]
fn titles_become_slugs() {
    assert_eq!(SlugProbe::start("Arrival").candidate(), "arrival");
    assert_eq!(SlugProbe::start("My Test String!!!1!1").candidate(), "my-test-string-1-1");
    assert_eq!(SlugProbe::start("\u{c6}\u{fa}\u{171}--cool?").candidate(), "aeuu-cool");
    assert_eq!(SlugProbe::start("The Legend of Zelda: Breath of the Wild").candidate(), "the-legend-of-zelda-breath-of-the-wild");
}

#[test]
fn candidates_count_up_from_the_base() {
    let mut probe = SlugProbe::begin(String::from("arrival"));
    assert_eq!(probe.candidate(), "arrival");
    let mut seen = vec![probe.candidate()];
    for expected in ["arrival-1", "arrival-2", "arrival-3", "arrival-4", "arrival-5", "arrival-6", "arrival-7", "arrival-8", "arrival-9", "arrival-10", "arrival-11"] {
        probe = match probe.advance(true) {
            SlugStep::Retry(next) => next,
            _ => panic!("a taken candidate must lead to the next"),
        };
        assert_eq!(probe.candidate(), expected);
        assert!(!seen.contains(&probe.candidate()));
        seen.push(probe.candidate());
    }
    match probe.advance(false) {
        SlugStep::Free(slug) => assert_eq!(slug, "arrival-11"),
        _ => panic!("a free candidate ends the search"),
    }
}

#[test]
fn a_free_base_is_taken_as_it_is() {
    match SlugProbe::start("Arrival").advance(false) {
        SlugStep::Free(slug) => assert_eq!(slug, "arrival"),
        _ => panic!("a free candidate ends the search"),
    }
}

#[test]
fn the_counter_ends_the_search_at_its_limit() {
    let probe = SlugProbe { base: String::from("x"), attempt: u64::MAX };
    assert_eq!(probe.candidate(), "x-18446744073709551615");
    assert!(matches!(probe.advance(true), SlugStep::Exhausted));
    let probe = SlugProbe { base: String::from("x"), attempt: u64::MAX };
    assert!(matches!(probe.advance(false), SlugStep::Free(_)));
    let probe = SlugProbe { base: String::from("x"), attempt: u64::MAX - 1 };
    match probe.advance(true) {
        SlugStep::Retry(next) => assert_eq!(next.attempt, u64::MAX),
        _ => panic!("one more attempt is left"),
    }
}

#[test]
fn only_a_successful_probe_reports_a_file() {
    assert!(probe_found(&Fetched::Response { status: 200, body: String::new() }));
    assert!(probe_found(&Fetched::Response { status: 299, body: String::new() }));
    assert!(!probe_found(&Fetched::Response { status: 404, body: String::new() }));
    assert!(!probe_found(&Fetched::Response { status: 199, body: String::new() }));
    assert!(!probe_found(&Fetched::Response { status: 300, body: String::new() }));
    assert!(!probe_found(&Fetched::Response { status: 500, body: String::new() }));
    assert!(!probe_found(&Fetched::Failed));
}

#[test]
fn paths_lie_under_the_directory_of_the_kind() {
    assert_eq!(entry_path(ContentType::Movie, "arrival"), "movies/arrival/arrival.md");
    assert_eq!(entry_path(ContentType::Movie, "arrival-1"), "movies/arrival-1/arrival-1.md");
    assert_eq!(entry_path(ContentType::Show, "dark"), "shows/dark/dark.md");
    assert_eq!(entry_path(ContentType::Game, "celeste"), "games/celeste/celeste.md");
    assert_eq!(entry_path(ContentType::Book, "dune"), "books/dune/dune.md");
}
