use erika_catalogue::fields::parse_fields;
use erika_catalogue::http::{Fetched, Header, Method};
use erika_catalogue::proxy::{
    continue_proxy, igdb_request, isbn_request, replace_spaces, resume_proxy, start_proxy,
    tmdb_request, token_request, ProxyError, ProxyKeys, ProxyPending, ProxyQuery, ProxySource,
    ProxyStep,
};

fn keys() -> ProxyKeys {
    ProxyKeys {
        tmdb_key: String::from("TK"),
        igdb_key: String::from("IK"),
        igdb_client: String::from("IC"),
    }
}

fn query(kind: &str, text: &str) -> Option<ProxyQuery> {
    Some(ProxyQuery { kind: kind.to_string(), query: text.to_string() })
}

fn pairs(headers: &[Header]) -> Vec<(String, String)> {
    headers.iter().map(|h| (h.name.clone(), h.value.clone())).collect()
}

#[test]
fn sources_are_named_in_lower_case() {
    assert_eq!(ProxySource::from_name("tmdb"), Some(ProxySource::Tmdb));
    assert_eq!(ProxySource::from_name("igdb"), Some(ProxySource::Igdb));
    assert_eq!(ProxySource::from_name("isbn"), Some(ProxySource::Isbn));
    assert_eq!(ProxySource::from_name("TMDB"), None);
    assert_eq!(ProxySource::from_name(""), None);
}

#[test]
fn a_query_needs_both_parameters() {
    let q = ProxyQuery::from(&parse_fields("type=movie&query=arrival&query=other")).unwrap();
    assert_eq!(q.kind, "movie");
    assert_eq!(q.query, "arrival");
    assert!(ProxyQuery::from(&parse_fields("type=movie")).is_none());
    assert!(ProxyQuery::from(&parse_fields("query=arrival")).is_none());
    assert!(ProxyQuery::from(&parse_fields("")).is_none());
}

#[test]
fn spaces_become_plus_signs() {
    assert_eq!(replace_spaces("the left hand of darkness"), "the+left+hand+of+darkness");
    assert_eq!(replace_spaces("  a  "), "++a++");
    assert_eq!(replace_spaces(""), "");
    assert_eq!(replace_spaces("tab\tand\u{a0}nbsp \u{e9}"), "tab\tand\u{a0}nbsp+\u{e9}");
}

#[test]
fn the_requests_of_each_provider() {
    let r = tmdb_request("movie", "arrival", "TK");
    assert_eq!(r.method, Method::Get);
    assert_eq!(r.url, "https://api.themoviedb.org/3/search/movie?query=arrival&api_key=TK");
    assert!(r.headers.is_empty());
    assert_eq!(r.body, None);

    let r = token_request("IC", "IK");
    assert_eq!(r.method, Method::Post);
    assert_eq!(
        r.url,
        "https://id.twitch.tv/oauth2/token?client_id=IC&client_secret=IK&grant_type=client_credentials"
    );
    assert!(r.headers.is_empty());
    assert_eq!(r.body, None);

    let r = igdb_request("IC", "tok", "celeste");
    assert_eq!(r.method, Method::Post);
    assert_eq!(r.url, "https://api.igdb.com/v4/games");
    assert_eq!(
        pairs(&r.headers),
        vec![
            (String::from("Accept"), String::from("application/json")),
            (String::from("Client-ID"), String::from("IC")),
            (String::from("Authorization"), String::from("Bearer tok")),
        ]
    );
    assert_eq!(r.body, Some(String::from("fields name,cover.url,id; search \"celeste\";")));

    let r = isbn_request("the dispossessed");
    assert_eq!(r.method, Method::Get);
    assert_eq!(
        r.url,
        "https://openlibrary.org/search.json?title=the+dispossessed&fields=key,title,isbn,cover_i,editions,editions.isbn"
    );
    assert_eq!(r.body, None);
}

#[test]
fn a_search_without_source_or_query_is_a_bad_request() {
    assert!(matches!(start_proxy(None, query("movie", "x"), &keys()), ProxyStep::Refuse(ProxyError::BadRequest)));
    assert!(matches!(start_proxy(Some("imdb"), query("movie", "x"), &keys()), ProxyStep::Refuse(ProxyError::BadRequest)));
    assert!(matches!(start_proxy(Some("tmdb"), None, &keys()), ProxyStep::Refuse(ProxyError::BadRequest)));
    assert_eq!(ProxyError::BadRequest.status(), 400);
    assert_eq!(ProxyError::BadGateway.status(), 502);
}

#[test]
fn movies_and_books_are_searched_at_once() {
    match start_proxy(Some("tmdb"), query("tv", "dark"), &keys()) {
        ProxyStep::Send { request, then } => {
            assert_eq!(request.url, "https://api.themoviedb.org/3/search/tv?query=dark&api_key=TK");
            assert!(matches!(then, ProxyPending::Answer));
        }
        _ => panic!("a request must be sent"),
    }
    match start_proxy(Some("isbn"), query("book", "dune messiah"), &keys()) {
        ProxyStep::Send { request, then } => {
            assert!(request.url.starts_with("https://openlibrary.org/search.json?title=dune+messiah&"));
            assert!(matches!(then, ProxyPending::Answer));
        }
        _ => panic!("a request must be sent"),
    }
}

#[test]
fn games_are_searched_in_two_steps() {
    let pending = match start_proxy(Some("igdb"), query("game", "celeste"), &keys()) {
        ProxyStep::Send { request, then } => {
            assert_eq!(request.method, Method::Post);
            assert!(request.url.starts_with("https://id.twitch.tv/oauth2/token?client_id=IC&"));
            then
        }
        _ => panic!("the token must be asked for"),
    };
    let token_answer = Fetched::Response {
        status: 200,
        body: String::from("{\"access_token\":\"abc123\",\"expires_in\":5000,\"token_type\":\"bearer\"}"),
    };
    let pending = match resume_proxy(pending, token_answer, &keys()) {
        ProxyStep::Send { request, then } => {
            assert_eq!(request.url, "https://api.igdb.com/v4/games");
            assert_eq!(request.headers[2].value, "Bearer abc123");
            assert_eq!(request.body, Some(String::from("fields name,cover.url,id; search \"celeste\";")));
            then
        }
        _ => panic!("the search must follow the token"),
    };
    let answer = Fetched::Response { status: 200, body: String::from("[{\"id\":1}]") };
    match resume_proxy(pending, answer, &keys()) {
        ProxyStep::Reply(body) => assert_eq!(body, "[{\"id\":1}]"),
        _ => panic!("the answer must be handed back"),
    }
}

#[test]
fn upstream_failures_are_bad_gateways() {
    assert!(matches!(
        resume_proxy(ProxyPending::Answer, Fetched::Failed, &keys()),
        ProxyStep::Refuse(ProxyError::BadGateway)
    ));
    assert!(matches!(
        resume_proxy(ProxyPending::Token { query: String::from("q") }, Fetched::Failed, &keys()),
        ProxyStep::Refuse(ProxyError::BadGateway)
    ));
    for body in ["{}", "{\"access_token\":5}", "nope"] {
        assert!(matches!(
            resume_proxy(
                ProxyPending::Token { query: String::from("q") },
                Fetched::Response { status: 200, body: body.to_string() },
                &keys()
            ),
            ProxyStep::Refuse(ProxyError::BadGateway)
        ));
    }
    assert!(matches!(
        continue_proxy(
            ProxyPending::Token { query: String::from("q") },
            Fetched::Response { status: 200, body: String::new() },
            None,
            &keys()
        ),
        ProxyStep::Refuse(ProxyError::BadGateway)
    ));
}

#[test]
fn an_answer_is_passed_through_whatever_its_status() {
    match resume_proxy(ProxyPending::Answer, Fetched::Response { status: 404, body: String::from("{\"e\":1}") }, &keys()) {
        ProxyStep::Reply(body) => assert_eq!(body, "{\"e\":1}"),
        _ => panic!("the answer must be handed back"),
    }
}
