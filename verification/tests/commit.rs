use erika_catalogue::commit::{
    commit_message, commit_request, decide_commit, frame_commit_body, headers_for, probe_request,
    read_commit_response, url_for, CommitFailureKind, Store,
};
use erika_catalogue::http::{Fetched, Method};

fn store() -> Store {
    Store { repo: String::from("Princesseuh/erika.florist"), token: String::from("t0ken") }
}

fn pairs(headers: &[erika_catalogue::http::Header]) -> Vec<(String, String)> {
    headers.iter().map(|h| (h.name.clone(), h.value.clone())).collect()
}

fn pair(name: &str, value: &str) -> (String, String) {
    (name.to_string(), value.to_string())
}

#[test]
fn commit_messages_carry_the_marker() {
    assert_eq!(commit_message("Arrival", false), "content(catalogue): Add Arrival [auto]");
    assert_eq!(commit_message("Arrival", true), "content(catalogue): Add Arrival [skip ci]");
}

#[test]
fn store_requests_carry_the_api_headers() {
    assert_eq!(
        pairs(&headers_for(&store())),
        vec![
            pair("Accept", "application/vnd.github+json"),
            pair("User-Agent", "erika-florist-backend"),
            pair("Authorization", "Bearer t0ken"),
            pair("X-GitHub-Api-Version", "2022-11-28"),
        ]
    );
    assert_eq!(
        url_for(&store(), "movies/arrival/arrival.md"),
        "https://api.github.com/repos/Princesseuh/erika.florist/contents/crates/website/content/movies/arrival/arrival.md"
    );
}

#[test]
fn the_probe_is_a_get_without_body() {
    let r = probe_request(&store(), "movies/arrival/arrival.md");
    assert_eq!(r.method, Method::Get);
    assert_eq!(r.url, url_for(&store(), "movies/arrival/arrival.md"));
    assert_eq!(pairs(&r.headers), pairs(&headers_for(&store())));
    assert_eq!(r.body, None);
}

#[test]
fn the_commit_is_a_put_with_the_document_in_base64() {
    let r = commit_request(&store(), "movies/arrival/arrival.md", "hello", "Arr\"ival", false);
    assert_eq!(r.method, Method::Put);
    assert_eq!(r.url, url_for(&store(), "movies/arrival/arrival.md"));
    let mut expected = pairs(&headers_for(&store()));
    expected.push(pair("Content-Type", "application/json"));
    assert_eq!(pairs(&r.headers), expected);
    assert_eq!(
        r.body,
        Some(String::from(
            "{\"message\":\"content(catalogue): Add Arr\\\"ival [auto]\",\"content\":\"aGVsbG8=\",\"committer\":{\"name\":\"Princesseuh\",\"email\":\"3019731+Princesseuh@users.noreply.github.com\"}}"
        ))
    );
    let parsed: serde_json::Value = serde_json::from_str(r.body.as_ref().unwrap()).unwrap();
    assert_eq!(parsed.pointer("/message").unwrap().as_str(), Some("content(catalogue): Add Arr\"ival [auto]"));
    assert_eq!(parsed.pointer("/committer/name").unwrap().as_str(), Some("Princesseuh"));
}

#[test]
fn base64_has_padding_and_the_standard_alphabet() {
    let r = commit_request(&store(), "p", "\u{fb}\u{ff}?", "n", true);
    let parsed: serde_json::Value = serde_json::from_str(r.body.as_ref().unwrap()).unwrap();
    assert_eq!(parsed.pointer("/content").unwrap().as_str(), Some("w7vDvz8="));
    let r = commit_request(&store(), "p", "", "n", true);
    let parsed: serde_json::Value = serde_json::from_str(r.body.as_ref().unwrap()).unwrap();
    assert_eq!(parsed.pointer("/content").unwrap().as_str(), Some(""));
    assert_eq!(parsed.pointer("/message").unwrap().as_str(), Some("content(catalogue): Add n [skip ci]"));
}

#[test]
fn the_body_is_framed_round_its_literals() {
    assert_eq!(
        frame_commit_body("\"m\"", "\"c\"", "\"n\"", "\"e\""),
        "{\"message\":\"m\",\"content\":\"c\",\"committer\":{\"name\":\"n\",\"email\":\"e\"}}"
    );
}

fn response(status: u16, body: &str) -> Fetched {
    Fetched::Response { status, body: body.to_string() }
}

#[test]
fn a_successful_answer_gives_the_commit_url() {
    let body = "{\"content\":{},\"commit\":{\"sha\":\"abc\",\"html_url\":\"https://github.com/o/r/commit/abc\"}}";
    assert_eq!(
        read_commit_response(&response(201, body)).ok(),
        Some(String::from("https://github.com/o/r/commit/abc"))
    );
    assert_eq!(
        read_commit_response(&response(200, body)).ok(),
        Some(String::from("https://github.com/o/r/commit/abc"))
    );
}

#[test]
fn failures_carry_the_raw_body() {
    let f = read_commit_response(&Fetched::Failed).err().unwrap();
    assert_eq!(f.kind, CommitFailureKind::Transport);
    assert_eq!(f.body, "");

    let f = read_commit_response(&response(422, "{\"message\":\"Invalid request\"}")).err().unwrap();
    assert_eq!(f.kind, CommitFailureKind::Rejected);
    assert_eq!(f.body, "{\"message\":\"Invalid request\"}");

    let with_url = "{\"commit\":{\"html_url\":\"https://x\"}}";
    let f = read_commit_response(&response(500, with_url)).err().unwrap();
    assert_eq!(f.kind, CommitFailureKind::Rejected);
    assert_eq!(f.body, with_url);

    for body in ["{\"commit\":{}}", "{\"commit\":{\"html_url\":5}}", "{}", "[]", "not json", "", "{\"html_url\":\"https://x\"}"] {
        let f = read_commit_response(&response(200, body)).err().unwrap();
        assert_eq!(f.kind, CommitFailureKind::NoCommitUrl, "{}", body);
        assert_eq!(f.body, body);
    }
}

#[test]
fn the_outcome_is_decided_from_answer_and_url() {
    assert_eq!(decide_commit(&response(200, "b"), Some(String::from("u"))).ok(), Some(String::from("u")));
    assert_eq!(
        decide_commit(&response(404, "b"), Some(String::from("u"))).err().unwrap().kind,
        CommitFailureKind::Rejected
    );
    assert_eq!(
        decide_commit(&Fetched::Failed, Some(String::from("u"))).err().unwrap().kind,
        CommitFailureKind::Transport
    );
    assert_eq!(
        decide_commit(&response(299, "b"), None).err().unwrap().kind,
        CommitFailureKind::NoCommitUrl
    );
}
