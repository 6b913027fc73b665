//! The content commit client: the requests that probe the content store for
//! an entry and that commit a new one, and the reading of the store's answer.

use crate::fields::text_of;
use crate::http::{header_pairs, is_success, Fetched, Header, HttpRequest, Method, RequestText};
use crate::json::{json_literal, json_text_at, quote, text_at};
use vstd::prelude::*;
use vstd::string::*;

verus! {

/// The content store: which repository, and the token that may write to it.
pub struct Store {
    /// The repository as `owner/name`.
    pub repo: String,
    pub token: String,
}

/// The standard Base64 encoding, with padding, of a text's UTF-8 bytes, as the
/// base64 crate's `STANDARD` engine gives it.
pub uninterp spec fn base64_of(text: Seq<char>) -> Seq<char>;

/// Calls `base64::engine::general_purpose::STANDARD.encode` on the bytes of
/// `text`. Trusted: the result is the named `base64_of`. The call fails only
/// on an input longer than three quarters of `usize::MAX` bytes, which no
/// string slice is.
#[verifier::external_body]
fn base64_encode(text: &str) -> (r: String)
    ensures
        r@ == base64_of(text@),
{
    base64::Engine::encode(&base64::engine::general_purpose::STANDARD, text)
}

/// The committer's name on every commit.
pub open spec fn committer_name() -> Seq<char> {
    "Princesseuh"@
}

/// The committer's address on every commit.
pub open spec fn committer_email() -> Seq<char> {
    "3019731+Princesseuh@users.noreply.github.com"@
}

/// The message of the commit that adds `name`: marked `[skip ci]` to keep the
/// site from deploying, `[auto]` otherwise.
pub open spec fn message_of(name: Seq<char>, skip_ci: bool) -> Seq<char> {
    "content(catalogue): Add "@ + name + (if skip_ci {
        " [skip ci]"@
    } else {
        " [auto]"@
    })
}

/// The address of a file in the content store's Contents API.
pub open spec fn contents_url(repo: Seq<char>, path: Seq<char>) -> Seq<char> {
    "https://api.github.com/repos/"@ + repo + "/contents/crates/website/content/"@ + path
}

/// The headers of every request to the content store, before any that
/// describes a body.
pub open spec fn store_headers(token: Seq<char>) -> Seq<(Seq<char>, Seq<char>)> {
    seq![
        ("Accept"@, "application/vnd.github+json"@),
        ("User-Agent"@, "erika-florist-backend"@),
        ("Authorization"@, "Bearer "@ + token),
        ("X-GitHub-Api-Version"@, "2022-11-28"@),
    ]
}

/// The JSON body of a commit request, from the JSON literals of its four
/// texts.
pub open spec fn commit_body_of(
    message: Seq<char>,
    content: Seq<char>,
    name: Seq<char>,
    email: Seq<char>,
) -> Seq<char> {
    "{\"message\":"@ + message + ",\"content\":"@ + content + ",\"committer\":{\"name\":"@ + name
        + ",\"email\":"@ + email + "}}"@
}

/// The body of the request that commits `document` under the message for
/// `name`.
pub open spec fn commit_body(name: Seq<char>, skip_ci: bool, document: Seq<char>) -> Seq<char> {
    commit_body_of(
        json_literal(message_of(name, skip_ci)),
        json_literal(base64_of(document)),
        json_literal(committer_name()),
        json_literal(committer_email()),
    )
}

/// The request that asks the store whether the file at `path` exists.
pub open spec fn probe_request_of(store: Store, path: Seq<char>) -> RequestText {
    RequestText {
        method: Method::Get,
        url: contents_url(store.repo@, path),
        headers: store_headers(store.token@),
        body: None,
    }
}

/// The request that creates the file at `path` with `document` as its
/// content, under the commit message for `name`.
pub open spec fn commit_request_of(
    store: Store,
    path: Seq<char>,
    document: Seq<char>,
    name: Seq<char>,
    skip_ci: bool,
) -> RequestText {
    RequestText {
        method: Method::Put,
        url: contents_url(store.repo@, path),
        headers: store_headers(store.token@).push(("Content-Type"@, "application/json"@)),
        body: Some(commit_body(name, skip_ci, document)),
    }
}

/// The headers of a request to the content store.
pub fn headers_for(store: &Store) -> (r: Vec<Header>)
    ensures
        header_pairs(r@) == store_headers(store.token@),
{
    let mut bearer = String::from_str("Bearer ");
    bearer.append(store.token.as_str());
    let mut headers: Vec<Header> = Vec::new();
    headers.push(Header::new("Accept", String::from_str("application/vnd.github+json")));
    headers.push(Header::new("User-Agent", String::from_str("erika-florist-backend")));
    headers.push(Header::new("Authorization", bearer));
    headers.push(Header::new("X-GitHub-Api-Version", String::from_str("2022-11-28")));
    assert(header_pairs(headers@) =~= store_headers(store.token@));
    headers
}

/// The address of a file in the content store.
pub fn url_for(store: &Store, path: &str) -> (r: String)
    ensures
        r@ == contents_url(store.repo@, path@),
{
    let mut url = String::from_str("https://api.github.com/repos/");
    url.append(store.repo.as_str());
    url.append("/contents/crates/website/content/");
    url.append(path);
    assert(url@ =~= contents_url(store.repo@, path@));
    url
}

/// The request that asks the store whether a file exists.
pub fn probe_request(store: &Store, path: &str) -> (r: HttpRequest)
    ensures
        r@ == probe_request_of(*store, path@),
{
    HttpRequest {
        method: Method::Get,
        url: url_for(store, path),
        headers: headers_for(store),
        body: None,
    }
}

/// The message of the commit that adds `name`.
pub fn commit_message(name: &str, skip_ci: bool) -> (r: String)
    ensures
        r@ == message_of(name@, skip_ci),
{
    let mut message = String::from_str("content(catalogue): Add ");
    message.append(name);
    if skip_ci {
        message.append(" [skip ci]");
    } else {
        message.append(" [auto]");
    }
    assert(message@ =~= message_of(name@, skip_ci));
    message
}

/// Frames the JSON body of a commit request round the JSON literals of its
/// four texts.
pub fn frame_commit_body(message: &str, content: &str, name: &str, email: &str) -> (r: String)
    ensures
        r@ == commit_body_of(message@, content@, name@, email@),
{
    let mut body = String::from_str("{\"message\":");
    body.append(message);
    body.append(",\"content\":");
    body.append(content);
    body.append(",\"committer\":{\"name\":");
    body.append(name);
    body.append(",\"email\":");
    body.append(email);
    body.append("}}");
    assert(body@ =~= commit_body_of(message@, content@, name@, email@));
    body
}

/// The request that creates the file at `path` with `document` as its
/// content: a `PUT` whose JSON body carries the commit message, the document
/// in Base64 and the committer.
pub fn commit_request(store: &Store, path: &str, document: &str, name: &str, skip_ci: bool) -> (r:
    HttpRequest)
    ensures
        r@ == commit_request_of(*store, path@, document@, name@, skip_ci),
{
    let message = quote(commit_message(name, skip_ci).as_str());
    let content = quote(base64_encode(document).as_str());
    let committer = quote("Princesseuh");
    let email = quote("3019731+Princesseuh@users.noreply.github.com");
    let body = frame_commit_body(
        message.as_str(),
        content.as_str(),
        committer.as_str(),
        email.as_str(),
    );
    let mut headers = headers_for(store);
    let ghost before = headers@;
    headers.push(Header::new("Content-Type", String::from_str("application/json")));
    assert(header_pairs(headers@) =~= header_pairs(before).push(
        ("Content-Type"@, "application/json"@),
    ));
    HttpRequest { method: Method::Put, url: url_for(store, path), headers, body: Some(body) }
}

/// Why a commit did not happen.
#[derive(Clone, Copy, Debug, PartialEq, Eq, Structural)]
pub enum CommitFailureKind {
    /// No response arrived from the store.
    Transport,
    /// The store answered with a status outside 2xx.
    Rejected,
    /// The store answered with success, but its answer names no commit.
    NoCommitUrl,
}

/// A commit that did not happen, with the store's answer as it came.
pub struct CommitFailure {
    pub kind: CommitFailureKind,
    /// The raw body of the store's response; empty where none arrived.
    pub body: String,
}

/// The place of the commit's web address in the store's answer.
pub open spec fn commit_url_pointer() -> Seq<char> {
    "/commit/html_url"@
}

/// What a commit led to, as character sequences: the commit's web address,
/// or the kind of failure with the raw body.
pub open spec fn outcome_of(fetched: Fetched, url: Option<Seq<char>>) -> Result<
    Seq<char>,
    (CommitFailureKind, Seq<char>),
> {
    match fetched {
        Fetched::Failed => Err((CommitFailureKind::Transport, Seq::<char>::empty())),
        Fetched::Response { status, body } => if !is_success(status) {
            Err((CommitFailureKind::Rejected, body@))
        } else {
            match url {
                Some(u) => Ok(u),
                None => Err((CommitFailureKind::NoCommitUrl, body@)),
            }
        },
    }
}

/// The outcome of a commit as character sequences.
pub open spec fn outcome_text(r: Result<String, CommitFailure>) -> Result<
    Seq<char>,
    (CommitFailureKind, Seq<char>),
> {
    match r {
        Ok(url) => Ok(url@),
        Err(f) => Err((f.kind, f.body@)),
    }
}

/// Decides what a commit led to from the store's answer and the web address
/// found in it, if one was.
pub fn decide_commit(fetched: &Fetched, url: Option<String>) -> (r: Result<String, CommitFailure>)
    ensures
        outcome_text(r) == outcome_of(*fetched, text_of(url)),
{
    match fetched {
        Fetched::Failed => Err(
            CommitFailure { kind: CommitFailureKind::Transport, body: String::new() },
        ),
        Fetched::Response { status, body } => {
            if !(200 <= *status && *status < 300) {
                Err(CommitFailure { kind: CommitFailureKind::Rejected, body: body.clone() })
            } else {
                match url {
                    Some(u) => Ok(u),
                    None => Err(
                        CommitFailure { kind: CommitFailureKind::NoCommitUrl, body: body.clone() },
                    ),
                }
            }
        },
    }
}

/// The web address that a store's answer names, if it arrived.
pub open spec fn named_url(fetched: Fetched) -> Option<Seq<char>> {
    match fetched {
        Fetched::Failed => None,
        Fetched::Response { status, body } => json_text_at(body@, commit_url_pointer()),
    }
}

/// Reads the store's answer to a commit request: the commit's web address on
/// success; on a failed transport, a status outside 2xx, or an answer without
/// `commit.html_url`, the failure with the raw body.
pub fn read_commit_response(fetched: &Fetched) -> (r: Result<String, CommitFailure>)
    ensures
        outcome_text(r) == outcome_of(*fetched, named_url(*fetched)),
{
    let url = match fetched {
        Fetched::Failed => None,
        Fetched::Response { status, body } => text_at(body.as_str(), "/commit/html_url"),
    };
    decide_commit(fetched, url)
}

} // verus!
