//! The remote search proxy: which request a search becomes for each metadata
//! provider, and what is handed back.

use crate::fields::{find_first, first_value, pairs_of, text_of, Field};
use crate::http::{Fetched, Header, HttpRequest, Method, RequestText};
use crate::json::{json_text_at, text_at};
use crate::text::{chars_of, str_eq};
use vstd::prelude::*;
use vstd::string::*;

verus! {

/// The metadata providers that a search can be sent to.
#[derive(Clone, Copy, Debug, PartialEq, Eq, Structural)]
pub enum ProxySource {
    /// Movies and shows.
    Tmdb,
    /// Games.
    Igdb,
    /// Books.
    Isbn,
}

/// The provider that a value of the `x-proxy-source` header names.
pub open spec fn source_of_name(s: Seq<char>) -> Option<ProxySource> {
    if s == "tmdb"@ {
        Some(ProxySource::Tmdb)
    } else if s == "igdb"@ {
        Some(ProxySource::Igdb)
    } else if s == "isbn"@ {
        Some(ProxySource::Isbn)
    } else {
        None
    }
}

/// The two parameters of a search.
pub struct ProxyQuery {
    /// The `type` parameter: what kind of work is searched for.
    pub kind: String,
    pub query: String,
}

/// The credentials of the providers.
pub struct ProxyKeys {
    pub tmdb_key: String,
    pub igdb_key: String,
    pub igdb_client: String,
}

/// Why a search was refused.
#[derive(Clone, Copy, Debug, PartialEq, Eq, Structural)]
pub enum ProxyError {
    /// The source is missing or unknown, or a parameter is missing.
    BadRequest,
    /// The provider could not be reached or its answer could not be used.
    BadGateway,
}

/// The status code with which a refused search is answered.
pub open spec fn proxy_status(e: ProxyError) -> u16 {
    match e {
        ProxyError::BadRequest => 400,
        ProxyError::BadGateway => 502,
    }
}

/// What a search waits for after a request was sent.
pub enum ProxyPending {
    /// The access token of the games provider; the search follows.
    Token { query: String },
    /// The provider's answer to the search.
    Answer,
}

/// The next step of a search.
pub enum ProxyStep {
    /// Send the request and come back with what it fetched.
    Send { request: HttpRequest, then: ProxyPending },
    /// Hand the provider's answer back as JSON, as it came.
    Reply(String),
    /// Refuse the search.
    Refuse(ProxyError),
}

/// A text with every space replaced by `+`.
pub open spec fn plus_for_spaces(s: Seq<char>) -> Seq<char> {
    s.map_values(
        |c: char|
            if c == ' ' {
                '+'
            } else {
                c
            },
    )
}

/// The search request for movies and shows.
pub open spec fn tmdb_request_of(kind: Seq<char>, query: Seq<char>, key: Seq<char>) -> RequestText {
    RequestText {
        method: Method::Get,
        url: "https://api.themoviedb.org/3/search/"@ + kind + "?query="@ + query + "&api_key="@
            + key,
        headers: Seq::empty(),
        body: None,
    }
}

/// The request for an access token of the games provider.
pub open spec fn token_request_of(client: Seq<char>, key: Seq<char>) -> RequestText {
    RequestText {
        method: Method::Post,
        url: "https://id.twitch.tv/oauth2/token?client_id="@ + client + "&client_secret="@ + key
            + "&grant_type=client_credentials"@,
        headers: Seq::empty(),
        body: None,
    }
}

/// The search request for games.
pub open spec fn igdb_request_of(client: Seq<char>, token: Seq<char>, query: Seq<char>) -> RequestText {
    RequestText {
        method: Method::Post,
        url: "https://api.igdb.com/v4/games"@,
        headers: seq![
            ("Accept"@, "application/json"@),
            ("Client-ID"@, client),
            ("Authorization"@, "Bearer "@ + token),
        ],
        body: Some("fields name,cover.url,id; search \""@ + query + "\";"@),
    }
}

/// The search request for books.
pub open spec fn isbn_request_of(query: Seq<char>) -> RequestText {
    RequestText {
        method: Method::Get,
        url: "https://openlibrary.org/search.json?title="@ + plus_for_spaces(query)
            + "&fields=key,title,isbn,cover_i,editions,editions.isbn"@,
        headers: Seq::empty(),
        body: None,
    }
}

/// The place of the access token in the token endpoint's answer.
pub open spec fn token_pointer() -> Seq<char> {
    "/access_token"@
}

/// The parameters of a search as character sequences.
pub open spec fn query_text(q: Option<ProxyQuery>) -> Option<(Seq<char>, Seq<char>)> {
    match q {
        Some(p) => Some((p.kind@, p.query@)),
        None => None,
    }
}

/// The parameters that a query string holds: `type` and `query`, both needed.
pub open spec fn query_of(pairs: Seq<(Seq<char>, Seq<char>)>) -> Option<(Seq<char>, Seq<char>)> {
    match (first_value(pairs, "type"@), first_value(pairs, "query"@)) {
        (Some(kind), Some(query)) => Some((kind, query)),
        _ => None,
    }
}

impl ProxySource {
    /// The provider named `tmdb`, `igdb` or `isbn`.
    pub fn from_name(s: &str) -> (r: Option<ProxySource>)
        ensures
            r == source_of_name(s@),
    {
        if str_eq(s, "tmdb") {
            Some(ProxySource::Tmdb)
        } else if str_eq(s, "igdb") {
            Some(ProxySource::Igdb)
        } else if str_eq(s, "isbn") {
            Some(ProxySource::Isbn)
        } else {
            None
        }
    }
}

impl ProxyError {
    /// The status code with which the refusal is answered.
    pub fn status(&self) -> (r: u16)
        ensures
            r == proxy_status(*self),
    {
        match self {
            ProxyError::BadRequest => 400,
            ProxyError::BadGateway => 502,
        }
    }
}

impl ProxyQuery {
    /// Reads the parameters of a search off the pairs of a query string; of
    /// several pairs with one name the first counts.
    pub fn from(fields: &Vec<Field>) -> (r: Option<ProxyQuery>)
        ensures
            query_text(r) == query_of(pairs_of(fields@)),
    {
        match (find_first(fields, "type"), find_first(fields, "query")) {
            (Some(kind), Some(query)) => Some(ProxyQuery { kind, query }),
            _ => None,
        }
    }
}

/// Replaces every space of a text by `+`.
pub fn replace_spaces(s: &str) -> (r: String)
    ensures
        r@ == plus_for_spaces(s@),
{
    let v = chars_of(s);
    let mut out = String::new();
    let mut i: usize = 0;
    proof {
        reveal_strlit("+");
    }
    while i < v.len()
        invariant
            i <= v.len(),
            v@ == s@,
            out@ == plus_for_spaces(s@).take(i as int),
        decreases v.len() - i,
    {
        let ghost before = out@;
        if v[i] == ' ' {
            proof {
                reveal_strlit("+");
            }
            out.append("+");
            assert(out@ =~= before.push('+'));
        } else {
            out.append(s.substring_char(i, i + 1));
            assert(s@.subrange(i as int, i + 1) =~= seq![s@[i as int]]);
            assert(out@ =~= before.push(s@[i as int]));
        }
        assert(plus_for_spaces(s@).take(i + 1) =~= plus_for_spaces(s@).take(i as int).push(
            plus_for_spaces(s@)[i as int],
        ));
        i += 1;
    }
    assert(out@ =~= plus_for_spaces(s@));
    out
}

/// The search request for movies and shows.
pub fn tmdb_request(kind: &str, query: &str, key: &str) -> (r: HttpRequest)
    ensures
        r@ == tmdb_request_of(kind@, query@, key@),
{
    let mut url = String::from_str("https://api.themoviedb.org/3/search/");
    url.append(kind);
    url.append("?query=");
    url.append(query);
    url.append("&api_key=");
    url.append(key);
    let r = HttpRequest { method: Method::Get, url, headers: Vec::new(), body: None };
    assert(r@.url =~= tmdb_request_of(kind@, query@, key@).url);
    assert(r@.headers =~= Seq::empty());
    r
}

/// The request for an access token of the games provider.
pub fn token_request(client: &str, key: &str) -> (r: HttpRequest)
    ensures
        r@ == token_request_of(client@, key@),
{
    let mut url = String::from_str("https://id.twitch.tv/oauth2/token?client_id=");
    url.append(client);
    url.append("&client_secret=");
    url.append(key);
    url.append("&grant_type=client_credentials");
    let r = HttpRequest { method: Method::Post, url, headers: Vec::new(), body: None };
    assert(r@.url =~= token_request_of(client@, key@).url);
    assert(r@.headers =~= Seq::empty());
    r
}

/// The search request for games, made with an access token.
pub fn igdb_request(client: &str, token: &str, query: &str) -> (r: HttpRequest)
    ensures
        r@ == igdb_request_of(client@, token@, query@),
{
    let mut bearer = String::from_str("Bearer ");
    bearer.append(token);
    let mut headers: Vec<Header> = Vec::new();
    headers.push(Header::new("Accept", String::from_str("application/json")));
    headers.push(Header::new("Client-ID", String::from_str(client)));
    headers.push(Header::new("Authorization", bearer));
    let mut body = String::from_str("fields name,cover.url,id; search \"");
    body.append(query);
    body.append("\";");
    let r = HttpRequest {
        method: Method::Post,
        url: String::from_str("https://api.igdb.com/v4/games"),
        headers,
        body: Some(body),
    };
    assert(r@.headers =~= igdb_request_of(client@, token@, query@).headers);
    assert(r@.body->0 =~= igdb_request_of(client@, token@, query@).body->0);
    r
}

/// The search request for books.
pub fn isbn_request(query: &str) -> (r: HttpRequest)
    ensures
        r@ == isbn_request_of(query@),
{
    let mut url = String::from_str("https://openlibrary.org/search.json?title=");
    let title = replace_spaces(query);
    url.append(title.as_str());
    url.append("&fields=key,title,isbn,cover_i,editions,editions.isbn");
    let r = HttpRequest { method: Method::Get, url, headers: Vec::new(), body: None };
    assert(r@.url =~= isbn_request_of(query@).url);
    assert(r@.headers =~= Seq::empty());
    r
}

/// Whether `step` begins the search rightly: a missing or unknown source, or
/// a query without its two parameters, is a bad request; movies, shows and
/// books are searched at once; a games search first asks for an access token.
pub open spec fn is_start_of(
    step: ProxyStep,
    source: Option<Seq<char>>,
    query: Option<(Seq<char>, Seq<char>)>,
    keys: ProxyKeys,
) -> bool {
    let provider = match source {
        Some(s) => source_of_name(s),
        None => None,
    };
    if provider is None || query is None {
        step matches ProxyStep::Refuse(e) && e == ProxyError::BadRequest
    } else {
        let (kind, text) = query.unwrap();
        match provider.unwrap() {
            ProxySource::Tmdb => step matches ProxyStep::Send { request, then } && then is Answer
                && request@ == tmdb_request_of(kind, text, keys.tmdb_key@),
            ProxySource::Igdb => step matches ProxyStep::Send { request, then } && (then matches ProxyPending::Token {
                query: q,
            } && q@ == text) && request@ == token_request_of(
                keys.igdb_client@,
                keys.igdb_key@,
            ),
            ProxySource::Isbn => step matches ProxyStep::Send { request, then } && then is Answer
                && request@ == isbn_request_of(text),
        }
    }
}

/// Begins a search: decides from the `x-proxy-source` header and the query's
/// parameters which request to send first.
pub fn start_proxy(source: Option<&str>, query: Option<ProxyQuery>, keys: &ProxyKeys) -> (step:
    ProxyStep)
    ensures
        is_start_of(
            step,
            match source {
                Some(s) => Some(s@),
                None => None,
            },
            query_text(query),
            *keys,
        ),
{
    let provider = match source {
        Some(s) => ProxySource::from_name(s),
        None => None,
    };
    match (provider, query) {
        (Some(ProxySource::Tmdb), Some(q)) => ProxyStep::Send {
            request: tmdb_request(q.kind.as_str(), q.query.as_str(), keys.tmdb_key.as_str()),
            then: ProxyPending::Answer,
        },
        (Some(ProxySource::Igdb), Some(q)) => ProxyStep::Send {
            request: token_request(keys.igdb_client.as_str(), keys.igdb_key.as_str()),
            then: ProxyPending::Token { query: q.query },
        },
        (Some(ProxySource::Isbn), Some(q)) => ProxyStep::Send {
            request: isbn_request(q.query.as_str()),
            then: ProxyPending::Answer,
        },
        _ => ProxyStep::Refuse(ProxyError::BadRequest),
    }
}

/// Whether `step` goes on rightly after `fetched` came back: without a
/// response the gateway is bad; a provider's answer is handed back as it came;
/// a token answer leads to the games search, or to a bad gateway if it holds
/// no access token.
pub open spec fn is_next_of(
    step: ProxyStep,
    pending: ProxyPending,
    fetched: Fetched,
    token: Option<Seq<char>>,
    keys: ProxyKeys,
) -> bool {
    match fetched {
        Fetched::Failed => step matches ProxyStep::Refuse(e) && e == ProxyError::BadGateway,
        Fetched::Response { status, body } => match pending {
            ProxyPending::Answer => step matches ProxyStep::Reply(text) && text == body,
            ProxyPending::Token { query } => match token {
                Some(t) => step matches ProxyStep::Send { request, then } && then is Answer
                    && request@ == igdb_request_of(keys.igdb_client@, t, query@),
                None => step matches ProxyStep::Refuse(e) && e == ProxyError::BadGateway,
            },
        },
    }
}

/// Goes on with a search, given the access token found in what came back, if
/// one was.
pub fn continue_proxy(
    pending: ProxyPending,
    fetched: Fetched,
    token: Option<String>,
    keys: &ProxyKeys,
) -> (step: ProxyStep)
    ensures
        is_next_of(step, pending, fetched, text_of(token), *keys),
{
    match fetched {
        Fetched::Failed => ProxyStep::Refuse(ProxyError::BadGateway),
        Fetched::Response { status, body } => match pending {
            ProxyPending::Answer => ProxyStep::Reply(body),
            ProxyPending::Token { query } => match token {
                Some(t) => ProxyStep::Send {
                    request: igdb_request(keys.igdb_client.as_str(), t.as_str(), query.as_str()),
                    then: ProxyPending::Answer,
                },
                None => ProxyStep::Refuse(ProxyError::BadGateway),
            },
        },
    }
}

/// The access token that a token answer holds.
pub open spec fn token_in(pending: ProxyPending, fetched: Fetched) -> Option<Seq<char>> {
    match (pending, fetched) {
        (ProxyPending::Token { .. }, Fetched::Response { status, body }) => json_text_at(
            body@,
            token_pointer(),
        ),
        _ => None,
    }
}

/// Goes on with a search after a request was answered.
pub fn resume_proxy(pending: ProxyPending, fetched: Fetched, keys: &ProxyKeys) -> (step: ProxyStep)
    ensures
        is_next_of(step, pending, fetched, token_in(pending, fetched), *keys),
{
    let token = match (&pending, &fetched) {
        (ProxyPending::Token { .. }, Fetched::Response { status, body }) => text_at(
            body.as_str(),
            "/access_token",
        ),
        _ => None,
    };
    continue_proxy(pending, fetched, token, keys)
}

} // verus!
