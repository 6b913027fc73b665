//! The credential gate: the session cookie that admits a request, and the
//! login that mints it.

use crate::fields::{find_last, last_value, pairs_of, text_of, Field};
use crate::http::Method;
use crate::text::str_eq;
use sha2::{Digest, Sha256};
use vstd::prelude::*;
use vstd::string::*;

verus! {

/// The SHA-256 digest of a text's UTF-8 bytes, in lower-case hexadecimal.
pub uninterp spec fn sha256_hex(text: Seq<char>) -> Seq<char>;

/// The cookies that `cookie::Cookie::split_parse` reads from the value of a
/// `Cookie` header, in the order of the header: for each piece between
/// semicolons that is not blank, the cookie's name and value, or `None`
/// where the piece is no cookie.
pub uninterp spec fn header_cookies(header: Seq<char>) -> Seq<Option<(Seq<char>, Seq<char>)>>;

/// The `Set-Cookie` header value that the cookie crate writes for a cookie
/// with the given name, value, path, flags and expiry (seconds since the
/// start of 1970, none for a cookie that ends with the session).
pub uninterp spec fn set_cookie_text(
    name: Seq<char>,
    value: Seq<char>,
    path: Seq<char>,
    secure: bool,
    http_only: bool,
    same_site: SameSite,
    expires_at: Option<i64>,
) -> Seq<char>;

/// Feeds the text's bytes to `sha2::Sha256` and formats the digest with
/// `{:x}`. Trusted: the result is the named `sha256_hex`.
#[verifier::external_body]
fn hash_hex(text: &str) -> (r: String)
    ensures
        r@ == sha256_hex(text@),
{
    let mut hasher = Sha256::new();
    hasher.update(text);
    format!("{:x}", hasher.finalize())
}

/// Walks what `cookie::Cookie::split_parse` yields and takes each cookie's
/// name and value. Trusted: the result is the named `header_cookies`.
#[verifier::external_body]
fn split_cookies(header: &str) -> (r: Vec<Option<(String, String)>>)
    ensures
        cookies_text(r@) == header_cookies(header@),
{
    let mut out = Vec::new();
    for piece in cookie::Cookie::split_parse(header) {
        out.push(
            match piece {
                Ok(parsed) => Some((parsed.name().to_owned(), parsed.value().to_owned())),
                Err(_) => None,
            },
        );
    }
    out
}

/// Builds the cookie with `cookie::Cookie::build` and formats it with its
/// `Display` impl. Trusted: the result is the named `set_cookie_text`. The
/// demand keeps the expiry between 1970 and the end of the year 9999: the
/// crate writes no later year, and no session of this library starts
/// earlier.
#[verifier::external_body]
fn render_cookie(c: &SessionCookie) -> (r: String)
    requires
        c.expires_at matches Some(t) ==> 0 <= t <= LAST_EXPIRY,
    ensures
        r@ == set_cookie_text(
            c.name@,
            c.value@,
            c.path@,
            c.secure,
            c.http_only,
            c.same_site,
            c.expires_at,
        ),
{
    let same_site = match c.same_site {
        SameSite::Strict => cookie::SameSite::Strict,
        SameSite::Lax => cookie::SameSite::Lax,
        SameSite::Unrestricted => cookie::SameSite::None,
    };
    let expires = match c.expires_at {
        Some(t) => cookie::time::OffsetDateTime::from_unix_timestamp(t).ok(),
        None => None,
    };
    cookie::Cookie::build((c.name.clone(), c.value.clone())).path(c.path.clone()).secure(
        c.secure,
    ).http_only(c.http_only).same_site(same_site).expires(expires).build().to_string()
}

/// A parsed cookie as character sequences.
pub open spec fn pair_text(pair: Option<(String, String)>) -> Option<(Seq<char>, Seq<char>)> {
    match pair {
        Some((name, value)) => Some((name@, value@)),
        None => None,
    }
}

/// The cookies of a header as character sequences.
pub open spec fn cookies_text(cookies: Seq<Option<(String, String)>>) -> Seq<
    Option<(Seq<char>, Seq<char>)>,
> {
    cookies.map_values(|c: Option<(String, String)>| pair_text(c))
}

/// The `SameSite` attribute of a cookie.
#[derive(Clone, Copy, Debug, PartialEq, Eq, Structural)]
pub enum SameSite {
    Strict,
    Lax,
    /// Written as `SameSite=None`.
    Unrestricted,
}

/// The cookie that carries the session credential.
pub struct SessionCookie {
    pub name: String,
    pub value: String,
    pub path: String,
    pub secure: bool,
    pub http_only: bool,
    pub same_site: SameSite,
    /// When the cookie expires, in seconds since the start of 1970; none for
    /// a cookie that ends with the browser session.
    pub expires_at: Option<i64>,
}

/// How long a session lasts: thirty days, in seconds.
pub const SESSION_SECONDS: i64 = 2592000;

/// The last second of the year 9999, the latest expiry a cookie can carry.
pub const LAST_EXPIRY: i64 = 253402300799;

/// The name of the session cookie.
pub open spec fn session_cookie_name() -> Seq<char> {
    "password"@
}

/// The path that the session cookie is scoped to.
pub open spec fn session_cookie_path() -> Seq<char> {
    "/catalogue/add"@
}

/// When a session that starts at `now` expires: thirty days on, as long as
/// both moments lie between 1970 and the end of the year 9999.
pub open spec fn expiry_of(now: i64) -> Option<i64> {
    if 0 <= now && now + SESSION_SECONDS <= LAST_EXPIRY {
        Some((now + SESSION_SECONDS) as i64)
    } else {
        None
    }
}

/// Whether `c` is the session cookie for `credential` minted at `now`: named
/// for the session, carrying the credential, scoped to the add path, `Secure`,
/// `HttpOnly`, `SameSite=Strict`, expiring thirty days on.
pub open spec fn is_session_cookie(c: SessionCookie, credential: Seq<char>, now: i64) -> bool {
    &&& c.name@ == session_cookie_name()
    &&& c.value@ == credential
    &&& c.path@ == session_cookie_path()
    &&& c.secure
    &&& c.http_only
    &&& c.same_site == SameSite::Strict
    &&& c.expires_at == expiry_of(now)
}

/// Whether a cookie is named for the session.
pub open spec fn is_session_pair(pair: Option<(Seq<char>, Seq<char>)>) -> bool {
    pair matches Some((name, _)) && name == session_cookie_name()
}

/// The value of the first cookie that is named for the session.
pub open spec fn session_value(cookies: Seq<Option<(Seq<char>, Seq<char>)>>) -> Option<Seq<char>>
    decreases cookies.len(),
{
    if cookies.len() == 0 {
        None
    } else if is_session_pair(cookies[0]) {
        let (_, value) = cookies[0].unwrap();
        Some(value)
    } else {
        session_value(cookies.drop_first())
    }
}

/// Whether the cookies of a header admit a request: the header carries a
/// cookie named for the session, wherever among the others, and the value of
/// the first such cookie is the configured credential, character for
/// character.
pub open spec fn admits(cookies: Seq<Option<(Seq<char>, Seq<char>)>>, configured: Seq<char>) -> bool {
    session_value(cookies) == Some(configured)
}

/// Whether a request's `Cookie` header admits it.
pub open spec fn header_admits(header: Option<Seq<char>>, configured: Seq<char>) -> bool {
    match header {
        Some(h) => admits(header_cookies(h), configured),
        None => false,
    }
}

/// The message shown with a login form that refuses.
#[derive(Clone, Copy, Debug, PartialEq, Eq, Structural)]
pub enum LoginMessage {
    InvalidPassword,
    InvalidForm,
    InvalidRequest,
}

/// The text of a login message.
pub open spec fn message_text(m: LoginMessage) -> Seq<char> {
    match m {
        LoginMessage::InvalidPassword => "Invalid password"@,
        LoginMessage::InvalidForm => "Invalid form"@,
        LoginMessage::InvalidRequest => "Invalid request"@,
    }
}

impl LoginMessage {
    /// The text of the message.
    pub fn text(&self) -> (s: &'static str)
        ensures
            s@ == message_text(*self),
    {
        match self {
            LoginMessage::InvalidPassword => "Invalid password",
            LoginMessage::InvalidForm => "Invalid form",
            LoginMessage::InvalidRequest => "Invalid request",
        }
    }
}

/// The answer to a request that carries no valid session.
pub enum Login {
    /// Answer 401 with the login form, and a message unless the form was
    /// only asked for.
    Form(Option<LoginMessage>),
    /// The password was right: answer with this cookie set.
    Granted(SessionCookie),
}

/// What a login attempt leads to, given the request's method and the digest
/// of the submitted password, if the form carried a password at all.
pub open spec fn login_of(method: Method, digest: Option<Seq<char>>, configured: Seq<char>) -> Option<
    LoginMessage,
> {
    match method {
        Method::Get => None,
        Method::Post => match digest {
            None => Some(LoginMessage::InvalidForm),
            Some(d) => if d == configured {
                None
            } else {
                Some(LoginMessage::InvalidPassword)
            },
        },
        _ => Some(LoginMessage::InvalidRequest),
    }
}

/// Whether a login attempt is granted: a `POST` whose password digests to the
/// configured credential.
pub open spec fn login_granted(method: Method, digest: Option<Seq<char>>, configured: Seq<char>) -> bool {
    method == Method::Post && digest == Some(configured)
}

/// Whether `r` is the right answer to a login attempt.
pub open spec fn is_login_of(
    r: Login,
    method: Method,
    digest: Option<Seq<char>>,
    configured: Seq<char>,
    now: i64,
) -> bool {
    match r {
        Login::Granted(c) => login_granted(method, digest, configured) && is_session_cookie(
            c,
            configured,
            now,
        ),
        Login::Form(m) => !login_granted(method, digest, configured) && m == login_of(
            method,
            digest,
            configured,
        ),
    }
}

/// The digest of the password that a login form carries, if it carries one.
pub open spec fn submitted_digest(pairs: Seq<(Seq<char>, Seq<char>)>) -> Option<Seq<char>> {
    match last_value(pairs, "password"@) {
        Some(p) => Some(sha256_hex(p)),
        None => None,
    }
}

/// The session credential of a password: its SHA-256 digest in hexadecimal.
pub fn hash_password(password: &str) -> (r: String)
    ensures
        r@ == sha256_hex(password@),
{
    hash_hex(password)
}

/// Whether the cookies of a header admit a request.
pub fn cookies_admit(cookies: &Vec<Option<(String, String)>>, configured: &str) -> (r: bool)
    ensures
        r == admits(cookies_text(cookies@), configured@),
{
    let ghost all = cookies_text(cookies@);
    let mut i: usize = 0;
    assert(all.subrange(0, all.len() as int) =~= all);
    while i < cookies.len()
        invariant
            i <= cookies.len(),
            all == cookies_text(cookies@),
            session_value(all) == session_value(all.subrange(i as int, all.len() as int)),
        decreases cookies.len() - i,
    {
        let ghost rest = all.subrange(i as int, all.len() as int);
        assert(rest[0] == pair_text(cookies@[i as int]));
        assert(rest.drop_first() =~= all.subrange(i + 1, all.len() as int));
        match &cookies[i] {
            Some((name, value)) => {
                if str_eq(name.as_str(), "password") {
                    return str_eq(value.as_str(), configured);
                }
            },
            None => {},
        }
        i += 1;
    }
    false
}

/// Whether a request's `Cookie` header carries a valid session.
pub fn session_is_valid(header: Option<&str>, configured: &str) -> (r: bool)
    ensures
        r == header_admits(
            match header {
                Some(h) => Some(h@),
                None => None,
            },
            configured@,
        ),
{
    match header {
        Some(h) => {
            let cookies = split_cookies(h);
            cookies_admit(&cookies, configured)
        },
        None => false,
    }
}

/// The session cookie for a credential, minted at `now` (seconds since the
/// start of 1970).
pub fn session_cookie(credential: &str, now: i64) -> (c: SessionCookie)
    ensures
        is_session_cookie(c, credential@, now),
{
    let expires_at = if 0 <= now && now <= LAST_EXPIRY - SESSION_SECONDS {
        Some(now + SESSION_SECONDS)
    } else {
        None
    };
    SessionCookie {
        name: String::from_str("password"),
        value: String::from_str(credential),
        path: String::from_str("/catalogue/add"),
        secure: true,
        http_only: true,
        same_site: SameSite::Strict,
        expires_at,
    }
}

/// Decides a login attempt from the request's method and the digest of the
/// submitted password.
pub fn decide_login(method: Method, digest: Option<String>, configured: &str, now: i64) -> (r:
    Login)
    ensures
        is_login_of(r, method, text_of(digest), configured@, now),
{
    match method {
        Method::Get => Login::Form(None),
        Method::Post => match digest {
            None => Login::Form(Some(LoginMessage::InvalidForm)),
            Some(d) => {
                if str_eq(d.as_str(), configured) {
                    Login::Granted(session_cookie(configured, now))
                } else {
                    Login::Form(Some(LoginMessage::InvalidPassword))
                }
            },
        },
        _ => Login::Form(Some(LoginMessage::InvalidRequest)),
    }
}

/// Handles a request that carries no valid session: a `GET` is shown the
/// login form; a `POST` is a login attempt, granted if the `password` field
/// of its form digests to the configured credential; any other method is
/// refused.
pub fn manage_login(method: Method, fields: &Vec<Field>, configured: &str, now: i64) -> (r: Login)
    ensures
        is_login_of(r, method, submitted_digest(pairs_of(fields@)), configured@, now),
{
    let digest = match find_last(fields, "password") {
        Some(p) => Some(hash_password(p.as_str())),
        None => None,
    };
    decide_login(method, digest, configured, now)
}

impl SessionCookie {
    /// Whether the cookie's expiry is one that a header can carry.
    pub open spec fn renderable(&self) -> bool {
        self.expires_at matches Some(t) ==> 0 <= t <= LAST_EXPIRY
    }

    /// The `Set-Cookie` header value for the cookie; `None` for an expiry
    /// outside the years 1970 to 9999.
    pub fn header_value(&self) -> (r: Option<String>)
        ensures
            r is Some <==> self.renderable(),
            r matches Some(s) ==> s@ == set_cookie_text(
                self.name@,
                self.value@,
                self.path@,
                self.secure,
                self.http_only,
                self.same_site,
                self.expires_at,
            ),
    {
        let fits = match self.expires_at {
            Some(t) => 0 <= t && t <= LAST_EXPIRY,
            None => true,
        };
        if fits {
            Some(render_cookie(self))
        } else {
            None
        }
    }
}

} // verus!
