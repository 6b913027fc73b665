//! The catalogue-add workflow: from a request to its answer, by way of the
//! credential gate, the slug allocator, the synthesizer and the commit
//! client. The workflow never sends anything itself: each step either
//! answers the request or names a request to send and what it waits for.

use crate::commit::{
    commit_request,
    commit_request_of,
    named_url,
    outcome_of,
    outcome_text,
    probe_request,
    probe_request_of,
    read_commit_response,
    CommitFailure,
    Store,
};
use crate::credential::{
    expiry_of,
    header_admits,
    login_granted,
    login_of,
    manage_login,
    session_cookie_name,
    session_cookie_path,
    session_is_valid,
    set_cookie_text,
    submitted_digest,
    Login,
    LoginMessage,
    SameSite,
};
use crate::fields::{decoded_pairs, pairs_of, parse_fields, text_of, Field};
use crate::form::{
    document_for,
    read_submission,
    status_of,
    submission_of,
    CatalogueForm,
    FormError,
};
use crate::http::{Fetched, HttpRequest, Method};
use crate::kind::ContentType;
use crate::proxy::{
    is_next_of,
    is_start_of,
    proxy_status,
    query_of,
    resume_proxy,
    start_proxy,
    token_in,
    ProxyError,
    ProxyKeys,
    ProxyPending,
    ProxyQuery,
    ProxyStep,
};
use crate::slug::{candidate, entry_path, path_of, probe_found, slug_of, SlugProbe, SlugStep};
use vstd::prelude::*;
use vstd::string::*;

verus! {

/// What the server is configured with.
pub struct Config {
    /// The session credential: the digest of the password.
    pub hashed_password: String,
    /// The password that every submission must carry.
    pub form_password: String,
    pub store: Store,
    pub keys: ProxyKeys,
}

/// What the workflow reads of a request.
pub struct Request {
    pub method: Method,
    /// The value of the `Cookie` header.
    pub cookie: Option<String>,
    /// The value of the `x-proxy-source` header.
    pub proxy_source: Option<String>,
    /// The query string, without its question mark.
    pub query: String,
    pub body: String,
}

/// What an answer shows.
pub enum Page {
    /// The login form, with a message unless it was only asked for.
    Login(Option<LoginMessage>),
    /// A page that reloads at once, now with the session cookie.
    LoggedIn,
    /// The add form.
    Form,
    /// The add form again, with the fault that refused the submission.
    Refused(FormError),
    /// The entry was committed: the commit's web address.
    Added { commit_url: String, kind: ContentType },
    /// The commit did not happen: the store's raw answer.
    Failed(CommitFailure),
    /// Every slug that the allocator could try is taken.
    NoFreeSlug,
    /// A provider's answer, handed back as JSON.
    Json(String),
    /// A search that was refused.
    ProxyRefused(ProxyError),
    NotFound,
}

/// The answer to a request.
pub struct Reply {
    pub status: u16,
    /// The value of a `Set-Cookie` header to send along.
    pub set_cookie: Option<String>,
    pub page: Page,
}

/// What the workflow waits for after it asked for a request to be sent.
pub enum Pending {
    /// Whether the current candidate of a slug search exists in the store.
    Probe { form: CatalogueForm, probe: SlugProbe },
    /// The store's answer to the commit.
    Commit { kind: ContentType },
    /// A provider's answer.
    Proxy(ProxyPending),
}

/// The next step of the workflow.
pub enum Step {
    /// Answer the request.
    Respond(Reply),
    /// Send the request and come back with what it fetched.
    Send { request: HttpRequest, then: Pending },
}

/// Whether `reply` answers a login attempt rightly: a granted one with status
/// 200 and the session cookie, any other with status 401 and the login form.
pub open spec fn is_login_reply(
    reply: Reply,
    method: Method,
    digest: Option<Seq<char>>,
    configured: Seq<char>,
    now: i64,
) -> bool {
    if login_granted(method, digest, configured) {
        &&& reply.status == 200
        &&& reply.page is LoggedIn
        &&& text_of(reply.set_cookie) == Some(
            set_cookie_text(
                session_cookie_name(),
                configured,
                session_cookie_path(),
                true,
                true,
                SameSite::Strict,
                expiry_of(now),
            ),
        )
    } else {
        &&& reply.status == 401
        &&& reply.set_cookie is None
        &&& reply.page == Page::Login(login_of(method, digest, configured))
    }
}

/// Whether `step` sends the probe for the current candidate of `probe` and
/// waits for its answer with `form` at hand.
pub open spec fn is_probe_step(step: Step, form: CatalogueForm, probe: SlugProbe, store: Store) -> bool {
    step matches Step::Send { request, then } && then == (Pending::Probe { form, probe })
        && request@ == probe_request_of(store, path_of(form.kind, probe.current()))
}

/// Whether `step` sends the commit of `form` under `slug` and waits for its
/// answer.
pub open spec fn is_commit_step(step: Step, form: CatalogueForm, slug: Seq<char>, store: Store) -> bool {
    step matches Step::Send { request, then } && then == (Pending::Commit { kind: form.kind })
        && request@ == commit_request_of(
        store,
        path_of(form.kind, slug),
        document_for(form@),
        form.name@,
        form.skip_ci,
    )
}

/// Whether `step` answers a posted form rightly, given the slug of the
/// submitted name: a fault refuses it with the fault's status; a valid form
/// starts the slug search at the base slug.
pub open spec fn is_submit_step(
    step: Step,
    pairs: Seq<(Seq<char>, Seq<char>)>,
    config: Config,
) -> bool {
    match submission_of(pairs, config.form_password@) {
        Err(e) => step matches Step::Respond(reply) && reply.status == status_of(e)
            && reply.set_cookie is None && reply.page == Page::Refused(e),
        Ok(text) => step matches Step::Send { request, then } && (then matches Pending::Probe {
            form,
            probe,
        } && form@ == text && probe.attempt == 0 && probe.base@ == slug_of(text.name)
            && request@ == probe_request_of(config.store, path_of(text.kind, probe.current()))),
    }
}

/// Whether `step` is the workflow's step after a probe: a free candidate is
/// committed under; a taken one moves the search on, which keeps the form
/// and the base; a search that cannot go on ends with status 500.
pub open spec fn is_after_probe(
    step: Step,
    form: CatalogueForm,
    probe: SlugProbe,
    taken: bool,
    store: Store,
) -> bool {
    if !taken {
        is_commit_step(step, form, probe.current(), store)
    } else if probe.attempt < u64::MAX {
        is_probe_step(
            step,
            form,
            SlugProbe { base: probe.base, attempt: (probe.attempt + 1) as u64 },
            store,
        )
    } else {
        step matches Step::Respond(reply) && reply.status == 500 && reply.set_cookie is None
            && reply.page is NoFreeSlug
    }
}

/// Whether `step` answers rightly after the commit: the commit's address with
/// status 200, or the failure and the store's raw answer with status 502.
pub open spec fn is_after_commit(
    step: Step,
    kind: ContentType,
    outcome: Result<String, CommitFailure>,
) -> bool {
    step matches Step::Respond(reply) && reply.set_cookie is None && (match outcome {
        Ok(url) => reply.status == 200 && reply.page == (Page::Added { commit_url: url, kind }),
        Err(failure) => reply.status == 502 && reply.page == Page::Failed(failure),
    })
}

/// Whether `step` passes a step of the search proxy on: a request to send is
/// sent, an answer is handed back with status 200, a refusal is answered
/// with its status.
pub open spec fn is_proxy_step(step: Step, inner: ProxyStep) -> bool {
    match inner {
        ProxyStep::Send { request, then } => step == (Step::Send {
            request,
            then: Pending::Proxy(then),
        }),
        ProxyStep::Reply(body) => step matches Step::Respond(reply) && reply.status == 200
            && reply.set_cookie is None && reply.page == Page::Json(body),
        ProxyStep::Refuse(e) => step matches Step::Respond(reply) && reply.status == proxy_status(e)
            && reply.set_cookie is None && reply.page == Page::ProxyRefused(e),
    }
}

/// Whether `step` is the workflow's first step for a request. A request
/// without a valid session is a login attempt. With one, a request that names
/// a proxy source is a search; otherwise a `GET` shows the add form, a `POST`
/// submits it, and any other method finds nothing.
pub open spec fn is_handled(step: Step, request: Request, config: Config, now: i64) -> bool {
    if !header_admits(text_of(request.cookie), config.hashed_password@) {
        step matches Step::Respond(reply) && is_login_reply(
            reply,
            request.method,
            submitted_digest(decoded_pairs(request.body@)),
            config.hashed_password@,
            now,
        )
    } else if request.proxy_source is Some {
        exists|inner: ProxyStep|
            is_start_of(
                inner,
                text_of(request.proxy_source),
                query_of(decoded_pairs(request.query@)),
                config.keys,
            ) && is_proxy_step(step, inner)
    } else {
        match request.method {
            Method::Get => step matches Step::Respond(reply) && reply.status == 200
                && reply.set_cookie is None && reply.page is Form,
            Method::Post => is_submit_step(step, decoded_pairs(request.body@), config),
            _ => step matches Step::Respond(reply) && reply.status == 404 && reply.set_cookie
                is None && reply.page is NotFound,
        }
    }
}

/// Whether `step` is the first step for a request to the search proxy. A
/// request without a valid session is a login attempt. With one it is a
/// search, and a bad request where it names no source.
pub open spec fn is_proxy_handled(step: Step, request: Request, config: Config, now: i64) -> bool {
    if !header_admits(text_of(request.cookie), config.hashed_password@) {
        step matches Step::Respond(reply) && is_login_reply(
            reply,
            request.method,
            submitted_digest(decoded_pairs(request.body@)),
            config.hashed_password@,
            now,
        )
    } else {
        exists|inner: ProxyStep|
            is_start_of(
                inner,
                text_of(request.proxy_source),
                query_of(decoded_pairs(request.query@)),
                config.keys,
            ) && is_proxy_step(step, inner)
    }
}

/// Whether `step` is the workflow's step after `fetched` came back for what
/// was pending.
pub open spec fn is_resumed(step: Step, pending: Pending, fetched: Fetched, config: Config) -> bool {
    match pending {
        Pending::Probe { form, probe } => is_after_probe(
            step,
            form,
            probe,
            fetched.succeeded(),
            config.store,
        ),
        Pending::Commit { kind } => exists|outcome: Result<String, CommitFailure>|
            outcome_text(outcome) == outcome_of(fetched, named_url(fetched)) && is_after_commit(
                step,
                kind,
                outcome,
            ),
        Pending::Proxy(p) => exists|inner: ProxyStep|
            is_next_of(inner, p, fetched, token_in(p, fetched), config.keys) && is_proxy_step(
                step,
                inner,
            ),
    }
}

fn respond(status: u16, page: Page) -> (step: Step)
    ensures
        step == Step::Respond(Reply { status, set_cookie: None, page }),
{
    Step::Respond(Reply { status, set_cookie: None, page })
}

/// Answers a login attempt.
pub fn answer_login(login: Login) -> (reply: Reply)
    requires
        login matches Login::Granted(c) ==> c.renderable(),
    ensures
        match login {
            Login::Form(m) => reply.status == 401 && reply.set_cookie is None && reply.page
                == Page::Login(m),
            Login::Granted(c) => reply.status == 200 && reply.page is LoggedIn && text_of(
                reply.set_cookie,
            ) == Some(
                set_cookie_text(
                    c.name@,
                    c.value@,
                    c.path@,
                    c.secure,
                    c.http_only,
                    c.same_site,
                    c.expires_at,
                ),
            ),
        },
{
    match login {
        Login::Form(m) => Reply { status: 401, set_cookie: None, page: Page::Login(m) },
        Login::Granted(c) => Reply { status: 200, set_cookie: c.header_value(), page: Page::LoggedIn },
    }
}

/// Sends the probe for the current candidate of a slug search.
pub fn send_probe(form: CatalogueForm, probe: SlugProbe, store: &Store) -> (step: Step)
    ensures
        is_probe_step(step, form, probe, *store),
{
    let slug = probe.candidate();
    let path = entry_path(form.kind, slug.as_str());
    let request = probe_request(store, path.as_str());
    Step::Send { request, then: Pending::Probe { form, probe } }
}

/// Takes a posted form: refuses a faulty one, starts the slug search for a
/// valid one.
pub fn submit(fields: &Vec<Field>, config: &Config) -> (step: Step)
    ensures
        is_submit_step(step, pairs_of(fields@), *config),
{
    match read_submission(fields, config.form_password.as_str()) {
        Err(e) => respond(e.status(), Page::Refused(e)),
        Ok(form) => {
            let probe = SlugProbe::start(form.name.as_str());
            send_probe(form, probe, &config.store)
        },
    }
}

/// Goes on after a probe of the store, given whether the candidate is taken.
pub fn after_probe(form: CatalogueForm, probe: SlugProbe, taken: bool, store: &Store) -> (step:
    Step)
    ensures
        is_after_probe(step, form, probe, taken, *store),
{
    let ghost current = probe.current();
    match probe.advance(taken) {
        SlugStep::Free(slug) => {
            let path = entry_path(form.kind, slug.as_str());
            let document = form.document();
            let request = commit_request(
                store,
                path.as_str(),
                document.as_str(),
                form.name.as_str(),
                form.skip_ci,
            );
            Step::Send { request, then: Pending::Commit { kind: form.kind } }
        },
        SlugStep::Retry(next) => send_probe(form, next, store),
        SlugStep::Exhausted => respond(500, Page::NoFreeSlug),
    }
}

/// Answers after the commit, given what it led to.
pub fn after_commit(kind: ContentType, outcome: Result<String, CommitFailure>) -> (step: Step)
    ensures
        is_after_commit(step, kind, outcome),
{
    match outcome {
        Ok(url) => respond(200, Page::Added { commit_url: url, kind }),
        Err(failure) => respond(502, Page::Failed(failure)),
    }
}

/// Passes a step of the search proxy on.
pub fn pass_proxy(inner: ProxyStep) -> (step: Step)
    ensures
        is_proxy_step(step, inner),
{
    match inner {
        ProxyStep::Send { request, then } => Step::Send { request, then: Pending::Proxy(then) },
        ProxyStep::Reply(body) => respond(200, Page::Json(body)),
        ProxyStep::Refuse(e) => respond(e.status(), Page::ProxyRefused(e)),
    }
}

/// Takes a request: the first step of the workflow. `now` is the time of the
/// request in seconds since the start of 1970.
pub fn handler(request: &Request, config: &Config, now: i64) -> (step: Step)
    ensures
        is_handled(step, *request, *config, now),
{
    let cookie = match &request.cookie {
        Some(c) => Some(c.as_str()),
        None => None,
    };
    if !session_is_valid(cookie, config.hashed_password.as_str()) {
        let fields = parse_fields(request.body.as_str());
        let login = manage_login(request.method, &fields, config.hashed_password.as_str(), now);
        return Step::Respond(answer_login(login));
    }
    match &request.proxy_source {
        Some(source) => {
            let fields = parse_fields(request.query.as_str());
            let query = ProxyQuery::from(&fields);
            let inner = start_proxy(Some(source.as_str()), query, &config.keys);
            pass_proxy(inner)
        },
        None => match request.method {
            Method::Get => respond(200, Page::Form),
            Method::Post => {
                let fields = parse_fields(request.body.as_str());
                submit(&fields, config)
            },
            _ => respond(404, Page::NotFound),
        },
    }
}

/// Takes a request to the search proxy: the session is checked as for every
/// request, then the search begins. `now` is the time of the request in
/// seconds since the start of 1970.
pub fn catalogue_proxy_handler(request: &Request, config: &Config, now: i64) -> (step: Step)
    ensures
        is_proxy_handled(step, *request, *config, now),
{
    let cookie = match &request.cookie {
        Some(c) => Some(c.as_str()),
        None => None,
    };
    if !session_is_valid(cookie, config.hashed_password.as_str()) {
        let fields = parse_fields(request.body.as_str());
        let login = manage_login(request.method, &fields, config.hashed_password.as_str(), now);
        return Step::Respond(answer_login(login));
    }
    let source = match &request.proxy_source {
        Some(s) => Some(s.as_str()),
        None => None,
    };
    let fields = parse_fields(request.query.as_str());
    let query = ProxyQuery::from(&fields);
    pass_proxy(start_proxy(source, query, &config.keys))
}

/// Goes on with the workflow after a request that it asked for was answered.
pub fn resume(pending: Pending, fetched: Fetched, config: &Config) -> (step: Step)
    ensures
        is_resumed(step, pending, fetched, *config),
{
    match pending {
        Pending::Probe { form, probe } => {
            let taken = probe_found(&fetched);
            after_probe(form, probe, taken, &config.store)
        },
        Pending::Commit { kind } => {
            let outcome = read_commit_response(&fetched);
            after_commit(kind, outcome)
        },
        Pending::Proxy(p) => {
            let inner = resume_proxy(p, fetched, &config.keys);
            pass_proxy(inner)
        },
    }
}

} // verus!
