//! The slug allocator: a URL-safe name for a new entry that no stored entry
//! of its kind has yet.

use crate::http::Fetched;
use crate::kind::{directory_of, ContentType};
use crate::text::{
    decimal,
    is_digit,
    lemma_decimal_injective,
    lemma_decimal_shape,
    u64_to_decimal,
};
use vstd::prelude::*;
use vstd::string::*;

verus! {

/// The slug that `slug::slugify` makes of a title: lower case, transliterated
/// to ASCII, words joined by hyphens, punctuation dropped.
pub uninterp spec fn slug_of(title: Seq<char>) -> Seq<char>;

/// Whether a character may stand in a slug: a lower-case ASCII letter, a
/// digit or a hyphen.
pub open spec fn is_slug_char(c: char) -> bool {
    ('a' <= c && c <= 'z') || is_digit(c) || c == '-'
}

/// Whether a text is URL-safe as a slug is: made of lower-case ASCII letters,
/// digits and hyphens only.
pub open spec fn is_url_safe(s: Seq<char>) -> bool {
    forall|i: int| 0 <= i < s.len() ==> is_slug_char(#[trigger] s[i])
}

/// Calls `slug::slugify`. Trusted: the result is the named `slug_of`, and, as
/// the crate documents, it consists of `a-z`, `0-9` and `-`.
#[verifier::external_body]
fn slugify(title: &str) -> (r: String)
    ensures
        r@ == slug_of(title@),
        is_url_safe(r@),
{
    slug::slugify(title)
}

/// The slug tried at a given attempt: the base itself first, then the base
/// with `-1`, `-2`, and so on.
pub open spec fn candidate(base: Seq<char>, attempt: nat) -> Seq<char> {
    if attempt == 0 {
        base
    } else {
        base + seq!['-'] + decimal(attempt)
    }
}

/// Where an entry's markdown file lies in the content store:
/// `<directory>/<slug>/<slug>.md`.
pub open spec fn path_of(kind: ContentType, slug: Seq<char>) -> Seq<char> {
    directory_of(kind) + seq!['/'] + slug + seq!['/'] + slug + ".md"@
}

/// Two different attempts never try the same slug.
pub proof fn lemma_candidates_distinct(base: Seq<char>, i: nat, j: nat)
    requires
        i != j,
    ensures
        candidate(base, i) != candidate(base, j),
{
    let a = candidate(base, i);
    let b = candidate(base, j);
    if i == 0 {
        assert(b.len() > base.len());
    } else if j == 0 {
        assert(a.len() > base.len());
    } else if a == b {
        let n = base.len() as int;
        assert(a.subrange(n + 1, a.len() as int) =~= decimal(i));
        assert(b.subrange(n + 1, b.len() as int) =~= decimal(j));
        lemma_decimal_injective(i, j);
    }
}

/// Every candidate of a URL-safe base is URL-safe.
pub proof fn lemma_candidates_url_safe(base: Seq<char>, attempt: nat)
    requires
        is_url_safe(base),
    ensures
        is_url_safe(candidate(base, attempt)),
{
    if attempt > 0 {
        lemma_decimal_shape(attempt);
        let c = candidate(base, attempt);
        let d = decimal(attempt);
        assert forall|i: int| 0 <= i < c.len() implies is_slug_char(#[trigger] c[i]) by {
            if i < base.len() {
                assert(c[i] == base[i]);
            } else if i > base.len() {
                assert(c[i] == d[i - base.len() - 1]);
                assert(is_digit(d[i - base.len() - 1]));
            }
        }
    }
}

/// A search for a free slug: the base slug and how many candidates the store
/// has already reported as taken.
pub struct SlugProbe {
    pub base: String,
    pub attempt: u64,
}

/// What follows a probe of the store.
pub enum SlugStep {
    /// The candidate is free: the entry takes this slug.
    Free(String),
    /// The candidate is taken: probe the next one.
    Retry(SlugProbe),
    /// The candidate is taken and the counter cannot go further.
    Exhausted,
}

impl SlugProbe {
    /// The slug that this search tries now.
    pub open spec fn current(&self) -> Seq<char> {
        candidate(self.base@, self.attempt as nat)
    }

    /// Whether the store has reported `slug` as taken during this search:
    /// it was the candidate of an earlier attempt.
    pub open spec fn reported_taken(&self, slug: Seq<char>) -> bool {
        exists|k: nat| k < self.attempt && slug == candidate(self.base@, k)
    }

    /// Starts a search from a base slug.
    pub fn begin(base: String) -> (r: SlugProbe)
        ensures
            r.base == base,
            r.attempt == 0,
    {
        SlugProbe { base, attempt: 0 }
    }

    /// Starts a search for a title: the base is the title's slug.
    pub fn start(title: &str) -> (r: SlugProbe)
        ensures
            r.base@ == slug_of(title@),
            r.attempt == 0,
            is_url_safe(r.base@),
    {
        SlugProbe::begin(slugify(title))
    }

    /// The slug to probe the store for.
    pub fn candidate(&self) -> (r: String)
        ensures
            r@ == self.current(),
    {
        let mut s = self.base.clone();
        if self.attempt > 0 {
            proof {
                reveal_strlit("-");
            }
            s.append("-");
            let number = u64_to_decimal(self.attempt);
            s.append(number.as_str());
            assert(s@ =~= self.current());
        }
        s
    }

    /// Takes the store's answer to the probe of the current candidate. A free
    /// candidate ends the search; a taken one moves it to the next attempt.
    pub fn advance(self, taken: bool) -> (r: SlugStep)
        ensures
            !taken ==> (r matches SlugStep::Free(slug) && slug@ == self.current()
                && !self.reported_taken(slug@)),
            taken && self.attempt < u64::MAX ==> (r matches SlugStep::Retry(next) && next.base
                == self.base && next.attempt == self.attempt + 1 && next.reported_taken(
                self.current(),
            ) && !next.reported_taken(next.current())),
            taken && self.attempt == u64::MAX ==> r is Exhausted,
    {
        proof {
            lemma_never_reuses_taken_slug(self);
        }
        if !taken {
            SlugStep::Free(self.candidate())
        } else if self.attempt < u64::MAX {
            SlugStep::Retry(SlugProbe { base: self.base, attempt: self.attempt + 1 })
        } else {
            SlugStep::Exhausted
        }
    }
}

/// What a probe of the store says: the file exists only if a response arrived
/// with a 2xx status. A probe that failed counts as "does not exist".
pub fn probe_found(outcome: &Fetched) -> (r: bool)
    ensures
        r == outcome.succeeded(),
{
    outcome.is_ok()
}

/// The allocator never hands out a slug that the store has reported as taken:
/// the current candidate differs from every candidate probed before it, and
/// each step of the search keeps the earlier reports and adds the candidate
/// just found taken.
pub proof fn lemma_never_reuses_taken_slug(probe: SlugProbe)
    ensures
        !probe.reported_taken(probe.current()),
        probe.attempt < u64::MAX ==> ({
            let next = SlugProbe { base: probe.base, attempt: (probe.attempt + 1) as u64 };
            &&& next.reported_taken(probe.current())
            &&& forall|s: Seq<char>| probe.reported_taken(s) ==> next.reported_taken(s)
            &&& !next.reported_taken(next.current())
        }),
{
    assert forall|k: nat| k < probe.attempt implies candidate(probe.base@, k) != probe.current() by {
        lemma_candidates_distinct(probe.base@, k, probe.attempt as nat);
    }
    if probe.attempt < u64::MAX {
        let next = SlugProbe { base: probe.base, attempt: (probe.attempt + 1) as u64 };
        assert(probe.current() == candidate(next.base@, probe.attempt as nat));
        assert forall|s: Seq<char>| probe.reported_taken(s) implies next.reported_taken(s) by {
            let k = choose|k: nat| k < probe.attempt && s == candidate(probe.base@, k);
            assert(k < next.attempt && s == candidate(next.base@, k));
        }
        assert forall|k: nat| k < next.attempt implies candidate(next.base@, k)
            != next.current() by {
            lemma_candidates_distinct(next.base@, k, next.attempt as nat);
        }
    }
}

/// Where an entry's markdown file lies in the content store.
pub fn entry_path(kind: ContentType, slug: &str) -> (r: String)
    ensures
        r@ == path_of(kind, slug@),
{
    proof {
        reveal_strlit("/");
    }
    let mut s = String::from_str(kind.directory());
    s.append("/");
    s.append(slug);
    s.append("/");
    s.append(slug);
    s.append(".md");
    assert(s@ =~= path_of(kind, slug@));
    s
}

} // verus!
