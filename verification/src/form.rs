//! The catalogue form submission: what a posted form must hold to become an
//! entry, and the document that a valid one becomes.

use crate::date::{date_format, parsed_date, Date};
use crate::fields::{find_last, last_value, pairs_of, text_of, Field};
use crate::kind::{kind_of_form_value, source_key_of, ContentType};
use crate::markdown::{
    date_text,
    document_of,
    lemma_document_round_trip,
    parse_document,
    read_back,
    single_line,
    synthesize,
};
use crate::rating::{name_of, rating_of_name, Rating};
use crate::text::{chars_of, str_eq};
use vstd::prelude::*;
use vstd::string::*;

verus! {

/// A submission that passed validation.
pub struct CatalogueForm {
    pub kind: ContentType,
    pub name: String,
    pub rating: Rating,
    /// The finishing date as submitted; none for an undated entry.
    pub date: Option<String>,
    pub source_id: String,
    /// The platform; blank where none was selected.
    pub platform: String,
    pub comment: String,
    /// Whether the commit shall keep the site from deploying.
    pub skip_ci: bool,
}

/// A valid submission as character sequences.
pub struct FormText {
    pub kind: ContentType,
    pub name: Seq<char>,
    pub rating: Rating,
    pub date: Option<Seq<char>>,
    pub source_id: Seq<char>,
    pub platform: Seq<char>,
    pub comment: Seq<char>,
    pub skip_ci: bool,
}

impl View for CatalogueForm {
    type V = FormText;

    open spec fn view(&self) -> FormText {
        FormText {
            kind: self.kind,
            name: self.name@,
            rating: self.rating,
            date: text_of(self.date),
            source_id: self.source_id@,
            platform: self.platform@,
            comment: self.comment@,
            skip_ci: self.skip_ci,
        }
    }
}

/// Why a submission was refused.
#[derive(Clone, Copy, Debug, PartialEq, Eq, Structural)]
pub enum FormError {
    /// The form password is missing or wrong.
    WrongPassword,
    /// The `type` field is missing or names no kind.
    InvalidType,
    /// The `name` field is missing or spans several lines.
    InvalidName,
    /// The `rating` field is missing or names no rating.
    InvalidRating,
    /// A date was asked for and the `date` field is missing or no date.
    InvalidDate,
    /// The `source-id` field is missing or spans several lines.
    InvalidSourceId,
    /// The `platform-select` field spans several lines.
    InvalidPlatform,
    /// The `comment` field is missing.
    MissingComment,
}

/// The status code with which a refusal is answered: 401 for the password,
/// 400 for every other fault.
pub open spec fn status_of(e: FormError) -> u16 {
    match e {
        FormError::WrongPassword => 401,
        _ => 400,
    }
}

/// The message shown for a fault.
pub open spec fn fault_text(e: FormError) -> Seq<char> {
    match e {
        FormError::WrongPassword => "Invalid password"@,
        FormError::InvalidType => "Invalid type"@,
        FormError::InvalidName => "Invalid name"@,
        FormError::InvalidRating => "Invalid rating"@,
        FormError::InvalidDate => "Invalid date"@,
        FormError::InvalidSourceId => "Invalid source ID"@,
        FormError::InvalidPlatform => "Invalid platform"@,
        FormError::MissingComment => "Missing comment"@,
    }
}

impl FormError {
    /// The message shown for the fault.
    pub fn text(&self) -> (s: &'static str)
        ensures
            s@ == fault_text(*self),
    {
        match self {
            FormError::WrongPassword => "Invalid password",
            FormError::InvalidType => "Invalid type",
            FormError::InvalidName => "Invalid name",
            FormError::InvalidRating => "Invalid rating",
            FormError::InvalidDate => "Invalid date",
            FormError::InvalidSourceId => "Invalid source ID",
            FormError::InvalidPlatform => "Invalid platform",
            FormError::MissingComment => "Missing comment",
        }
    }

    /// The status code with which the refusal is answered.
    pub fn status(&self) -> (r: u16)
        ensures
            r == status_of(*self),
    {
        match self {
            FormError::WrongPassword => 401,
            _ => 400,
        }
    }
}

/// Whether a submitted date is accepted: a single line that the date parser
/// reads as `%Y-%m-%d`.
pub open spec fn date_accepted(text: Seq<char>) -> bool {
    single_line(text) && parsed_date(text, date_format()) is Some
}

/// Whether the form asks for a finishing date: its `no-date` box says `on`.
pub open spec fn wants_date(pairs: Seq<(Seq<char>, Seq<char>)>) -> bool {
    last_value(pairs, "no-date"@) == Some("on"@)
}

/// The text of an optional field, blank where the form has none.
pub open spec fn or_blank(value: Option<Seq<char>>) -> Seq<char> {
    match value {
        Some(v) => v,
        None => Seq::<char>::empty(),
    }
}

/// The fault that refuses a submission, the first in the order in which the
/// fields are checked; `None` for a valid one.
pub open spec fn fault_of(pairs: Seq<(Seq<char>, Seq<char>)>, password: Seq<char>) -> Option<
    FormError,
> {
    let kind = last_value(pairs, "type"@);
    let name = last_value(pairs, "name"@);
    let rating = last_value(pairs, "rating"@);
    let date = last_value(pairs, "date"@);
    let source_id = last_value(pairs, "source-id"@);
    let platform = or_blank(last_value(pairs, "platform-select"@));
    if last_value(pairs, "form_password"@) != Some(password) {
        Some(FormError::WrongPassword)
    } else if kind is None || kind_of_form_value(kind->0) is None {
        Some(FormError::InvalidType)
    } else if name is None || !single_line(name->0) {
        Some(FormError::InvalidName)
    } else if rating is None || rating_of_name(rating->0) is None {
        Some(FormError::InvalidRating)
    } else if wants_date(pairs) && (date is None || !date_accepted(date->0)) {
        Some(FormError::InvalidDate)
    } else if source_id is None || !single_line(source_id->0) {
        Some(FormError::InvalidSourceId)
    } else if !single_line(platform) {
        Some(FormError::InvalidPlatform)
    } else if last_value(pairs, "comment"@) is None {
        Some(FormError::MissingComment)
    } else {
        None
    }
}

/// The submission that a form's pairs hold, for a form without a fault.
pub open spec fn form_of(pairs: Seq<(Seq<char>, Seq<char>)>) -> FormText {
    FormText {
        kind: kind_of_form_value(last_value(pairs, "type"@)->0)->0,
        name: last_value(pairs, "name"@)->0,
        rating: rating_of_name(last_value(pairs, "rating"@)->0)->0,
        date: if wants_date(pairs) {
            last_value(pairs, "date"@)
        } else {
            None
        },
        source_id: last_value(pairs, "source-id"@)->0,
        platform: or_blank(last_value(pairs, "platform-select"@)),
        comment: last_value(pairs, "comment"@)->0,
        skip_ci: last_value(pairs, "skip-ci"@) == Some("skip-ci"@),
    }
}

/// What validation makes of a form's pairs.
pub open spec fn submission_of(pairs: Seq<(Seq<char>, Seq<char>)>, password: Seq<char>) -> Result<
    FormText,
    FormError,
> {
    match fault_of(pairs, password) {
        Some(e) => Err(e),
        None => Ok(form_of(pairs)),
    }
}

/// The outcome of validation as character sequences.
pub open spec fn submission_text(r: Result<CatalogueForm, FormError>) -> Result<
    FormText,
    FormError,
> {
    match r {
        Ok(f) => Ok(f@),
        Err(e) => Err(e),
    }
}

/// Whether a text holds no line feed.
pub fn is_single_line(s: &str) -> (r: bool)
    ensures
        r == single_line(s@),
{
    let v = chars_of(s);
    let mut i: usize = 0;
    while i < v.len()
        invariant
            i <= v.len(),
            v@ == s@,
            forall|j: int| 0 <= j < i ==> v@[j] != '\n',
        decreases v.len() - i,
    {
        if v[i] == '\n' {
            assert(s@.contains('\n'));
            return false;
        }
        i += 1;
    }
    true
}

/// Whether a submitted date is accepted, given what the date parser made of
/// it.
pub fn date_is_accepted(text: &str, parsed: Option<Date>) -> (r: bool)
    ensures
        r == (single_line(text@) && parsed is Some),
{
    is_single_line(text) && parsed.is_some()
}

/// Validates a posted form against the form password. The fields are checked
/// in a fixed order and the first fault refuses the form; of several fields
/// with one name the last counts.
pub fn read_submission(fields: &Vec<Field>, password: &str) -> (r: Result<CatalogueForm, FormError>)
    ensures
        submission_text(r) == submission_of(pairs_of(fields@), password@),
{
    let ghost pairs = pairs_of(fields@);
    match find_last(fields, "form_password") {
        Some(p) => {
            if !str_eq(p.as_str(), password) {
                return Err(FormError::WrongPassword);
            }
        },
        None => {
            return Err(FormError::WrongPassword);
        },
    }
    let kind = match find_last(fields, "type") {
        Some(t) => match ContentType::from_form_value(t.as_str()) {
            Some(k) => k,
            None => {
                return Err(FormError::InvalidType);
            },
        },
        None => {
            return Err(FormError::InvalidType);
        },
    };
    let name = match find_last(fields, "name") {
        Some(n) => n,
        None => {
            return Err(FormError::InvalidName);
        },
    };
    if !is_single_line(name.as_str()) {
        return Err(FormError::InvalidName);
    }
    let rating = match find_last(fields, "rating") {
        Some(t) => match Rating::from_name(t.as_str()) {
            Some(r) => r,
            None => {
                return Err(FormError::InvalidRating);
            },
        },
        None => {
            return Err(FormError::InvalidRating);
        },
    };
    let dated = match find_last(fields, "no-date") {
        Some(v) => str_eq(v.as_str(), "on"),
        None => false,
    };
    assert(dated == wants_date(pairs));
    let date = if dated {
        match find_last(fields, "date") {
            Some(d) => {
                if !date_is_accepted(d.as_str(), Date::parse(d.as_str())) {
                    return Err(FormError::InvalidDate);
                }
                Some(d)
            },
            None => {
                return Err(FormError::InvalidDate);
            },
        }
    } else {
        None
    };
    let source_id = match find_last(fields, "source-id") {
        Some(s) => s,
        None => {
            return Err(FormError::InvalidSourceId);
        },
    };
    if !is_single_line(source_id.as_str()) {
        return Err(FormError::InvalidSourceId);
    }
    let platform = match find_last(fields, "platform-select") {
        Some(p) => p,
        None => String::new(),
    };
    if !is_single_line(platform.as_str()) {
        return Err(FormError::InvalidPlatform);
    }
    let comment = match find_last(fields, "comment") {
        Some(c) => c,
        None => {
            return Err(FormError::MissingComment);
        },
    };
    let skip_ci = match find_last(fields, "skip-ci") {
        Some(v) => str_eq(v.as_str(), "skip-ci"),
        None => false,
    };
    Ok(CatalogueForm { kind, name, rating, date, source_id, platform, comment, skip_ci })
}

/// The document of a submission.
pub open spec fn document_for(f: FormText) -> Seq<char> {
    document_of(
        f.name,
        f.platform,
        name_of(f.rating),
        date_text(f.date),
        source_key_of(f.kind),
        f.source_id,
        f.comment,
    )
}

/// Whether the front-matter fields of a submission are each a single line, as
/// validation demands.
pub open spec fn fits_front_matter(f: FormText) -> bool {
    &&& single_line(f.name)
    &&& single_line(f.platform)
    &&& single_line(f.source_id)
    &&& (f.date matches Some(d) ==> single_line(d))
}

impl CatalogueForm {
    /// The markdown document of the entry that this submission asks for.
    pub fn document(&self) -> (doc: String)
        ensures
            doc@ == document_for(self@),
    {
        let date = match &self.date {
            Some(d) => Some(d.as_str()),
            None => None,
        };
        synthesize(
            self.kind,
            self.name.as_str(),
            self.platform.as_str(),
            self.rating,
            date,
            self.source_id.as_str(),
            self.comment.as_str(),
        )
    }
}

/// Synthesizing a submission's document and reading its front matter gives
/// the submitted fields back exactly: the title, the platform (none for a
/// blank one), the rating by its stored name, the key of the kind with the
/// identifier, and the comment. The date comes back as submitted, or as the
/// text `N/A` where none was asked for.
pub proof fn lemma_submission_round_trip(f: FormText)
    requires
        fits_front_matter(f),
    ensures
        parse_document(document_for(f)) == Some(
            read_back(
                f.name,
                f.platform,
                name_of(f.rating),
                date_text(f.date),
                source_key_of(f.kind),
                f.source_id,
                f.comment,
            ),
        ),
        f.date is None ==> parse_document(document_for(f))->0.finished_date == "N/A"@,
{
    reveal_strlit("masterpiece");
    reveal_strlit("loved");
    reveal_strlit("liked");
    reveal_strlit("okay");
    reveal_strlit("disliked");
    reveal_strlit("hated");
    reveal_strlit("tmdb");
    reveal_strlit("igdb");
    reveal_strlit("isbn");
    reveal_strlit("N/A");
    let rating = name_of(f.rating);
    let key = source_key_of(f.kind);
    let date = date_text(f.date);
    assert(single_line(rating)) by {
        if rating.contains('\n') {
            let i = choose|i: int| 0 <= i < rating.len() && rating[i] == '\n';
        }
    }
    assert(single_line(key) && !key.contains(':')) by {
        if key.contains('\n') {
            let i = choose|i: int| 0 <= i < key.len() && key[i] == '\n';
        }
        if key.contains(':') {
            let i = choose|i: int| 0 <= i < key.len() && key[i] == ':';
        }
    }
    assert(single_line(date)) by {
        if f.date is None && date.contains('\n') {
            let i = choose|i: int| 0 <= i < date.len() && date[i] == '\n';
        }
    }
    lemma_document_round_trip(f.name, f.platform, rating, date, key, f.source_id, f.comment);
}

/// The document of every form that validation accepts reads back as the
/// form's fields.
pub proof fn lemma_accepted_form_reads_back(pairs: Seq<(Seq<char>, Seq<char>)>, password: Seq<char>)
    requires
        fault_of(pairs, password) is None,
    ensures
        ({
            let f = form_of(pairs);
            parse_document(document_for(f)) == Some(
                read_back(
                    f.name,
                    f.platform,
                    name_of(f.rating),
                    date_text(f.date),
                    source_key_of(f.kind),
                    f.source_id,
                    f.comment,
                ),
            )
        }),
{
    lemma_submission_round_trip(form_of(pairs));
}

} // verus!
