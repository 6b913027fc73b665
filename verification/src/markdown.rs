//! The markdown entry synthesizer: the document that a validated submission
//! becomes, and the reader that takes such a document apart again.

use crate::kind::{source_key_of, ContentType};
use crate::rating::{name_of, Rating};
use crate::text::chars_of;
use vstd::prelude::*;
use vstd::string::*;

verus! {

/// The line that names the platform; nothing at all for a blank platform.
pub open spec fn platform_line(platform: Seq<char>) -> Seq<char> {
    if platform.len() == 0 {
        Seq::<char>::empty()
    } else {
        "platform: \""@ + platform + "\"\n"@
    }
}

/// The document of an entry: front matter with the keys in fixed order, a
/// blank line, and the comment.
pub open spec fn document_of(
    name: Seq<char>,
    platform: Seq<char>,
    rating: Seq<char>,
    date: Seq<char>,
    source_key: Seq<char>,
    source_id: Seq<char>,
    comment: Seq<char>,
) -> Seq<char> {
    "---\ntitle: \""@ + name + "\"\n"@ + platform_line(platform) + "rating: \""@ + rating
        + "\"\nfinishedDate: "@ + date + "\n"@ + source_key + ": \""@ + source_id
        + "\"\n---\n\n"@ + comment + "\n"@
}

/// The text written for the finishing date: the date, or `N/A` for none.
pub open spec fn date_text(date: Option<Seq<char>>) -> Seq<char> {
    match date {
        Some(d) => d,
        None => "N/A"@,
    }
}

/// Writes the document of an entry from its parts.
pub fn write_document(
    name: &str,
    platform: &str,
    rating: &str,
    date: &str,
    source_key: &str,
    source_id: &str,
    comment: &str,
) -> (doc: String)
    ensures
        doc@ == document_of(name@, platform@, rating@, date@, source_key@, source_id@, comment@),
{
    let mut doc = String::from_str("---\ntitle: \"");
    doc.append(name);
    doc.append("\"\n");
    let ghost head = doc@;
    if platform.unicode_len() > 0 {
        doc.append("platform: \"");
        doc.append(platform);
        doc.append("\"\n");
    }
    assert(doc@ =~= head + platform_line(platform@));
    doc.append("rating: \"");
    doc.append(rating);
    doc.append("\"\nfinishedDate: ");
    doc.append(date);
    doc.append("\n");
    doc.append(source_key);
    doc.append(": \"");
    doc.append(source_id);
    doc.append("\"\n---\n\n");
    doc.append(comment);
    doc.append("\n");
    assert(doc@ =~= document_of(
        name@,
        platform@,
        rating@,
        date@,
        source_key@,
        source_id@,
        comment@,
    ));
    doc
}

/// Writes the document of an entry of a given kind and rating: the rating by
/// its stored name, the outside identifier under the kind's key, and `N/A`
/// where the entry has no finishing date.
pub fn synthesize(
    kind: ContentType,
    name: &str,
    platform: &str,
    rating: Rating,
    date: Option<&str>,
    source_id: &str,
    comment: &str,
) -> (doc: String)
    ensures
        doc@ == document_of(
            name@,
            platform@,
            name_of(rating),
            date_text(
                match date {
                    Some(d) => Some(d@),
                    None => None,
                },
            ),
            source_key_of(kind),
            source_id@,
            comment@,
        ),
{
    let date_field = match date {
        Some(d) => d,
        None => "N/A",
    };
    write_document(
        name,
        platform,
        rating.name(),
        date_field,
        kind.source_key(),
        source_id,
        comment,
    )
}

/// The position of the first `c` in `s` at or after `i`; the length of `s`
/// where there is none.
pub open spec fn find_from(s: Seq<char>, c: char, i: int) -> int
    decreases s.len() - i,
{
    if i >= s.len() {
        s.len() as int
    } else if s[i] == c {
        i
    } else {
        find_from(s, c, i + 1)
    }
}

/// Where the line that starts at `start` ends: at the next line feed.
pub open spec fn line_end(s: Seq<char>, start: int) -> int {
    find_from(s, '\n', start)
}

/// The value of a line of the form `<prefix><value>"`.
pub open spec fn quoted_value(line: Seq<char>, prefix: Seq<char>) -> Option<Seq<char>> {
    if line.len() >= prefix.len() + 1 && line.take(prefix.len() as int) == prefix && line.last()
        == '"' {
        Some(line.subrange(prefix.len() as int, line.len() - 1))
    } else {
        None
    }
}

/// The value of a line of the form `<prefix><value>`.
pub open spec fn plain_value(line: Seq<char>, prefix: Seq<char>) -> Option<Seq<char>> {
    if line.len() >= prefix.len() && line.take(prefix.len() as int) == prefix {
        Some(line.skip(prefix.len() as int))
    } else {
        None
    }
}

/// The key and the value of a line of the form `<key>: "<value>"`, the key
/// ending at the line's first colon.
pub open spec fn keyed_value(line: Seq<char>) -> Option<(Seq<char>, Seq<char>)> {
    let k = find_from(line, ':', 0);
    if k + 4 <= line.len() && line[k + 1] == ' ' && line[k + 2] == '"' && line.last() == '"' {
        Some((line.take(k), line.subrange(k + 3, line.len() - 1)))
    } else {
        None
    }
}

/// What an entry's document says, as character sequences.
pub struct FrontMatterText {
    pub title: Seq<char>,
    pub platform: Option<Seq<char>>,
    pub rating: Seq<char>,
    pub finished_date: Seq<char>,
    pub source_key: Seq<char>,
    pub source_id: Seq<char>,
    pub body: Seq<char>,
}

/// What an entry's document says.
pub struct FrontMatter {
    pub title: String,
    pub platform: Option<String>,
    pub rating: String,
    /// The date as written: a date, or `N/A`.
    pub finished_date: String,
    pub source_key: String,
    pub source_id: String,
    pub body: String,
}

impl View for FrontMatter {
    type V = FrontMatterText;

    open spec fn view(&self) -> FrontMatterText {
        FrontMatterText {
            title: self.title@,
            platform: match self.platform {
                Some(p) => Some(p@),
                None => None,
            },
            rating: self.rating@,
            finished_date: self.finished_date@,
            source_key: self.source_key@,
            source_id: self.source_id@,
            body: self.body@,
        }
    }
}

/// Where the lines of a document end, as the reader finds them one after the
/// other.
pub struct Cuts {
    pub opening: int,
    pub title: int,
    /// The start of the rating line: after the platform line if there is one.
    pub rating_start: int,
    pub rating: int,
    pub date: int,
    pub source: int,
    pub closing: int,
    pub blank: int,
}

/// The platform that the line after the title names, if it is a platform line.
pub open spec fn platform_at(s: Seq<char>, start: int) -> Option<Seq<char>> {
    let end = line_end(s, start);
    if end < s.len() {
        quoted_value(s.subrange(start, end), "platform: \""@)
    } else {
        None
    }
}

/// The line ends of a document.
pub open spec fn cuts_of(s: Seq<char>) -> Cuts {
    let opening = line_end(s, 0);
    let title = line_end(s, opening + 1);
    let rating_start = if platform_at(s, title + 1) is Some {
        line_end(s, title + 1) + 1
    } else {
        title + 1
    };
    let rating = line_end(s, rating_start);
    let date = line_end(s, rating + 1);
    let source = line_end(s, date + 1);
    let closing = line_end(s, source + 1);
    let blank = line_end(s, closing + 1);
    Cuts { opening, title, rating_start, rating, date, source, closing, blank }
}

/// What a document says, where it has the shape that `document_of` writes:
/// the opening `---`, the title, an optional platform, the rating, the
/// finishing date, the outside identifier under its key, the closing `---`, a
/// blank line, and a body that ends in a line feed.
pub open spec fn parse_document(s: Seq<char>) -> Option<FrontMatterText> {
    let c = cuts_of(s);
    if c.blank + 1 < s.len() && c.blank == c.closing + 1 && s.last() == '\n' && s.subrange(
        0,
        c.opening,
    ) == "---"@ && s.subrange(c.source + 1, c.closing) == "---"@ {
        let title = quoted_value(s.subrange(c.opening + 1, c.title), "title: \""@);
        let rating = quoted_value(s.subrange(c.rating_start, c.rating), "rating: \""@);
        let date = plain_value(s.subrange(c.rating + 1, c.date), "finishedDate: "@);
        let source = keyed_value(s.subrange(c.date + 1, c.source));
        if title is Some && rating is Some && date is Some && source is Some {
            let (key, id) = source.unwrap();
            Some(
                FrontMatterText {
                    title: title->0,
                    platform: platform_at(s, c.title + 1),
                    rating: rating->0,
                    finished_date: date->0,
                    source_key: key,
                    source_id: id,
                    body: s.subrange(c.blank + 1, s.len() - 1),
                },
            )
        } else {
            None
        }
    } else {
        None
    }
}

/// A search for `c` from `i` lands on `k` if `c` is at `k` and nowhere
/// between.
pub proof fn lemma_find_from(s: Seq<char>, c: char, i: int, k: int)
    requires
        0 <= i <= k < s.len(),
        s[k] == c,
        forall|j: int| i <= j < k ==> s[j] != c,
    ensures
        find_from(s, c, i) == k,
    decreases k - i,
{
    if i < k {
        lemma_find_from(s, c, i + 1, k);
    }
}

/// A search never lands before its start, and never beyond the end; where it
/// lands inside, it found the character.
pub proof fn lemma_find_from_bounds(s: Seq<char>, c: char, i: int)
    requires
        0 <= i,
    ensures
        i <= s.len() ==> i <= find_from(s, c, i) <= s.len(),
        i > s.len() ==> find_from(s, c, i) == s.len(),
        find_from(s, c, i) < s.len() ==> s[find_from(s, c, i)] == c,
        forall|j: int| i <= j < find_from(s, c, i) ==> s[j] != c,
    decreases s.len() - i,
{
    if i < s.len() && s[i] != c {
        lemma_find_from_bounds(s, c, i + 1);
    }
}

/// In a text made of a prefix, a line without a line feed, a line feed and a
/// rest, the line that starts after the prefix is that line.
pub proof fn lemma_line_read(prefix: Seq<char>, line: Seq<char>, rest: Seq<char>)
    requires
        !line.contains('\n'),
    ensures
        line_end(prefix + line + seq!['\n'] + rest, prefix.len() as int) == prefix.len()
            + line.len(),
        (prefix + line + seq!['\n'] + rest).subrange(
            prefix.len() as int,
            (prefix.len() + line.len()) as int,
        ) == line,
{
    let doc = prefix + line + seq!['\n'] + rest;
    let start = prefix.len() as int;
    let end = start + line.len();
    assert(doc[end] == '\n');
    assert forall|j: int| start <= j < end implies doc[j] != '\n' by {
        assert(doc[j] == line[j - start]);
        assert(line.contains(line[j - start]));
    }
    lemma_find_from(doc, '\n', start, end);
    assert(doc.subrange(start, end) =~= line);
}

/// Whether a text holds no line feed.
pub open spec fn single_line(s: Seq<char>) -> bool {
    !s.contains('\n')
}

proof fn lemma_single_line_concat(a: Seq<char>, b: Seq<char>)
    requires
        single_line(a),
        single_line(b),
    ensures
        single_line(a + b),
{
    let s = a + b;
    if s.contains('\n') {
        let i = choose|i: int| 0 <= i < s.len() && s[i] == '\n';
        if i < a.len() {
            assert(a[i] == '\n');
            assert(a.contains('\n'));
        } else {
            assert(b[i - a.len()] == '\n');
            assert(b.contains('\n'));
        }
    }
}

proof fn lemma_fixed_texts()
    ensures
        single_line("---"@),
        single_line("title: \""@),
        single_line("platform: \""@),
        single_line("rating: \""@),
        single_line("finishedDate: "@),
        single_line(": \""@),
        single_line(seq!['"']),
        single_line(Seq::<char>::empty()),
{
    reveal_strlit("---");
    reveal_strlit("title: \"");
    reveal_strlit("platform: \"");
    reveal_strlit("rating: \"");
    reveal_strlit("finishedDate: ");
    reveal_strlit(": \"");
}

/// The line `<prefix><value>"` reads back as `value`.
proof fn lemma_quoted_read(prefix: Seq<char>, value: Seq<char>)
    ensures
        quoted_value(prefix + value + seq!['"'], prefix) == Some(value),
{
    let line = prefix + value + seq!['"'];
    assert(line.take(prefix.len() as int) =~= prefix);
    assert(line.subrange(prefix.len() as int, line.len() - 1) =~= value);
}

/// The line `<key>: "<value>"` reads back as `key` and `value`, for a key
/// without a colon.
proof fn lemma_keyed_read(key: Seq<char>, value: Seq<char>)
    requires
        !key.contains(':'),
    ensures
        keyed_value(key + ": \""@ + value + seq!['"']) == Some((key, value)),
{
    reveal_strlit(": \"");
    let line = key + ": \""@ + value + seq!['"'];
    let k = key.len() as int;
    assert(line[k] == ':');
    assert forall|j: int| 0 <= j < k implies line[j] != ':' by {
        assert(line[j] == key[j]);
        assert(key.contains(key[j]));
    }
    lemma_find_from(line, ':', 0, k);
    assert(line[k + 1] == ' ');
    assert(line[k + 2] == '"');
    assert(line.take(k) =~= key);
    assert(line.subrange(k + 3, line.len() - 1) =~= value);
}

/// A line, its line feed, and what follows.
pub open spec fn with_line(line: Seq<char>, rest: Seq<char>) -> Seq<char> {
    line + seq!['\n'] + rest
}

/// The title line of a document.
pub open spec fn title_line(name: Seq<char>) -> Seq<char> {
    "title: \""@ + name + seq!['"']
}

/// The platform line of a document.
pub open spec fn platform_text_line(platform: Seq<char>) -> Seq<char> {
    "platform: \""@ + platform + seq!['"']
}

/// The rating line of a document.
pub open spec fn rating_line(rating: Seq<char>) -> Seq<char> {
    "rating: \""@ + rating + seq!['"']
}

/// The date line of a document.
pub open spec fn date_line(date: Seq<char>) -> Seq<char> {
    "finishedDate: "@ + date
}

/// The line of a document that holds the outside identifier.
pub open spec fn source_line(source_key: Seq<char>, source_id: Seq<char>) -> Seq<char> {
    source_key + ": \""@ + source_id + seq!['"']
}

/// A document from the rating line on.
pub open spec fn from_rating(
    rating: Seq<char>,
    date: Seq<char>,
    source_key: Seq<char>,
    source_id: Seq<char>,
    comment: Seq<char>,
) -> Seq<char> {
    with_line(
        rating_line(rating),
        with_line(
            date_line(date),
            with_line(
                source_line(source_key, source_id),
                with_line("---"@, with_line(Seq::<char>::empty(), comment + seq!['\n'])),
            ),
        ),
    )
}

/// A document from the line after the title on.
pub open spec fn from_platform(
    platform: Seq<char>,
    rating: Seq<char>,
    date: Seq<char>,
    source_key: Seq<char>,
    source_id: Seq<char>,
    comment: Seq<char>,
) -> Seq<char> {
    if platform.len() == 0 {
        from_rating(rating, date, source_key, source_id, comment)
    } else {
        with_line(
            platform_text_line(platform),
            from_rating(rating, date, source_key, source_id, comment),
        )
    }
}

/// A document is its lines, each followed by a line feed, and the comment
/// with its line feed.
proof fn lemma_document_lines(
    name: Seq<char>,
    platform: Seq<char>,
    rating: Seq<char>,
    date: Seq<char>,
    source_key: Seq<char>,
    source_id: Seq<char>,
    comment: Seq<char>,
)
    ensures
        document_of(name, platform, rating, date, source_key, source_id, comment) == with_line(
            "---"@,
            with_line(
                title_line(name),
                from_platform(platform, rating, date, source_key, source_id, comment),
            ),
        ),
{
    let nl = seq!['\n'];
    let quote = seq!['"'];
    reveal_strlit("---");
    reveal_strlit("title: \"");
    reveal_strlit("platform: \"");
    reveal_strlit("rating: \"");
    reveal_strlit("finishedDate: ");
    reveal_strlit(": \"");
    reveal_strlit("---\ntitle: \"");
    reveal_strlit("\"\n");
    reveal_strlit("\"\nfinishedDate: ");
    reveal_strlit("\n");
    reveal_strlit("\"\n---\n\n");
    assert("---\ntitle: \""@ =~= "---"@ + nl + "title: \""@);
    assert("\"\n"@ =~= quote + nl);
    assert("\"\nfinishedDate: "@ =~= quote + nl + "finishedDate: "@);
    assert("\n"@ =~= nl);
    assert("\"\n---\n\n"@ =~= quote + nl + "---"@ + nl + nl);
    let tail = from_rating(rating, date, source_key, source_id, comment);
    assert(tail =~= "rating: \""@ + rating + "\"\nfinishedDate: "@ + date + "\n"@ + source_key
        + ": \""@ + source_id + "\"\n---\n\n"@ + comment + "\n"@);
    assert(from_platform(platform, rating, date, source_key, source_id, comment)
        =~= platform_line(platform) + tail);
    assert(document_of(name, platform, rating, date, source_key, source_id, comment)
        =~= "---\ntitle: \""@ + name + "\"\n"@ + (platform_line(platform) + tail));
}

/// In a text that is a prefix followed by a line and a rest, the line that
/// starts after the prefix is that line, and the rest starts after it.
proof fn lemma_line_in(doc: Seq<char>, prefix: Seq<char>, line: Seq<char>, rest: Seq<char>)
    requires
        doc == prefix + with_line(line, rest),
        single_line(line),
    ensures
        line_end(doc, prefix.len() as int) == prefix.len() + line.len(),
        prefix.len() + line.len() < doc.len(),
        doc.subrange(prefix.len() as int, (prefix.len() + line.len()) as int) == line,
        doc == (prefix + line + seq!['\n']) + rest,
        (prefix + line + seq!['\n']).len() == prefix.len() + line.len() + 1,
{
    lemma_line_read(prefix, line, rest);
    assert(doc =~= prefix + line + seq!['\n'] + rest);
}

/// What the reader finds after the title line: the platform if the next line
/// names one, and the place where the rating line starts.
proof fn lemma_platform_read(
    doc: Seq<char>,
    prefix: Seq<char>,
    platform: Seq<char>,
    rating: Seq<char>,
    rest: Seq<char>,
)
    requires
        single_line(platform),
        single_line(rating),
        doc == prefix + (if platform.len() == 0 {
            with_line(rating_line(rating), rest)
        } else {
            with_line(platform_text_line(platform), with_line(rating_line(rating), rest))
        }),
    ensures
        platform_at(doc, prefix.len() as int) == (if platform.len() == 0 {
            None
        } else {
            Some(platform)
        }),
        ({
            let start = if platform.len() == 0 {
                prefix.len() as int
            } else {
                line_end(doc, prefix.len() as int) + 1
            };
            let before = doc.take(start);
            &&& 0 <= start <= doc.len()
            &&& doc == before + with_line(rating_line(rating), rest)
        }),
{
    lemma_fixed_texts();
    let quote = seq!['"'];
    lemma_single_line_concat("rating: \""@, rating);
    lemma_single_line_concat("rating: \""@ + rating, quote);
    let l2 = rating_line(rating);
    if platform.len() == 0 {
        lemma_line_in(doc, prefix, l2, rest);
        reveal_strlit("platform: \"");
        reveal_strlit("rating: \"");
        assert(l2[0] == 'r');
        if l2.len() >= 12 {
            assert(l2.take(11)[0] == 'r');
            assert("platform: \""@[0] == 'p');
        }
        assert(quoted_value(l2, "platform: \""@) is None);
        assert(doc.take(prefix.len() as int) =~= prefix);
    } else {
        lemma_single_line_concat("platform: \""@, platform);
        lemma_single_line_concat("platform: \""@ + platform, quote);
        let lp = platform_text_line(platform);
        lemma_line_in(doc, prefix, lp, with_line(l2, rest));
        lemma_quoted_read("platform: \""@, platform);
        let start = prefix.len() + lp.len() + 1;
        assert(doc.take(start as int) =~= prefix + lp + seq!['\n']);
    }
}

/// What the reader finds from the rating line on.
proof fn lemma_tail_read(
    doc: Seq<char>,
    before: Seq<char>,
    rating: Seq<char>,
    date: Seq<char>,
    source_key: Seq<char>,
    source_id: Seq<char>,
    comment: Seq<char>,
)
    requires
        single_line(rating),
        single_line(date),
        single_line(source_key),
        single_line(source_id),
        doc == before + from_rating(rating, date, source_key, source_id, comment),
    ensures
        ({
            let start = before.len() as int;
            let r = line_end(doc, start);
            let d = line_end(doc, r + 1);
            let s = line_end(doc, d + 1);
            let c = line_end(doc, s + 1);
            let b = line_end(doc, c + 1);
            &&& doc.subrange(start, r) == rating_line(rating)
            &&& doc.subrange(r + 1, d) == date_line(date)
            &&& doc.subrange(d + 1, s) == source_line(source_key, source_id)
            &&& doc.subrange(s + 1, c) == "---"@
            &&& b == c + 1
            &&& b + 1 < doc.len()
            &&& doc.last() == '\n'
            &&& doc.subrange(b + 1, doc.len() - 1) == comment
        }),
{
    lemma_fixed_texts();
    let quote = seq!['"'];
    let nl = seq!['\n'];
    let l2 = rating_line(rating);
    let l3 = date_line(date);
    let l4 = source_line(source_key, source_id);
    let s7 = comment + nl;
    let s6 = with_line(Seq::<char>::empty(), s7);
    let s5 = with_line("---"@, s6);
    let s4 = with_line(l4, s5);
    let s3 = with_line(l3, s4);
    lemma_single_line_concat("rating: \""@, rating);
    lemma_single_line_concat("rating: \""@ + rating, quote);
    lemma_single_line_concat("finishedDate: "@, date);
    lemma_single_line_concat(source_key, ": \""@);
    lemma_single_line_concat(source_key + ": \""@, source_id);
    lemma_single_line_concat(source_key + ": \""@ + source_id, quote);
    lemma_line_in(doc, before, l2, s3);
    let pre3 = before + l2 + nl;
    lemma_line_in(doc, pre3, l3, s4);
    let pre4 = pre3 + l3 + nl;
    lemma_line_in(doc, pre4, l4, s5);
    let pre5 = pre4 + l4 + nl;
    lemma_line_in(doc, pre5, "---"@, s6);
    let pre6 = pre5 + "---"@ + nl;
    lemma_line_in(doc, pre6, Seq::<char>::empty(), s7);
    let pre7 = pre6 + Seq::<char>::empty() + nl;
    assert(doc == pre7 + s7);
    assert(doc.subrange(pre7.len() as int, doc.len() - 1) =~= comment);
}

/// What the reader finds in the first lines of a document.
proof fn lemma_head_read(
    doc: Seq<char>,
    name: Seq<char>,
    platform: Seq<char>,
    rating: Seq<char>,
    rest: Seq<char>,
)
    requires
        single_line(name),
        single_line(platform),
        single_line(rating),
        doc == with_line(
            "---"@,
            with_line(
                title_line(name),
                if platform.len() == 0 {
                    with_line(rating_line(rating), rest)
                } else {
                    with_line(platform_text_line(platform), with_line(rating_line(rating), rest))
                },
            ),
        ),
    ensures
        ({
            let o = line_end(doc, 0);
            let t = line_end(doc, o + 1);
            let start = if platform_at(doc, t + 1) is Some {
                line_end(doc, t + 1) + 1
            } else {
                t + 1
            };
            &&& doc.subrange(0, o) == "---"@
            &&& doc.subrange(o + 1, t) == title_line(name)
            &&& platform_at(doc, t + 1) == (if platform.len() == 0 {
                None
            } else {
                Some(platform)
            })
            &&& 0 <= start <= doc.len()
            &&& doc == doc.take(start) + with_line(rating_line(rating), rest)
        }),
{
    lemma_fixed_texts();
    let quote = seq!['"'];
    let nl = seq!['\n'];
    let l1 = title_line(name);
    let next = if platform.len() == 0 {
        with_line(rating_line(rating), rest)
    } else {
        with_line(platform_text_line(platform), with_line(rating_line(rating), rest))
    };
    lemma_single_line_concat("title: \""@, name);
    lemma_single_line_concat("title: \""@ + name, quote);
    let pre0 = Seq::<char>::empty();
    assert(doc =~= pre0 + with_line("---"@, with_line(l1, next)));
    lemma_line_in(doc, pre0, "---"@, with_line(l1, next));
    let pre1 = pre0 + "---"@ + nl;
    lemma_line_in(doc, pre1, l1, next);
    let pre2 = pre1 + l1 + nl;
    lemma_platform_read(doc, pre2, platform, rating, rest);
}

/// What reading a written document gives back.
pub open spec fn read_back(
    name: Seq<char>,
    platform: Seq<char>,
    rating: Seq<char>,
    date: Seq<char>,
    source_key: Seq<char>,
    source_id: Seq<char>,
    comment: Seq<char>,
) -> FrontMatterText {
    FrontMatterText {
        title: name,
        platform: if platform.len() == 0 {
            None
        } else {
            Some(platform)
        },
        rating,
        finished_date: date,
        source_key,
        source_id,
        body: comment,
    }
}

/// Writing a document and reading it gives every field back: the title, the
/// platform (none for a blank one), the rating, the date as written, the key
/// and the identifier, and the comment as the body. The fields of the front
/// matter must each be a single line, and the key must hold no colon; the
/// comment may be any text.
pub proof fn lemma_document_round_trip(
    name: Seq<char>,
    platform: Seq<char>,
    rating: Seq<char>,
    date: Seq<char>,
    source_key: Seq<char>,
    source_id: Seq<char>,
    comment: Seq<char>,
)
    requires
        single_line(name),
        single_line(platform),
        single_line(rating),
        single_line(date),
        single_line(source_key),
        single_line(source_id),
        !source_key.contains(':'),
    ensures
        parse_document(
            document_of(name, platform, rating, date, source_key, source_id, comment),
        ) == Some(read_back(name, platform, rating, date, source_key, source_id, comment)),
{
    lemma_document_lines(name, platform, rating, date, source_key, source_id, comment);
    let doc = document_of(name, platform, rating, date, source_key, source_id, comment);
    let l3 = date_line(date);
    let rest = with_line(
        l3,
        with_line(
            source_line(source_key, source_id),
            with_line("---"@, with_line(Seq::<char>::empty(), comment + seq!['\n'])),
        ),
    );
    lemma_head_read(doc, name, platform, rating, rest);
    let c = cuts_of(doc);
    lemma_tail_read(doc, doc.take(c.rating_start), rating, date, source_key, source_id, comment);
    lemma_quoted_read("title: \""@, name);
    lemma_quoted_read("rating: \""@, rating);
    lemma_keyed_read(source_key, source_id);
    assert(l3.take("finishedDate: "@.len() as int) =~= "finishedDate: "@);
    assert(l3.skip("finishedDate: "@.len() as int) =~= date);
}

/// Where the line after a line that ends at `prev_end` ends.
fn next_line_end(v: &Vec<char>, prev_end: usize) -> (r: usize)
    ensures
        r == line_end(v@, prev_end + 1),
        r <= v.len(),
        prev_end < v.len() ==> prev_end < r,
        prev_end >= v.len() ==> r == v.len(),
        r < v.len() ==> v@[r as int] == '\n',
{
    proof {
        lemma_find_from_bounds(v@, '\n', prev_end + 1);
    }
    if prev_end >= v.len() {
        return v.len();
    }
    let mut i: usize = prev_end + 1;
    while i < v.len() && v[i] != '\n'
        invariant
            prev_end < i <= v.len(),
            line_end(v@, prev_end + 1) == find_from(v@, '\n', i as int),
        decreases v.len() - i,
    {
        i += 1;
    }
    i
}

/// Where the first line ends.
fn first_line_end(v: &Vec<char>) -> (r: usize)
    ensures
        r == line_end(v@, 0),
        r <= v.len(),
        r < v.len() ==> v@[r as int] == '\n',
{
    proof {
        lemma_find_from_bounds(v@, '\n', 0);
    }
    let mut i: usize = 0;
    while i < v.len() && v[i] != '\n'
        invariant
            i <= v.len(),
            line_end(v@, 0) == find_from(v@, '\n', i as int),
        decreases v.len() - i,
    {
        i += 1;
    }
    i
}

/// Where the first `c` of the line `v[start..end]` stands, counted from the
/// start of `v`; `end` where the line has none.
fn find_in_line(v: &Vec<char>, c: char, start: usize, end: usize) -> (r: usize)
    requires
        start <= end <= v.len(),
    ensures
        start <= r <= end,
        r - start == find_from(v@.subrange(start as int, end as int), c, 0),
{
    let ghost line = v@.subrange(start as int, end as int);
    let mut i: usize = start;
    while i < end && v[i] != c
        invariant
            start <= i <= end,
            end <= v.len(),
            line == v@.subrange(start as int, end as int),
            find_from(line, c, 0) == find_from(line, c, i - start),
        decreases end - i,
    {
        assert(line[i - start] == v@[i as int]);
        i += 1;
    }
    proof {
        if i < end {
            assert(line[i - start] == v@[i as int]);
        }
    }
    i
}

/// Whether the line `v[start..end]` begins with `prefix`.
fn line_starts_with(v: &Vec<char>, start: usize, end: usize, prefix: &Vec<char>) -> (r: bool)
    requires
        start <= end <= v.len(),
    ensures
        r == (end - start >= prefix.len() && v@.subrange(start as int, end as int).take(
            prefix.len() as int,
        ) == prefix@),
{
    if end - start < prefix.len() {
        return false;
    }
    let ghost head = v@.subrange(start as int, end as int).take(prefix.len() as int);
    let mut i: usize = 0;
    while i < prefix.len()
        invariant
            i <= prefix.len(),
            start <= end <= v.len(),
            end - start >= prefix.len(),
            head == v@.subrange(start as int, end as int).take(prefix.len() as int),
            forall|j: int| 0 <= j < i ==> head[j] == prefix@[j],
        decreases prefix.len() - i,
    {
        assert(head[i as int] == v@[start + i]);
        if v[start + i] != prefix[i] {
            return false;
        }
        i += 1;
    }
    assert(head =~= prefix@);
    true
}

/// The bounds within `v` of the value of a line `<prefix><value>"`.
fn quoted_range(v: &Vec<char>, start: usize, end: usize, prefix: &Vec<char>) -> (r: Option<
    (usize, usize),
>)
    requires
        start <= end <= v.len(),
    ensures
        r is Some <==> quoted_value(v@.subrange(start as int, end as int), prefix@) is Some,
        r matches Some((a, b)) ==> start <= a <= b <= end && quoted_value(
            v@.subrange(start as int, end as int),
            prefix@,
        ) == Some(v@.subrange(a as int, b as int)),
{
    let ghost line = v@.subrange(start as int, end as int);
    if line_starts_with(v, start, end, prefix) && end - start > prefix.len() && v[end - 1] == '"' {
        assert(line.last() == v@[end - 1]);
        assert(line.subrange(prefix.len() as int, line.len() - 1) =~= v@.subrange(
            start + prefix.len(),
            end - 1,
        ));
        Some((start + prefix.len(), end - 1))
    } else {
        proof {
            if end - start > prefix.len() {
                assert(line.last() == v@[end - 1]);
            }
        }
        None
    }
}

/// The text of `doc` between two positions, counted in characters.
fn slice_of(doc: &str, from: usize, to: usize) -> (r: String)
    requires
        from <= to <= doc@.len(),
    ensures
        r@ == doc@.subrange(from as int, to as int),
{
    String::from_str(doc.substring_char(from, to))
}

/// The characters of an optional front-matter record.
pub open spec fn front_matter_text(r: Option<FrontMatter>) -> Option<FrontMatterText> {
    match r {
        Some(fm) => Some(fm@),
        None => None,
    }
}

/// Reads an entry's document: `None` where it has not the shape that
/// `write_document` gives.
pub fn parse_front_matter(doc: &str) -> (r: Option<FrontMatter>)
    ensures
        front_matter_text(r) == parse_document(doc@),
{
    let v = chars_of(doc);
    let n = v.len();
    proof {
        reveal_strlit("---");
    }
    let title_prefix = chars_of("title: \"");
    let platform_prefix = chars_of("platform: \"");
    let rating_prefix = chars_of("rating: \"");
    let date_prefix = chars_of("finishedDate: ");
    let fence = chars_of("---");
    let opening = first_line_end(&v);
    let title = next_line_end(&v, opening);
    let platform_end = next_line_end(&v, title);
    let platform = if platform_end < n {
        quoted_range(&v, title + 1, platform_end, &platform_prefix)
    } else {
        None
    };
    let rating_start: usize = if platform.is_some() {
        platform_end + 1
    } else if title < n {
        title + 1
    } else {
        n
    };
    let ghost c = cuts_of(v@);
    assert(platform is Some <==> platform_at(v@, title + 1) is Some);
    let rating = if rating_start >= 1 {
        next_line_end(&v, rating_start - 1)
    } else {
        n
    };
    assert(title >= n ==> c.blank == n) by {
        if title >= n {
            lemma_find_from_bounds(v@, '\n', title + 1);
            lemma_find_from_bounds(v@, '\n', c.rating_start);
            lemma_find_from_bounds(v@, '\n', c.rating + 1);
            lemma_find_from_bounds(v@, '\n', c.date + 1);
            lemma_find_from_bounds(v@, '\n', c.source + 1);
            lemma_find_from_bounds(v@, '\n', c.closing + 1);
        }
    }
    if title >= n {
        return None;
    }
    assert(c.rating_start == rating_start);
    assert(c.rating == rating);
    let date = next_line_end(&v, rating);
    let source = next_line_end(&v, date);
    let closing = next_line_end(&v, source);
    let blank = next_line_end(&v, closing);
    assert(c.blank == blank);
    if !(blank < n && blank + 1 < n && blank == closing + 1 && v[n - 1] == '\n') {
        return None;
    }
    assert(opening < title < rating_start <= rating < date < source < closing < blank);
    if !(line_starts_with(&v, 0, opening, &fence) && opening == 3) {
        assert(v@.subrange(0, opening as int).take(3) =~= v@.subrange(0, opening as int) || opening
            != 3);
        return None;
    }
    assert(v@.subrange(0, opening as int).take(3) =~= v@.subrange(0, opening as int));
    if !(line_starts_with(&v, source + 1, closing, &fence) && closing - source == 4) {
        assert(v@.subrange(source + 1, closing as int).take(3) =~= v@.subrange(
            source + 1,
            closing as int,
        ) || closing - source != 4);
        return None;
    }
    assert(v@.subrange(source + 1, closing as int).take(3) =~= v@.subrange(
        source + 1,
        closing as int,
    ));
    let title_at = quoted_range(&v, opening + 1, title, &title_prefix);
    let rating_at = quoted_range(&v, rating_start, rating, &rating_prefix);
    let has_date = line_starts_with(&v, rating + 1, date, &date_prefix);
    let colon = find_in_line(&v, ':', date + 1, source);
    let ghost source_text = v@.subrange(date + 1, source as int);
    let keyed = colon + 4 <= source && v[colon + 1] == ' ' && v[colon + 2] == '"' && v[source - 1]
        == '"';
    proof {
        let k = colon - (date + 1);
        if k + 4 <= source_text.len() {
            assert(source_text[k + 1] == v@[colon + 1]);
            assert(source_text[k + 2] == v@[colon + 2]);
            assert(source_text.last() == v@[source - 1]);
        }
        assert(keyed == (keyed_value(source_text) is Some));
    }
    match (title_at, rating_at) {
        (Some((t0, t1)), Some((r0, r1))) => {
            if has_date && keyed {
                let platform_text = match platform {
                    Some((from, to)) => Some(slice_of(doc, from, to)),
                    None => None,
                };
                let found = FrontMatter {
                    title: slice_of(doc, t0, t1),
                    platform: platform_text,
                    rating: slice_of(doc, r0, r1),
                    finished_date: slice_of(doc, rating + 1 + date_prefix.len(), date),
                    source_key: slice_of(doc, date + 1, colon),
                    source_id: slice_of(doc, colon + 3, source - 1),
                    body: slice_of(doc, blank + 1, n - 1),
                };
                proof {
                    let date_text = v@.subrange(rating + 1, date as int);
                    assert(date_text.skip(date_prefix.len() as int) =~= v@.subrange(
                        rating + 1 + date_prefix.len(),
                        date as int,
                    ));
                    let k = colon - (date + 1);
                    assert(source_text.take(k) =~= v@.subrange(date + 1, colon as int));
                    assert(source_text.subrange(k + 3, source_text.len() - 1) =~= v@.subrange(
                        colon + 3,
                        source - 1,
                    ));
                    assert(v@.last() == v@[n - 1]);
                }
                Some(found)
            } else {
                None
            }
        },
        _ => None,
    }
}

} // verus!
