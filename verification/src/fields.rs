//! Name and value pairs, as a submitted form or a query string carries them.

use crate::text::str_eq;
use vstd::prelude::*;

verus! {

/// One pair of a form body or a query string, percent-decoded.
pub struct Field {
    pub name: String,
    pub value: String,
}

/// The pairs of a list of fields, as character sequences.
pub open spec fn pairs_of(fields: Seq<Field>) -> Seq<(Seq<char>, Seq<char>)> {
    fields.map_values(|f: Field| (f.name@, f.value@))
}

/// The characters of an optional text.
pub open spec fn text_of(o: Option<String>) -> Option<Seq<char>> {
    match o {
        Some(s) => Some(s@),
        None => None,
    }
}

/// The value of the first pair named `key`.
pub open spec fn first_value(pairs: Seq<(Seq<char>, Seq<char>)>, key: Seq<char>) -> Option<
    Seq<char>,
>
    decreases pairs.len(),
{
    if pairs.len() == 0 {
        None
    } else if pairs[0].0 == key {
        Some(pairs[0].1)
    } else {
        first_value(pairs.drop_first(), key)
    }
}

/// The value of the last pair named `key`.
pub open spec fn last_value(pairs: Seq<(Seq<char>, Seq<char>)>, key: Seq<char>) -> Option<
    Seq<char>,
>
    decreases pairs.len(),
{
    if pairs.len() == 0 {
        None
    } else if pairs.last().0 == key {
        Some(pairs.last().1)
    } else {
        last_value(pairs.drop_last(), key)
    }
}

/// The pairs that `form_urlencoded::parse` reads from a body, in order, names
/// and values percent-decoded.
pub uninterp spec fn decoded_pairs(body: Seq<char>) -> Seq<(Seq<char>, Seq<char>)>;

/// Calls `form_urlencoded::parse` on the bytes of `body` and collects the
/// pairs it yields. Trusted: the pairs are the named `decoded_pairs`.
#[verifier::external_body]
fn decode_urlencoded(body: &str) -> (r: Vec<Field>)
    ensures
        pairs_of(r@) == decoded_pairs(body@),
{
    let mut out = Vec::new();
    for (name, value) in form_urlencoded::parse(body.as_bytes()).into_owned() {
        out.push(Field { name, value });
    }
    out
}

/// Reads a body in the `application/x-www-form-urlencoded` syntax.
pub fn parse_fields(body: &str) -> (r: Vec<Field>)
    ensures
        pairs_of(r@) == decoded_pairs(body@),
{
    decode_urlencoded(body)
}

/// The value of the first field named `key`, as a query string is read.
pub fn find_first(fields: &Vec<Field>, key: &str) -> (r: Option<String>)
    ensures
        text_of(r) == first_value(pairs_of(fields@), key@),
{
    let ghost pairs = pairs_of(fields@);
    let mut i: usize = 0;
    assert(pairs.subrange(0, pairs.len() as int) =~= pairs);
    while i < fields.len()
        invariant
            i <= fields.len(),
            pairs == pairs_of(fields@),
            first_value(pairs, key@) == first_value(pairs.subrange(i as int, pairs.len() as int), key@),
        decreases fields.len() - i,
    {
        let ghost rest = pairs.subrange(i as int, pairs.len() as int);
        assert(rest[0] == pairs[i as int]);
        assert(rest.drop_first() =~= pairs.subrange(i + 1, pairs.len() as int));
        if str_eq(fields[i].name.as_str(), key) {
            return Some(fields[i].value.clone());
        }
        i += 1;
    }
    None
}

/// The value of the last field named `key`, as a form body is read: a later
/// field of the same name replaces an earlier one.
pub fn find_last(fields: &Vec<Field>, key: &str) -> (r: Option<String>)
    ensures
        text_of(r) == last_value(pairs_of(fields@), key@),
{
    let ghost pairs = pairs_of(fields@);
    let mut i: usize = fields.len();
    assert(pairs.take(i as int) =~= pairs);
    while i > 0
        invariant
            i <= fields.len(),
            pairs == pairs_of(fields@),
            last_value(pairs, key@) == last_value(pairs.take(i as int), key@),
        decreases i,
    {
        let ghost head = pairs.take(i as int);
        assert(head.last() == pairs[i - 1]);
        assert(head.drop_last() =~= pairs.take(i - 1));
        if str_eq(fields[i - 1].name.as_str(), key) {
            return Some(fields[i - 1].value.clone());
        }
        i -= 1;
    }
    None
}

} // verus!
