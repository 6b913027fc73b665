//! The exported catalogue dataset and its content hash, by which a client
//! tells that its cached copy is stale.

use crate::date::midnight_millis;
use crate::json::{json_literal, quote};
use crate::kind::{type_id_of, Card, ContentType};
use crate::rating::weight_of;
use crate::text::{decimal, u64_to_decimal};
use std::hash::{DefaultHasher, Hasher};
use vstd::prelude::*;
use vstd::std_specs::hash::DefaultHasherAdditionalSpecFns;
use vstd::string::*;
use vstd::utf8::encode_utf8;

verus! {

/// One entry of the exported dataset: what a card is drawn from.
pub struct DatasetRow {
    pub cover: String,
    pub placeholder: String,
    /// The number of the entry's kind.
    pub type_id: u8,
    pub title: String,
    /// The rating's weight, 0 to 5.
    pub rating: u8,
    pub author: String,
    /// Midnight of the finishing date in milliseconds since the start of
    /// 1970; none for an undated entry.
    pub finished_ms: Option<i64>,
}

/// A dataset row as character sequences and numbers.
pub struct RowText {
    pub cover: Seq<char>,
    pub placeholder: Seq<char>,
    pub type_id: int,
    pub title: Seq<char>,
    pub rating: int,
    pub author: Seq<char>,
    pub finished_ms: Option<i64>,
}

impl View for DatasetRow {
    type V = RowText;

    open spec fn view(&self) -> RowText {
        RowText {
            cover: self.cover@,
            placeholder: self.placeholder@,
            type_id: self.type_id as int,
            title: self.title@,
            rating: self.rating as int,
            author: self.author@,
            finished_ms: self.finished_ms,
        }
    }
}

/// The row of a card.
pub open spec fn row_for(card: Card) -> RowText {
    RowText {
        cover: card.cover@,
        placeholder: card.placeholder@,
        type_id: type_id_of(card.kind),
        title: card.title@,
        rating: weight_of(card.rating),
        author: card.author@,
        finished_ms: match card.finished_date {
            Some(d) => midnight_millis(d.year, d.month, d.day),
            None => None,
        },
    }
}

/// The rows of a list of cards, in the order of the cards.
pub open spec fn rows_for(cards: Seq<Card>) -> Seq<RowText> {
    cards.map_values(|c: Card| row_for(c))
}

/// The rows of a dataset as character sequences and numbers.
pub open spec fn row_texts(rows: Seq<DatasetRow>) -> Seq<RowText> {
    rows.map_values(|r: DatasetRow| r@)
}

/// The cards of one kind, in the order in which they stand.
pub open spec fn of_kind(cards: Seq<Card>, kind: ContentType) -> Seq<Card>
    decreases cards.len(),
{
    if cards.len() == 0 {
        Seq::<Card>::empty()
    } else if cards.last().kind == kind {
        of_kind(cards.drop_last(), kind).push(cards.last())
    } else {
        of_kind(cards.drop_last(), kind)
    }
}

/// The cards in the order of the exported dataset: the games, then the
/// movies, the shows and the books, each kind in the order it came in.
pub open spec fn export_order_of(cards: Seq<Card>) -> Seq<Card> {
    of_kind(cards, ContentType::Game) + of_kind(cards, ContentType::Movie) + of_kind(
        cards,
        ContentType::Show,
    ) + of_kind(cards, ContentType::Book)
}

/// The hexadecimal digit character for a value below sixteen.
pub open spec fn hex_digit(d: nat) -> char {
    if d == 0 {
        '0'
    } else if d == 1 {
        '1'
    } else if d == 2 {
        '2'
    } else if d == 3 {
        '3'
    } else if d == 4 {
        '4'
    } else if d == 5 {
        '5'
    } else if d == 6 {
        '6'
    } else if d == 7 {
        '7'
    } else if d == 8 {
        '8'
    } else if d == 9 {
        '9'
    } else if d == 10 {
        'a'
    } else if d == 11 {
        'b'
    } else if d == 12 {
        'c'
    } else if d == 13 {
        'd'
    } else if d == 14 {
        'e'
    } else {
        'f'
    }
}

/// The lower-case hexadecimal numeral of a number, without leading zeros.
pub open spec fn hexadecimal(n: nat) -> Seq<char>
    decreases n,
{
    if n < 16 {
        seq![hex_digit(n)]
    } else {
        hexadecimal(n / 16).push(hex_digit(n % 16))
    }
}

/// The decimal numeral of an integer, with a minus sign below zero.
pub open spec fn signed_decimal(n: int) -> Seq<char> {
    if n < 0 {
        seq!['-'] + decimal((-n) as nat)
    } else {
        decimal(n as nat)
    }
}

/// The row of a card.
pub fn row_of(card: &Card) -> (r: DatasetRow)
    ensures
        r@ == row_for(*card),
{
    DatasetRow {
        cover: card.cover.clone(),
        placeholder: card.placeholder.clone(),
        type_id: card.kind.type_id(),
        title: card.title.clone(),
        rating: card.rating.to_number(),
        author: card.author.clone(),
        finished_ms: match &card.finished_date {
            Some(d) => d.timestamp_millis(),
            None => None,
        },
    }
}

/// Appends to `out` the cards of one kind.
fn append_kind(out: &mut Vec<Card>, cards: &Vec<Card>, kind: ContentType)
    ensures
        final(out)@ == old(out)@ + of_kind(cards@, kind),
{
    let ghost before = out@;
    let mut i: usize = 0;
    assert(out@ =~= before + of_kind(cards@.take(0), kind));
    while i < cards.len()
        invariant
            i <= cards.len(),
            out@ == before + of_kind(cards@.take(i as int), kind),
        decreases cards.len() - i,
    {
        assert(cards@.take(i + 1).drop_last() =~= cards@.take(i as int));
        assert(cards@.take(i + 1).last() == cards@[i as int]);
        if cards[i].kind == kind {
            out.push(cards[i].duplicate());
        }
        assert(out@ =~= before + of_kind(cards@.take(i + 1), kind));
        i += 1;
    }
    assert(cards@.take(i as int) =~= cards@);
}

/// Puts the cards in the order of the exported dataset: games, movies, shows,
/// books.
pub fn export_order(cards: &Vec<Card>) -> (r: Vec<Card>)
    ensures
        r@ == export_order_of(cards@),
{
    let mut out: Vec<Card> = Vec::new();
    append_kind(&mut out, cards, ContentType::Game);
    append_kind(&mut out, cards, ContentType::Movie);
    append_kind(&mut out, cards, ContentType::Show);
    append_kind(&mut out, cards, ContentType::Book);
    assert(out@ =~= export_order_of(cards@));
    out
}

/// The rows of the dataset, one for each card and in the order of the cards.
pub fn dataset_rows(cards: &Vec<Card>) -> (rows: Vec<DatasetRow>)
    ensures
        row_texts(rows@) == rows_for(cards@),
{
    let mut rows: Vec<DatasetRow> = Vec::new();
    let mut i: usize = 0;
    while i < cards.len()
        invariant
            i <= cards.len(),
            rows.len() == i,
            row_texts(rows@) == rows_for(cards@).take(i as int),
        decreases cards.len() - i,
    {
        let ghost before = rows@;
        let row = row_of(&cards[i]);
        rows.push(row);
        assert forall|j: int| 0 <= j < i + 1 implies row_texts(rows@)[j] == rows_for(cards@)[j] by {
            if j < i {
                assert(rows@[j] == before[j]);
                assert(row_texts(before)[j] == rows_for(cards@).take(i as int)[j]);
            }
        }
        assert(row_texts(rows@) =~= rows_for(cards@).take(i + 1));
        i += 1;
    }
    assert(row_texts(rows@) =~= rows_for(cards@));
    rows
}

fn hex_digit_str(d: u64) -> (s: &'static str)
    requires
        d < 16,
    ensures
        s@ == seq![hex_digit(d as nat)],
{
    proof {
        reveal_strlit("0");
        reveal_strlit("1");
        reveal_strlit("2");
        reveal_strlit("3");
        reveal_strlit("4");
        reveal_strlit("5");
        reveal_strlit("6");
        reveal_strlit("7");
        reveal_strlit("8");
        reveal_strlit("9");
        reveal_strlit("a");
        reveal_strlit("b");
        reveal_strlit("c");
        reveal_strlit("d");
        reveal_strlit("e");
        reveal_strlit("f");
    }
    let s = if d == 0 {
        "0"
    } else if d == 1 {
        "1"
    } else if d == 2 {
        "2"
    } else if d == 3 {
        "3"
    } else if d == 4 {
        "4"
    } else if d == 5 {
        "5"
    } else if d == 6 {
        "6"
    } else if d == 7 {
        "7"
    } else if d == 8 {
        "8"
    } else if d == 9 {
        "9"
    } else if d == 10 {
        "a"
    } else if d == 11 {
        "b"
    } else if d == 12 {
        "c"
    } else if d == 13 {
        "d"
    } else if d == 14 {
        "e"
    } else {
        "f"
    };
    assert(s@ =~= seq![hex_digit(d as nat)]);
    s
}

/// Writes a number in lower-case hexadecimal.
pub fn u64_to_hex(n: u64) -> (s: String)
    ensures
        s@ == hexadecimal(n as nat),
    decreases n,
{
    if n < 16 {
        String::from_str(hex_digit_str(n))
    } else {
        let mut s = u64_to_hex(n / 16);
        s.append(hex_digit_str(n % 16));
        assert(s@ =~= hexadecimal(n as nat));
        s
    }
}

/// Writes an integer in decimal.
pub fn i64_to_decimal(n: i64) -> (s: String)
    ensures
        s@ == signed_decimal(n as int),
{
    if n < 0 {
        let magnitude: u64 = (-(n + 1)) as u64 + 1;
        proof {
            reveal_strlit("-");
        }
        let mut s = String::from_str("-");
        let digits = u64_to_decimal(magnitude);
        s.append(digits.as_str());
        assert(s@ =~= signed_decimal(n as int));
        s
    } else {
        u64_to_decimal(n as u64)
    }
}

/// The JSON of one row: an array of cover, placeholder, kind, title, rating
/// and author, with the finishing time at the end where the entry has one.
pub open spec fn row_json(r: RowText) -> Seq<char> {
    "["@ + json_literal(r.cover) + ","@ + json_literal(r.placeholder) + ","@ + decimal(
        r.type_id as nat,
    ) + ","@ + json_literal(r.title) + ","@ + decimal(r.rating as nat) + ","@ + json_literal(
        r.author,
    ) + (match r.finished_ms {
        Some(ms) => ","@ + signed_decimal(ms as int),
        None => Seq::<char>::empty(),
    }) + "]"@
}

/// The JSON of the first `n` rows, separated by commas.
pub open spec fn rows_json(rows: Seq<RowText>, n: nat) -> Seq<char>
    decreases n,
{
    if n == 0 {
        Seq::<char>::empty()
    } else if n == 1 {
        row_json(rows[0])
    } else {
        rows_json(rows, (n - 1) as nat) + ","@ + row_json(rows[n - 1])
    }
}

/// The exported document: a JSON array of the hash and the array of rows.
pub open spec fn export_of(hash: Seq<char>, rows: Seq<RowText>) -> Seq<char> {
    "["@ + json_literal(hash) + ",["@ + rows_json(rows, rows.len()) + "]]"@
}

/// Writes the JSON of one row.
pub fn write_row(row: &DatasetRow) -> (r: String)
    ensures
        r@ == row_json(row@),
{
    let mut s = String::from_str("[");
    s.append(quote(row.cover.as_str()).as_str());
    s.append(",");
    s.append(quote(row.placeholder.as_str()).as_str());
    s.append(",");
    s.append(u64_to_decimal(row.type_id as u64).as_str());
    s.append(",");
    s.append(quote(row.title.as_str()).as_str());
    s.append(",");
    s.append(u64_to_decimal(row.rating as u64).as_str());
    s.append(",");
    s.append(quote(row.author.as_str()).as_str());
    let ghost head = s@;
    match row.finished_ms {
        Some(ms) => {
            s.append(",");
            s.append(i64_to_decimal(ms).as_str());
            assert(s@ =~= head + (","@ + signed_decimal(ms as int)));
        },
        None => {
            assert(s@ =~= head + Seq::<char>::empty());
        },
    }
    s.append("]");
    assert(s@ =~= row_json(row@));
    s
}

/// The digest of the rows: what a fresh `DefaultHasher` returns after the
/// UTF-8 bytes of the rows' JSON were written to it in one piece.
pub open spec fn digest_of(rows: Seq<RowText>) -> u64 {
    DefaultHasher::spec_finish(seq![encode_utf8(rows_json(rows, rows.len()))])
}

/// The content hash of a dataset: the digest of its rows, written in
/// hexadecimal.
pub open spec fn hash_of(rows: Seq<RowText>) -> Seq<char> {
    hexadecimal(digest_of(rows) as nat)
}

/// Writes the JSON of the rows, separated by commas.
pub fn write_rows(rows: &Vec<DatasetRow>) -> (list: String)
    ensures
        list@ == rows_json(row_texts(rows@), rows.len() as nat),
{
    let ghost texts = row_texts(rows@);
    let mut list = String::new();
    let mut i: usize = 0;
    while i < rows.len()
        invariant
            i <= rows.len(),
            texts == row_texts(rows@),
            list@ == rows_json(texts, i as nat),
        decreases rows.len() - i,
    {
        let ghost before = list@;
        if i > 0 {
            list.append(",");
        }
        let row = write_row(&rows[i]);
        list.append(row.as_str());
        assert(texts[i as int] == rows[i as int]@);
        assert(list@ =~= rows_json(texts, (i + 1) as nat)) by {
            if i == 0 {
                assert(before =~= Seq::<char>::empty());
            }
        }
        i += 1;
    }
    list
}

/// The content hash of the dataset: a digest of the rows, their order
/// included, written in hexadecimal. Equal datasets have equal hashes.
pub fn catalogue_hash(rows: &Vec<DatasetRow>) -> (hash: String)
    ensures
        hash@ == hash_of(row_texts(rows@)),
{
    let list = write_rows(rows);
    let mut hasher = DefaultHasher::new();
    hasher.write(list.as_str().as_bytes());
    let digest: u64 = hasher.finish();
    assert(hasher@ =~= seq![encode_utf8(list@)]);
    u64_to_hex(digest)
}

/// Writes the exported document for a hash and the rows it was made of.
pub fn export_json(hash: &str, rows: &Vec<DatasetRow>) -> (r: String)
    ensures
        r@ == export_of(hash@, row_texts(rows@)),
{
    let ghost texts = row_texts(rows@);
    let list = write_rows(rows);
    let mut s = String::from_str("[");
    s.append(quote(hash).as_str());
    s.append(",[");
    s.append(list.as_str());
    s.append("]]");
    assert(s@ =~= export_of(hash@, texts));
    s
}

} // verus!
