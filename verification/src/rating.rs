//! The six-point rating scale of catalogue entries.

use crate::text::str_eq;
use vstd::prelude::*;

verus! {

/// How much an entry was liked, from `Masterpiece` down to `Hated`.
#[derive(Clone, Copy, Debug, PartialEq, Eq, Structural, Hash)]
pub enum Rating {
    Masterpiece,
    Loved,
    Liked,
    Okay,
    Disliked,
    Hated,
}

/// The numeric weight of a rating: 5 for `Masterpiece` down to 0 for `Hated`.
pub open spec fn weight_of(r: Rating) -> int {
    match r {
        Rating::Masterpiece => 5,
        Rating::Loved => 4,
        Rating::Liked => 3,
        Rating::Okay => 2,
        Rating::Disliked => 1,
        Rating::Hated => 0,
    }
}

/// The rating that carries a given weight, if there is one.
pub open spec fn rating_of_weight(n: int) -> Option<Rating> {
    if n == 5 {
        Some(Rating::Masterpiece)
    } else if n == 4 {
        Some(Rating::Loved)
    } else if n == 3 {
        Some(Rating::Liked)
    } else if n == 2 {
        Some(Rating::Okay)
    } else if n == 1 {
        Some(Rating::Disliked)
    } else if n == 0 {
        Some(Rating::Hated)
    } else {
        None
    }
}

/// The position of a rating in the listing order: 1 for `Masterpiece`, 6 for `Hated`.
pub open spec fn rank_of(r: Rating) -> int {
    6 - weight_of(r)
}

/// The rank given to a rating name that is not one of the six.
pub const UNKNOWN_RANK: u8 = 7;

/// The lower-case name under which a rating is stored and filtered.
pub open spec fn name_of(r: Rating) -> Seq<char> {
    match r {
        Rating::Masterpiece => "masterpiece"@,
        Rating::Loved => "loved"@,
        Rating::Liked => "liked"@,
        Rating::Okay => "okay"@,
        Rating::Disliked => "disliked"@,
        Rating::Hated => "hated"@,
    }
}

/// The rating that a stored name stands for, if it is one of the six.
pub open spec fn rating_of_name(s: Seq<char>) -> Option<Rating> {
    if s == "masterpiece"@ {
        Some(Rating::Masterpiece)
    } else if s == "loved"@ {
        Some(Rating::Loved)
    } else if s == "liked"@ {
        Some(Rating::Liked)
    } else if s == "okay"@ {
        Some(Rating::Okay)
    } else if s == "disliked"@ {
        Some(Rating::Disliked)
    } else if s == "hated"@ {
        Some(Rating::Hated)
    } else {
        None
    }
}

/// The rank of a stored rating name: that of its rating, or `UNKNOWN_RANK`.
pub open spec fn rank_of_name(s: Seq<char>) -> int {
    match rating_of_name(s) {
        Some(r) => rank_of(r),
        None => UNKNOWN_RANK as int,
    }
}

/// The capitalised label shown for a rating.
pub open spec fn label_of(r: Rating) -> Seq<char> {
    match r {
        Rating::Masterpiece => "Masterpiece"@,
        Rating::Loved => "Loved"@,
        Rating::Liked => "Liked"@,
        Rating::Okay => "Okay"@,
        Rating::Disliked => "Disliked"@,
        Rating::Hated => "Hated"@,
    }
}

/// The glyph drawn on an entry's card for a rating.
pub open spec fn glyph_of(r: Rating) -> Seq<char> {
    match r {
        Rating::Masterpiece => "\u{2764}\u{fe0f}"@,
        Rating::Loved => "\u{1f970}"@,
        Rating::Liked => "\u{1f642}"@,
        Rating::Okay => "\u{1f610}"@,
        Rating::Disliked => "\u{1f615}"@,
        Rating::Hated => "\u{1f641}"@,
    }
}

impl Rating {
    /// The numeric weight, 0 to 5.
    pub fn to_number(&self) -> (n: u8)
        ensures
            n as int == weight_of(*self),
            0 <= n <= 5,
    {
        match self {
            Rating::Masterpiece => 5,
            Rating::Loved => 4,
            Rating::Liked => 3,
            Rating::Okay => 2,
            Rating::Disliked => 1,
            Rating::Hated => 0,
        }
    }

    /// The rating with the given weight; `None` above 5.
    pub fn from_number(n: u8) -> (r: Option<Rating>)
        ensures
            r == rating_of_weight(n as int),
    {
        if n == 5 {
            Some(Rating::Masterpiece)
        } else if n == 4 {
            Some(Rating::Loved)
        } else if n == 3 {
            Some(Rating::Liked)
        } else if n == 2 {
            Some(Rating::Okay)
        } else if n == 1 {
            Some(Rating::Disliked)
        } else if n == 0 {
            Some(Rating::Hated)
        } else {
            None
        }
    }

    /// The lower-case name under which the rating is stored.
    pub fn name(&self) -> (s: &'static str)
        ensures
            s@ == name_of(*self),
    {
        match self {
            Rating::Masterpiece => "masterpiece",
            Rating::Loved => "loved",
            Rating::Liked => "liked",
            Rating::Okay => "okay",
            Rating::Disliked => "disliked",
            Rating::Hated => "hated",
        }
    }

    /// The capitalised label shown for the rating.
    pub fn label(&self) -> (s: &'static str)
        ensures
            s@ == label_of(*self),
    {
        match self {
            Rating::Masterpiece => "Masterpiece",
            Rating::Loved => "Loved",
            Rating::Liked => "Liked",
            Rating::Okay => "Okay",
            Rating::Disliked => "Disliked",
            Rating::Hated => "Hated",
        }
    }

    /// The glyph drawn on an entry's card.
    pub fn glyph(&self) -> (s: &'static str)
        ensures
            s@ == glyph_of(*self),
    {
        match self {
            Rating::Masterpiece => "\u{2764}\u{fe0f}",
            Rating::Loved => "\u{1f970}",
            Rating::Liked => "\u{1f642}",
            Rating::Okay => "\u{1f610}",
            Rating::Disliked => "\u{1f615}",
            Rating::Hated => "\u{1f641}",
        }
    }

    /// The rating that a stored name stands for; `None` for any other text.
    pub fn from_name(s: &str) -> (r: Option<Rating>)
        ensures
            r == rating_of_name(s@),
    {
        if str_eq(s, "masterpiece") {
            Some(Rating::Masterpiece)
        } else if str_eq(s, "loved") {
            Some(Rating::Loved)
        } else if str_eq(s, "liked") {
            Some(Rating::Liked)
        } else if str_eq(s, "okay") {
            Some(Rating::Okay)
        } else if str_eq(s, "disliked") {
            Some(Rating::Disliked)
        } else if str_eq(s, "hated") {
            Some(Rating::Hated)
        } else {
            None
        }
    }

    /// The position in the listing order, 1 (best) to 6 (worst).
    pub fn rank(&self) -> (n: u8)
        ensures
            n as int == rank_of(*self),
            1 <= n <= 6,
    {
        6 - self.to_number()
    }
}

/// The rank of a stored rating name: 1 to 6 for the six ratings, 7 for any
/// other text.
pub fn rank_of_rating_name(s: &str) -> (n: u8)
    ensures
        n as int == rank_of_name(s@),
        1 <= n <= 7,
{
    match Rating::from_name(s) {
        Some(r) => r.rank(),
        None => UNKNOWN_RANK,
    }
}

/// Reading a rating's stored name gives the rating back.
pub proof fn lemma_name_round_trip(r: Rating)
    ensures
        rating_of_name(name_of(r)) == Some(r),
{
    reveal_strlit("masterpiece");
    reveal_strlit("loved");
    reveal_strlit("liked");
    reveal_strlit("okay");
    reveal_strlit("disliked");
    reveal_strlit("hated");
    let n = name_of(r);
    match r {
        Rating::Masterpiece => {},
        Rating::Loved => {
            assert(n.len() != "masterpiece"@.len());
        },
        Rating::Liked => {
            assert(n.len() != "masterpiece"@.len());
            assert(n[1] != "loved"@[1]);
        },
        Rating::Okay => {
            assert(n.len() != "masterpiece"@.len());
            assert(n.len() != "loved"@.len());
        },
        Rating::Disliked => {
            assert(n.len() != "masterpiece"@.len());
            assert(n.len() != "loved"@.len());
            assert(n.len() != "okay"@.len());
        },
        Rating::Hated => {
            assert(n.len() != "masterpiece"@.len());
            assert(n[0] != "loved"@[0]);
            assert(n[0] != "liked"@[0]);
            assert(n.len() != "okay"@.len());
            assert(n.len() != "disliked"@.len());
        },
    }
}

/// The weights are a bijection between the six ratings and the integers 0 to 5:
/// two ratings with the same weight are the same rating, every weight is in
/// range, and every integer in range is the weight of the rating that
/// `rating_of_weight` names.
pub proof fn lemma_weight_bijection()
    ensures
        forall|a: Rating, b: Rating| weight_of(a) == weight_of(b) ==> a == b,
        forall|a: Rating| 0 <= #[trigger] weight_of(a) <= 5,
        forall|a: Rating| rating_of_weight(#[trigger] weight_of(a)) == Some(a),
        forall|n: int|
            0 <= n <= 5 ==> (#[trigger] rating_of_weight(n)) is Some && weight_of(
                rating_of_weight(n)->0,
            ) == n,
        forall|n: int| !(0 <= n <= 5) ==> (#[trigger] rating_of_weight(n)) is None,
{
}

} // verus!
