use erika_catalogue::rating::{rank_of_rating_name, Rating};

const ALL: [Rating; 6] = [
    Rating::Masterpiece,
    Rating::Loved,
    Rating::Liked,
    Rating::Okay,
    Rating::Disliked,
    Rating::Hated,
];

#[test]
fn to_number_gives_the_weights() {
    assert_eq!(Rating::Masterpiece.to_number(), 5);
    assert_eq!(Rating::Loved.to_number(), 4);
    assert_eq!(Rating::Liked.to_number(), 3);
    assert_eq!(Rating::Okay.to_number(), 2);
    assert_eq!(Rating::Disliked.to_number(), 1);
    assert_eq!(Rating::Hated.to_number(), 0);
}

#[test]
fn weights_are_a_bijection() {
    let mut seen = [false; 6];
    for r in ALL {
        let n = r.to_number() as usize;
        assert!(n < 6);
        assert!(!seen[n]);
        seen[n] = true;
        assert_eq!(Rating::from_number(n as u8), Some(r));
    }
    assert!(seen.iter().all(|s| *s));
    assert_eq!(Rating::from_number(6), None);
    assert_eq!(Rating::from_number(255), None);
}

#[test]
fn ranks_run_from_best_to_worst() {
    assert_eq!(Rating::Masterpiece.rank(), 1);
    assert_eq!(Rating::Loved.rank(), 2);
    assert_eq!(Rating::Liked.rank(), 3);
    assert_eq!(Rating::Okay.rank(), 4);
    assert_eq!(Rating::Disliked.rank(), 5);
    assert_eq!(Rating::Hated.rank(), 6);
    assert_eq!(rank_of_rating_name("masterpiece"), 1);
    assert_eq!(rank_of_rating_name("hated"), 6);
    assert_eq!(rank_of_rating_name("unheard of"), 7);
    assert_eq!(rank_of_rating_name("Loved"), 7);
}

#[test]
fn names_read_back() {
    for r in ALL {
        assert_eq!(Rating::from_name(r.name()), Some(r));
    }
    assert_eq!(Rating::Masterpiece.name(), "masterpiece");
    assert_eq!(Rating::Disliked.name(), "disliked");
    assert_eq!(Rating::from_name(""), None);
    assert_eq!(Rating::from_name("liked "), None);
}

#[test]
fn labels_and_glyphs() {
    assert_eq!(Rating::Masterpiece.label(), "Masterpiece");
    assert_eq!(Rating::Okay.label(), "Okay");
    assert_eq!(Rating::Masterpiece.glyph(), "\u{2764}\u{fe0f}");
    assert_eq!(Rating::Loved.glyph(), "\u{1f970}");
    assert_eq!(Rating::Liked.glyph(), "\u{1f642}");
    assert_eq!(Rating::Okay.glyph(), "\u{1f610}");
    assert_eq!(Rating::Disliked.glyph(), "\u{1f615}");
    assert_eq!(Rating::Hated.glyph(), "\u{1f641}");
}
