use slug_intl::{classify, slugify, Piece};

#[test]
fn every_text_piece_holds_a_character_and_no_hyphen() {
    for c in '\u{0}'..=char::MAX {
        if let Piece::Text(chars) = classify(c) {
            assert!(!chars.is_empty(), "{:?}", c);
            assert!(!chars.contains(&'-'), "{:?}", c);
        }
    }
}

#[test]
fn the_hyphen_is_a_gap() {
    assert_eq!(Piece::Gap, classify('-'));
}

#[test]
fn every_character_of_a_text_piece_gives_itself() {
    for c in '\u{0}'..=char::MAX {
        if let Piece::Text(chars) = classify(c) {
            for kept in chars {
                assert_eq!(Piece::Text(vec![kept]), classify(kept), "{:?}", c);
            }
        }
    }
}

#[test]
fn slug_of_one_character_has_the_shape_of_a_slug() {
    for c in '\u{0}'..=char::MAX {
        let slug = slugify(&c.to_string());
        assert!(!slug.starts_with('-'), "{:?}", c);
        assert!(!slug.ends_with('-'), "{:?}", c);
        assert!(!slug.contains("--"), "{:?}", c);
    }
}
