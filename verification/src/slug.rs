//! From a text to its slug.

use vstd::prelude::*;

use crate::category::Treatment;
use crate::piece::{assemble, assembled, piece_views, Piece, PieceView};
use crate::shape::{all_words, no_boundary_hyphen, no_repeated_hyphen};
use crate::unicode::{lowercase, lowercase_of, major_category, major_category_of, nfc, nfc_of};

verus! {

/// The piece that a character gives: its lowercase mapping if it is a
/// letter, itself if it is a mark, a number or a symbol, and a gap if it is
/// punctuation, a separator or any other character.
pub open spec fn piece_of(c: char) -> PieceView {
    match major_category_of(c).treatment_of() {
        Treatment::Lowercase => PieceView::Text(lowercase_of(c)),
        Treatment::Keep => PieceView::Text(seq![c]),
        Treatment::Hyphenate => PieceView::Gap,
    }
}

/// The pieces of the characters of `text`, in order.
pub open spec fn pieces_of(text: Seq<char>) -> Seq<PieceView> {
    text.map_values(|c: char| piece_of(c))
}

/// The slug of `text`: the pieces of its normal form, put together.
pub open spec fn slug_of(text: Seq<char>) -> Seq<char> {
    assembled(pieces_of(nfc_of(text)))
}

/// Limits on the length of a slug.
///
/// The limits are carried and not applied: no slug is cut or refused on
/// their account.
#[derive(Clone, Copy, Debug, PartialEq, Eq, Structural)]
pub struct SlugOptions {
    /// The least length wished for.
    pub minimum_length: usize,
    /// The greatest length wished for.
    pub maximum_length: usize,
}

impl Default for SlugOptions {
    /// A minimum of 3 and a maximum of 30.
    fn default() -> (options: SlugOptions)
        ensures
            options.minimum_length == 3,
            options.maximum_length == 30,
    {
        SlugOptions { minimum_length: 3, maximum_length: 30 }
    }
}

/// Classifies one character of a normalized text.
pub fn classify(c: char) -> (piece: Piece)
    ensures
        piece@ == piece_of(c),
{
    match major_category(c).treatment() {
        Treatment::Lowercase => Piece::Text(lowercase(c)),
        Treatment::Keep => {
            let mut kept: Vec<char> = Vec::new();
            kept.push(c);
            Piece::Text(kept)
        },
        Treatment::Hyphenate => Piece::Gap,
    }
}

/// Converts a text into a slug for a URL path.
///
/// The text is normalized, letters are lowercased, marks, numbers and
/// symbols are kept, and every run of other characters becomes one hyphen,
/// none at the start and none at the end. Never fails.
///
/// The slug of the empty text is empty, and no slug ends with a hyphen.
/// That none starts with a hyphen or holds two in a row rests on the
/// Unicode tables: it holds where no mark, number or symbol of the
/// normalized text is a hyphen and the lowercase mapping of each of its
/// letters holds a character and no hyphen.
pub fn slugify(text: &str) -> (slug: String)
    ensures
        slug@ == slug_of(text@),
        text@.len() == 0 ==> slug@.len() == 0,
        slug@.len() > 0 ==> slug@.last() != '-',
        all_words(pieces_of(nfc_of(text@))) ==> no_boundary_hyphen(slug@) && no_repeated_hyphen(
            slug@,
        ),
{
    let normalized = nfc(text);
    let mut pieces: Vec<Piece> = Vec::new();
    let mut i: usize = 0;
    while i < normalized.len()
        invariant
            i <= normalized.len(),
            pieces@.len() == i,
            forall|k: int| 0 <= k < i ==> (#[trigger] pieces@[k])@ == piece_of(normalized@[k]),
        decreases normalized.len() - i,
    {
        let piece = classify(normalized[i]);
        pieces.push(piece);
        i += 1;
    }
    assert(piece_views(pieces@) =~= pieces_of(normalized@));
    assemble(pieces.as_slice())
}

/// Converts a text into a slug as `slugify` does; the options change
/// nothing.
pub fn slugify_with_options(text: &str, options: &SlugOptions) -> (slug: String)
    ensures
        slug@ == slug_of(text@),
        text@.len() == 0 ==> slug@.len() == 0,
        slug@.len() > 0 ==> slug@.last() != '-',
        all_words(pieces_of(nfc_of(text@))) ==> no_boundary_hyphen(slug@) && no_repeated_hyphen(
            slug@,
        ),
{
    slugify(text)
}

} // verus!
