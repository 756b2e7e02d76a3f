//! What holds of the slug of every text.
//!
//! The laws are stated over `slug_of`. Those that depend on what the
//! Unicode tables hold say so in their premises: the tables are named in
//! this library, not described.

use vstd::prelude::*;

use crate::category::MajorCategory;
use crate::piece::{joined, PieceView};
use crate::shape::{
    all_words, lemma_assembled_keeps_texts, lemma_assembled_no_trailing_hyphen,
    lemma_gaps_give_nothing, lemma_words_no_boundary_hyphen, lemma_words_no_repeated_hyphen,
    no_boundary_hyphen, no_repeated_hyphen, texts, without_hyphens,
};
use crate::slug::{piece_of, pieces_of, slug_of};
use crate::unicode::{lowercase_of, major_category_of, nfc_of};

verus! {

/// Normalization leaves `text` alone, and so does rewriting, character
/// by character: a hyphen gives a gap and any other character gives itself.
pub open spec fn is_settled(text: Seq<char>) -> bool {
    &&& nfc_of(text) == text
    &&& forall|i: int|
        0 <= i < text.len() ==> piece_of(#[trigger] text[i]) == if text[i] == '-' {
            PieceView::Gap
        } else {
            PieceView::Text(seq![text[i]])
        }
}

/// Two characters are the same, or letters with the same lowercase mapping.
pub open spec fn same_but_for_case(c: char, d: char) -> bool {
    ||| c == d
    ||| {
        &&& major_category_of(c) == MajorCategory::Letter
        &&& major_category_of(d) == MajorCategory::Letter
        &&& lowercase_of(c) == lowercase_of(d)
    }
}

/// The slug of a text never ends with a hyphen.
pub proof fn lemma_slug_no_trailing_hyphen(text: Seq<char>)
    ensures
        slug_of(text).len() > 0 ==> slug_of(text).last() != '-',
{
    lemma_assembled_no_trailing_hyphen(pieces_of(nfc_of(text)));
}

/// No boundary hyphens: where every letter of the normalized text has a
/// lowercase mapping that is a word, and no mark, number or symbol of it
/// is a hyphen, the slug neither starts nor ends with a hyphen.
pub proof fn lemma_slug_of_words_no_boundary_hyphen(text: Seq<char>)
    requires
        all_words(pieces_of(nfc_of(text))),
    ensures
        no_boundary_hyphen(slug_of(text)),
{
    lemma_words_no_boundary_hyphen(pieces_of(nfc_of(text)));
}

/// No repeated hyphens: under the same premise the slug holds no two
/// hyphens in a row.
pub proof fn lemma_slug_of_words_no_repeated_hyphen(text: Seq<char>)
    requires
        all_words(pieces_of(nfc_of(text))),
    ensures
        no_repeated_hyphen(slug_of(text)),
{
    lemma_words_no_repeated_hyphen(pieces_of(nfc_of(text)));
}

/// A text whose normal form holds only punctuation, separators and other
/// characters has the empty slug.
pub proof fn lemma_slug_of_gaps(text: Seq<char>)
    requires
        forall|i: int| 0 <= i < nfc_of(text).len() ==> piece_of(#[trigger] nfc_of(text)[i]) is Gap,
    ensures
        slug_of(text) == Seq::<char>::empty(),
{
    lemma_gaps_give_nothing(pieces_of(nfc_of(text)));
}

/// Unicode preservation: the slug of a text holds the lowercase mapping
/// of every letter of its normal form and every mark, number and symbol of
/// it, in their order, and besides them only hyphens.
pub proof fn lemma_slug_keeps_texts(text: Seq<char>)
    ensures
        without_hyphens(slug_of(text)) == without_hyphens(texts(pieces_of(nfc_of(text)))),
{
    lemma_assembled_keeps_texts(pieces_of(nfc_of(text)));
}

/// A settled text without a hyphen at its start and without two in a row
/// joins to itself, prefix by prefix.
proof fn lemma_settled_joins_to_itself(text: Seq<char>, n: int)
    requires
        0 <= n <= text.len(),
        text.len() > 0 ==> text.first() != '-',
        no_repeated_hyphen(text),
        forall|i: int|
            0 <= i < text.len() ==> piece_of(#[trigger] text[i]) == if text[i] == '-' {
                PieceView::Gap
            } else {
                PieceView::Text(seq![text[i]])
            },
    ensures
        joined(pieces_of(text.take(n))) == text.take(n),
    decreases n,
{
    if n > 0 {
        // A hyphen of the text is neither its first character nor behind
        // another hyphen, so its gap is written as a hyphen.
        lemma_settled_joins_to_itself(text, n - 1);
        assert(pieces_of(text.take(n)).drop_last() == pieces_of(text.take(n - 1)));
    }
}

/// A settled text that has the shape of a slug is its own slug.
pub proof fn lemma_settled_slug_is_fixed(text: Seq<char>)
    requires
        is_settled(text),
        no_boundary_hyphen(text),
        no_repeated_hyphen(text),
    ensures
        slug_of(text) == text,
{
    lemma_settled_joins_to_itself(text, text.len() as int);
    assert(text.take(text.len() as int) == text);
}

/// Idempotence: where the slug of a text is settled, its slug is the slug
/// itself. The first premise is that of the laws on hyphens.
pub proof fn lemma_settled_slug_idempotent(text: Seq<char>)
    requires
        all_words(pieces_of(nfc_of(text))),
        is_settled(slug_of(text)),
    ensures
        slug_of(slug_of(text)) == slug_of(text),
{
    lemma_slug_of_words_no_boundary_hyphen(text);
    lemma_slug_of_words_no_repeated_hyphen(text);
    lemma_settled_slug_is_fixed(slug_of(text));
}

/// Normalization equivalence: texts with the same normal form have the
/// same slug.
pub proof fn lemma_slug_of_equivalent_texts(a: Seq<char>, b: Seq<char>)
    requires
        nfc_of(a) == nfc_of(b),
    ensures
        slug_of(a) == slug_of(b),
{
}

/// Case convergence: a letter enters a slug as its lowercase mapping and
/// in no other way. Texts whose normal forms differ only in letters that
/// have the same lowercase mapping have the same slug.
pub proof fn lemma_slug_ignores_case(a: Seq<char>, b: Seq<char>)
    requires
        nfc_of(a).len() == nfc_of(b).len(),
        forall|i: int|
            0 <= i < nfc_of(a).len() ==> same_but_for_case(#[trigger] nfc_of(a)[i], nfc_of(b)[i]),
    ensures
        slug_of(a) == slug_of(b),
{
    assert(pieces_of(nfc_of(a)) =~= pieces_of(nfc_of(b)));
}

} // verus!
