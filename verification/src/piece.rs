//! Pieces of a slug and how they are put together.
//!
//! Every character of a normalized text gives one piece: either the
//! characters that stand for it in the slug, or a gap between two words.
//! The slug is made of the pieces alone. A gap gives a hyphen unless the
//! piece before it is a gap too or no piece came before; hyphens that end
//! the result are removed.

use vstd::prelude::*;

use crate::shape::{
    all_words, lemma_assembled_no_trailing_hyphen, lemma_words_no_boundary_hyphen,
    lemma_words_no_repeated_hyphen, no_boundary_hyphen, no_repeated_hyphen,
};
use crate::unicode::string_of;

verus! {

/// What one character of a normalized text gives to a slug.
#[derive(Debug, PartialEq, Eq)]
pub enum Piece {
    /// The characters that stand for it: the lowercase mapping of a
    /// letter, or a mark, number or symbol itself.
    Text(Vec<char>),
    /// Nothing of its own: the character ends a word.
    Gap,
}

/// A piece as a mathematical value.
pub enum PieceView {
    /// The characters that stand for the character.
    Text(Seq<char>),
    /// The character ends a word.
    Gap,
}

impl View for Piece {
    type V = PieceView;

    open spec fn view(&self) -> PieceView {
        match self {
            Piece::Text(chars) => PieceView::Text(chars@),
            Piece::Gap => PieceView::Gap,
        }
    }
}

/// The views of a sequence of pieces.
pub open spec fn piece_views(pieces: Seq<Piece>) -> Seq<PieceView> {
    pieces.map_values(|piece: Piece| piece@)
}

/// Whether a hyphen is withheld after `pieces`: nothing has been read yet,
/// or the piece read last was a gap.
pub open spec fn after_gap(pieces: Seq<PieceView>) -> bool {
    pieces.len() == 0 || pieces.last() is Gap
}

/// The characters that `piece` adds, given whether a hyphen is withheld.
pub open spec fn added(piece: PieceView, withheld: bool) -> Seq<char> {
    match piece {
        PieceView::Text(chars) => chars,
        PieceView::Gap => if withheld {
            Seq::empty()
        } else {
            seq!['-']
        },
    }
}

/// The pieces written one after the other, each run of gaps as one hyphen
/// and gaps at the start as nothing.
pub open spec fn joined(pieces: Seq<PieceView>) -> Seq<char>
    decreases pieces.len(),
{
    if pieces.len() == 0 {
        Seq::empty()
    } else {
        joined(pieces.drop_last()) + added(pieces.last(), after_gap(pieces.drop_last()))
    }
}

/// `chars` without the hyphens at its end.
pub open spec fn trim_hyphens(chars: Seq<char>) -> Seq<char>
    decreases chars.len(),
{
    if chars.len() > 0 && chars.last() == '-' {
        trim_hyphens(chars.drop_last())
    } else {
        chars
    }
}

/// The slug that a sequence of pieces makes.
pub open spec fn assembled(pieces: Seq<PieceView>) -> Seq<char> {
    trim_hyphens(joined(pieces))
}

/// Removes the hyphens at the end of `chars`.
pub fn trim_trailing_hyphens(chars: &mut Vec<char>)
    ensures
        final(chars)@ == trim_hyphens(old(chars)@),
{
    while chars.len() > 0 && chars[chars.len() - 1] == '-'
        invariant
            trim_hyphens(chars@) == trim_hyphens(old(chars)@),
        decreases chars.len(),
    {
        chars.pop();
    }
}

/// Appends the characters of `chars` to `out`.
fn push_all(out: &mut Vec<char>, chars: &Vec<char>)
    ensures
        final(out)@ == old(out)@ + chars@,
{
    let mut i: usize = 0;
    while i < chars.len()
        invariant
            i <= chars.len(),
            out@ == old(out)@ + chars@.take(i as int),
        decreases chars.len() - i,
    {
        out.push(chars[i]);
        i += 1;
    }
}

/// Puts the pieces together into a slug.
///
/// The slug never ends with a hyphen. Where every text among the pieces
/// holds a character and no hyphen, it does not start with one either and
/// holds no two in a row.
pub fn assemble(pieces: &[Piece]) -> (slug: String)
    ensures
        slug@ == assembled(piece_views(pieces@)),
        slug@.len() > 0 ==> slug@.last() != '-',
        all_words(piece_views(pieces@)) ==> no_boundary_hyphen(slug@) && no_repeated_hyphen(slug@),
{
    let ghost views = piece_views(pieces@);
    let mut out: Vec<char> = Vec::new();
    let mut withheld = true;
    let mut i: usize = 0;
    while i < pieces.len()
        invariant
            i <= pieces.len(),
            views == piece_views(pieces@),
            out@ == joined(views.take(i as int)),
            withheld == after_gap(views.take(i as int)),
        decreases pieces.len() - i,
    {
        proof {
            assert(views.take(i + 1).drop_last() == views.take(i as int));
        }
        match &pieces[i] {
            Piece::Text(chars) => {
                push_all(&mut out, chars);
                withheld = false;
            },
            Piece::Gap => {
                if !withheld {
                    out.push('-');
                    withheld = true;
                }
            },
        }
        i += 1;
    }
    assert(views.take(i as int) == views);
    trim_trailing_hyphens(&mut out);
    proof {
        lemma_assembled_no_trailing_hyphen(views);
        if all_words(views) {
            lemma_words_no_boundary_hyphen(views);
            lemma_words_no_repeated_hyphen(views);
        }
    }
    string_of(out)
}

} // verus!
