//! The shape of a slug, and what putting pieces together keeps of it.

use vstd::prelude::*;

use crate::piece::{added, after_gap, assembled, joined, trim_hyphens, PieceView};

verus! {

/// `chars` has no hyphen at its start and none at its end.
pub open spec fn no_boundary_hyphen(chars: Seq<char>) -> bool {
    chars.len() > 0 ==> chars.first() != '-' && chars.last() != '-'
}

/// `chars` has no two hyphens in a row.
pub open spec fn no_repeated_hyphen(chars: Seq<char>) -> bool {
    forall|i: int| 0 <= i < chars.len() - 1 ==> !(#[trigger] chars[i] == '-' && chars[i + 1] == '-')
}

/// `chars` holds at least one character and no hyphen.
pub open spec fn is_word(chars: Seq<char>) -> bool {
    &&& chars.len() > 0
    &&& forall|i: int| 0 <= i < chars.len() ==> chars[i] != '-'
}

/// Every text among `pieces` is a word.
pub open spec fn all_words(pieces: Seq<PieceView>) -> bool {
    forall|i: int|
        0 <= i < pieces.len() ==> (#[trigger] pieces[i] matches PieceView::Text(chars) ==> is_word(
            chars,
        ))
}

/// The test that a character is no hyphen.
pub open spec fn is_no_hyphen() -> spec_fn(char) -> bool {
    |c: char| c != '-'
}

/// `chars` without its hyphens.
pub open spec fn without_hyphens(chars: Seq<char>) -> Seq<char> {
    chars.filter(is_no_hyphen())
}

/// The texts among `pieces`, one after the other.
pub open spec fn texts(pieces: Seq<PieceView>) -> Seq<char>
    decreases pieces.len(),
{
    if pieces.len() == 0 {
        Seq::empty()
    } else {
        texts(pieces.drop_last()) + added(pieces.last(), true)
    }
}

/// Trimming cuts a run of hyphens off the end and nothing else: what is
/// left is a prefix that does not end with a hyphen.
pub proof fn lemma_trim_hyphens(chars: Seq<char>)
    ensures
        trim_hyphens(chars).len() <= chars.len(),
        trim_hyphens(chars) == chars.take(trim_hyphens(chars).len() as int),
        trim_hyphens(chars).len() > 0 ==> trim_hyphens(chars).last() != '-',
        forall|i: int| trim_hyphens(chars).len() <= i < chars.len() ==> chars[i] == '-',
    decreases chars.len(),
{
    if chars.len() > 0 && chars.last() == '-' {
        lemma_trim_hyphens(chars.drop_last());
        let kept = trim_hyphens(chars).len() as int;
        assert forall|i: int| kept <= i < chars.len() implies chars[i] == '-' by {
            if i < chars.len() - 1 {
                assert(chars.drop_last()[i] == chars[i]);
            }
        }
    }
}

/// The carried state: pieces whose texts are words join without a hyphen
/// at the start and without two in a row, and a hyphen is withheld after
/// them exactly when nothing has been written yet or a hyphen was written
/// last.
pub proof fn lemma_joined_words(pieces: Seq<PieceView>)
    requires
        all_words(pieces),
    ensures
        joined(pieces).len() > 0 ==> joined(pieces).first() != '-',
        no_repeated_hyphen(joined(pieces)),
        after_gap(pieces) <==> (joined(pieces).len() == 0 || joined(pieces).last() == '-'),
    decreases pieces.len(),
{
    if pieces.len() > 0 {
        // A word put behind what came before brings no hyphen; a gap
        // brings one only behind a character that is none.
        let head = pieces.drop_last();
        assert(all_words(head));
        lemma_joined_words(head);
    }
}

/// A slug never ends with a hyphen.
pub proof fn lemma_assembled_no_trailing_hyphen(pieces: Seq<PieceView>)
    ensures
        assembled(pieces).len() > 0 ==> assembled(pieces).last() != '-',
{
    lemma_trim_hyphens(joined(pieces));
}

/// No boundary hyphens: the slug made of pieces whose texts are words
/// neither starts nor ends with a hyphen.
pub proof fn lemma_words_no_boundary_hyphen(pieces: Seq<PieceView>)
    requires
        all_words(pieces),
    ensures
        no_boundary_hyphen(assembled(pieces)),
{
    lemma_joined_words(pieces);
    lemma_trim_hyphens(joined(pieces));
}

/// No repeated hyphens: the slug made of pieces whose texts are words
/// holds no two hyphens in a row.
pub proof fn lemma_words_no_repeated_hyphen(pieces: Seq<PieceView>)
    requires
        all_words(pieces),
    ensures
        no_repeated_hyphen(assembled(pieces)),
{
    lemma_joined_words(pieces);
    lemma_trim_hyphens(joined(pieces));
}

/// A gap that follows a gap adds nothing.
pub proof fn lemma_gap_after_gap(pieces: Seq<PieceView>)
    ensures
        joined(pieces.push(PieceView::Gap).push(PieceView::Gap)) == joined(
            pieces.push(PieceView::Gap),
        ),
{
    let once = pieces.push(PieceView::Gap);
    assert(once.push(PieceView::Gap).drop_last() == once);
}

/// Pieces that are all gaps join to nothing.
proof fn lemma_joined_gaps(pieces: Seq<PieceView>)
    requires
        forall|i: int| 0 <= i < pieces.len() ==> #[trigger] pieces[i] is Gap,
    ensures
        joined(pieces) == Seq::<char>::empty(),
    decreases pieces.len(),
{
    if pieces.len() > 0 {
        lemma_joined_gaps(pieces.drop_last());
    }
}

/// Pieces that are all gaps make the empty slug.
pub proof fn lemma_gaps_give_nothing(pieces: Seq<PieceView>)
    requires
        forall|i: int| 0 <= i < pieces.len() ==> #[trigger] pieces[i] is Gap,
    ensures
        assembled(pieces) == Seq::<char>::empty(),
{
    lemma_joined_gaps(pieces);
}

/// Trimming takes away nothing but hyphens.
proof fn lemma_trim_keeps_the_rest(chars: Seq<char>)
    ensures
        without_hyphens(trim_hyphens(chars)) == without_hyphens(chars),
    decreases chars.len(),
{
    if chars.len() > 0 && chars.last() == '-' {
        lemma_trim_keeps_the_rest(chars.drop_last());
        reveal(Seq::filter);
    }
}

/// Joining adds nothing but hyphens.
proof fn lemma_joined_keeps_texts(pieces: Seq<PieceView>)
    ensures
        without_hyphens(joined(pieces)) == without_hyphens(texts(pieces)),
    decreases pieces.len(),
{
    if pieces.len() > 0 {
        let head = pieces.drop_last();
        lemma_joined_keeps_texts(head);
        let with_hyphen = added(pieces.last(), after_gap(head));
        let without = added(pieces.last(), true);
        assert(without_hyphens(with_hyphen) == without_hyphens(without)) by {
            reveal_with_fuel(Seq::filter, 2);
        }
        Seq::filter_distributes_over_add(joined(head), with_hyphen, is_no_hyphen());
        Seq::filter_distributes_over_add(texts(head), without, is_no_hyphen());
    }
}

/// Nothing is stripped: a slug holds every character of every text among
/// its pieces, in their order, and besides them only hyphens.
pub proof fn lemma_assembled_keeps_texts(pieces: Seq<PieceView>)
    ensures
        without_hyphens(assembled(pieces)) == without_hyphens(texts(pieces)),
{
    lemma_joined_keeps_texts(pieces);
    lemma_trim_keeps_the_rest(joined(pieces));
}

} // verus!
