//! Joining pieces of text with a separator, and cutting text at a separator.
//!
//! Paths and form bodies are both made by joining; what a reader at the other
//! end recovers is what cutting gives back. The two are inverse to each other
//! as long as no piece holds the separator itself.

use vstd::prelude::*;

verus! {

/// Whether the character `sep` occurs nowhere in `s`.
pub open spec fn free_of(s: Seq<char>, sep: char) -> bool {
    forall|i: int| 0 <= i < s.len() ==> s[i] != sep
}

/// The pieces written one after another, with one `sep` between neighbours.
/// No pieces give the empty text.
pub open spec fn join(pieces: Seq<Seq<char>>, sep: char) -> Seq<char>
    decreases pieces.len(),
{
    if pieces.len() == 0 {
        Seq::empty()
    } else if pieces.len() == 1 {
        pieces[0]
    } else {
        join(pieces.drop_last(), sep) + seq![sep] + pieces.last()
    }
}

/// The stretches of `s` that lie between occurrences of `sep`, in order.
/// There is always at least one: text without `sep` is its own single piece.
pub open spec fn split(s: Seq<char>, sep: char) -> Seq<Seq<char>>
    decreases s.len(),
{
    if s.len() == 0 {
        seq![Seq::empty()]
    } else {
        let before = split(s.drop_last(), sep);
        if s.last() == sep {
            before.push(Seq::empty())
        } else {
            before.drop_last().push(before.last().push(s.last()))
        }
    }
}

/// Cutting always yields at least one piece.
pub proof fn lemma_split_is_nonempty(s: Seq<char>, sep: char)
    ensures
        split(s, sep).len() >= 1,
    decreases s.len(),
{
    if s.len() > 0 {
        lemma_split_is_nonempty(s.drop_last(), sep);
    }
}

/// Text after the last separator only lengthens the last piece.
pub proof fn lemma_split_extends_last(s: Seq<char>, tail: Seq<char>, sep: char)
    requires
        free_of(tail, sep),
    ensures
        split(s, sep).len() >= 1,
        split(s + tail, sep) == split(s, sep).drop_last().push(split(s, sep).last() + tail),
    decreases tail.len(),
{
    lemma_split_is_nonempty(s, sep);
    if tail.len() > 0 {
        let pieces = split(s, sep);
        let shorter = tail.drop_last();
        lemma_split_extends_last(s, shorter, sep);
        assert((s + tail).drop_last() == s + shorter);
        assert((pieces.last() + shorter).push(tail.last()) == pieces.last() + tail);
    }
}

/// Cutting what was joined gives the pieces back, provided there is at least
/// one piece and none of them holds the separator.
pub proof fn lemma_split_of_join(pieces: Seq<Seq<char>>, sep: char)
    requires
        pieces.len() >= 1,
        forall|i: int| 0 <= i < pieces.len() ==> free_of(#[trigger] pieces[i], sep),
    ensures
        split(join(pieces, sep), sep) == pieces,
    decreases pieces.len(),
{
    if pieces.len() == 1 {
        lemma_split_extends_last(Seq::empty(), pieces[0], sep);
    } else {
        let init = pieces.drop_last();
        lemma_split_of_join(init, sep);
        let head = join(init, sep) + seq![sep];
        assert(head.drop_last() == join(init, sep));
        lemma_split_extends_last(head, pieces.last(), sep);
    }
}

} // verus!
