//! Token text: pieces of source text, each a run of whole tokens, set side by
//! side with single spaces.

use vstd::prelude::*;

verus! {

/// Two pieces side by side. An empty piece leaves no trace; otherwise one space
/// keeps the last token of `left` apart from the first token of `right`.
pub open spec fn beside(left: Seq<char>, right: Seq<char>) -> Seq<char> {
    if right.len() == 0 {
        left
    } else if left.len() == 0 {
        right
    } else {
        left + seq![' '] + right
    }
}

/// The pieces in order, as one text.
pub open spec fn line(pieces: Seq<Seq<char>>) -> Seq<char>
    decreases pieces.len(),
{
    if pieces.len() == 0 {
        Seq::empty()
    } else {
        beside(line(pieces.drop_last()), pieces.last())
    }
}

/// The items with a `,` between each two neighbours.
pub open spec fn comma_separated(items: Seq<Seq<char>>) -> Seq<Seq<char>>
    decreases items.len(),
{
    if items.len() == 0 {
        Seq::empty()
    } else if items.len() == 1 {
        items
    } else {
        comma_separated(items.drop_last()) + seq![","@, items.last()]
    }
}

/// A text grows at its end only: what the first pieces give is the beginning of
/// what all of them give.
pub proof fn lemma_line_begins_with(first: Seq<Seq<char>>, rest: Seq<Seq<char>>)
    ensures
        line(first).is_prefix_of(line(first + rest)),
    decreases rest.len(),
{
    if rest.len() > 0 {
        assert((first + rest).drop_last() =~= first + rest.drop_last());
        lemma_line_begins_with(first, rest.drop_last());
    }
}

/// Appends `piece` to `text`, with a space where both are non-empty.
pub fn push_piece(text: &mut String, piece: &str)
    ensures
        final(text)@ == beside(old(text)@, piece@),
{
    if piece.is_empty() {
        return ;
    }
    if !text.as_str().is_empty() {
        proof {
            reveal_strlit(" ");
        }
        text.append(" ");
    }
    text.append(piece);
}

/// Joins the pieces into one text.
pub fn join(pieces: &Vec<String>) -> (text: String)
    ensures
        text@ == line(pieces.deep_view()),
{
    let mut text = String::new();
    let mut i: usize = 0;
    while i < pieces.len()
        invariant
            i <= pieces.len(),
            text@ == line(pieces.deep_view().take(i as int)),
        decreases pieces.len() - i,
    {
        push_piece(&mut text, pieces[i].as_str());
        proof {
            let all = pieces.deep_view();
            assert(all.take(i + 1).drop_last() =~= all.take(i as int));
        }
        i += 1;
    }
    proof {
        assert(pieces.deep_view().take(i as int) =~= pieces.deep_view());
    }
    text
}

} // verus!
