//! Joining the pieces of a selection into the text that is copied.
use vstd::prelude::*;
use vstd::string::StringExecFns;

verus! {

/// The characters of a piece of selected text with the row it stands in.
pub open spec fn piece_view(piece: (u32, String)) -> (u32, Seq<char>) {
    (piece.0, piece.1@)
}

/// The pieces one after the other, a line break between two neighbours that
/// stand in different rows.
pub open spec fn joined(pieces: Seq<(u32, Seq<char>)>) -> Seq<char>
    decreases pieces.len(),
{
    if pieces.len() == 0 {
        Seq::empty()
    } else if pieces.len() == 1 {
        pieces[0].1
    } else {
        let before = pieces.drop_last();
        let gap = if pieces.last().0 == before.last().0 {
            Seq::<char>::empty()
        } else {
            seq!['\n']
        };
        joined(before) + gap + pieces.last().1
    }
}

/// The text of a selection. Each piece comes with a key for the row it
/// stands in; pieces of one row are joined directly.
pub fn selected_text(contents: &Vec<(u32, String)>) -> (text: String)
    ensures
        text@ == joined(contents@.map_values(|piece: (u32, String)| piece_view(piece))),
{
    let ghost pieces = contents@.map_values(|piece: (u32, String)| piece_view(piece));
    let mut text = String::new();
    let mut i: usize = 0;
    while i < contents.len()
        invariant
            i <= contents.len(),
            pieces == contents@.map_values(|piece: (u32, String)| piece_view(piece)),
            text@ == joined(pieces.take(i as int)),
        decreases contents.len() - i,
    {
        proof {
            let upto = pieces.take(i + 1);
            assert(upto.drop_last() =~= pieces.take(i as int));
            assert(upto.last() == pieces[i as int]);
            assert(pieces[i as int] == piece_view(contents@[i as int]));
            if i > 0 {
                assert(pieces.take(i as int).last() == pieces[i - 1]);
                assert(pieces[i - 1] == piece_view(contents@[i - 1]));
            }
            reveal_strlit("\n");
            assert("\n"@ =~= seq!['\n']);
        }
        if i > 0 && contents[i - 1].0 != contents[i].0 {
            text.append("\n");
        }
        text.append(contents[i].1.as_str());
        proof {
            let upto = pieces.take(i + 1);
            if i == 0 {
                assert(upto.len() == 1);
                assert(text@ =~= joined(upto));
            } else {
                assert(text@ =~= joined(upto));
            }
        }
        i += 1;
    }
    proof {
        assert(pieces.take(i as int) =~= pieces);
    }
    text
}

} // verus!
