use vstd::prelude::*;

use crate::numbering::{lines_view, NEWLINE};

verus! {

broadcast use vstd::seq_lib::group_seq_properties;

/// A line of a text: not empty, and without a newline anywhere but at its end.
pub open spec fn is_line(l: Seq<u8>) -> bool {
    &&& l.len() > 0
    &&& forall|j: int| 0 <= j < l.len() - 1 ==> l[j] != NEWLINE
}

/// `lines` are the lines of `text`, in order, each with its terminator: every line
/// but the last ends in a newline, and the last is the unterminated rest, if any.
pub open spec fn is_line_split(text: Seq<u8>, lines: Seq<Seq<u8>>) -> bool {
    &&& lines.flatten() == text
    &&& forall|i: int| 0 <= i < lines.len() ==> is_line(#[trigger] lines[i])
    &&& forall|i: int| 0 <= i < lines.len() - 1 ==> (#[trigger] lines[i]).last() == NEWLINE
}

/// Cuts `text` into its lines, each keeping its terminator; trailing bytes without a
/// terminator make a last line of their own.
pub fn split_lines(text: &[u8]) -> (r: Vec<Vec<u8>>)
    ensures
        is_line_split(text@, lines_view(r@)),
{
    broadcast use Seq::lemma_flatten_push;

    let mut lines: Vec<Vec<u8>> = Vec::new();
    let mut cur: Vec<u8> = Vec::new();
    let mut i: usize = 0;
    while i < text.len()
        invariant
            i <= text@.len(),
            lines_view(lines@).flatten() + cur@ == text@.take(i as int),
            forall|k: int| 0 <= k < lines@.len() ==> is_line(#[trigger] lines_view(lines@)[k]),
            forall|k: int| 0 <= k < lines@.len() ==> (#[trigger] lines_view(lines@)[k]).last() == NEWLINE,
            forall|j: int| 0 <= j < cur@.len() ==> cur@[j] != NEWLINE,
        decreases text@.len() - i,
    {
        let b = text[i];
        let ghost old_lines = lines_view(lines@);
        let ghost old_cur = cur@;
        cur.push(b);
        assert(old_lines.flatten() + cur@ =~= (old_lines.flatten() + old_cur).push(b));
        assert(text@.take(i + 1) =~= text@.take(i as int).push(b));
        if b == NEWLINE {
            let done = cur;
            cur = Vec::new();
            lines.push(done);
            proof {
                assert(lines_view(lines@) =~= old_lines.push(done@));
                assert(lines_view(lines@)[lines@.len() - 1] == done@);
                old_lines.lemma_flatten_push(done@);
                assert(cur@ =~= Seq::<u8>::empty());
                assert(lines_view(lines@).flatten() + cur@ =~= old_lines.flatten() + done@);
            }
        } else {
            assert(lines_view(lines@) =~= old_lines);
        }
        i = i + 1;
    }
    assert(text@.take(text@.len() as int) =~= text@);
    if cur.len() > 0 {
        let ghost old_lines = lines_view(lines@);
        let done = cur;
        lines.push(done);
        assert(lines_view(lines@) =~= old_lines.push(done@));
        assert(lines_view(lines@)[lines@.len() - 1] == done@);
    } else {
        assert(cur@ =~= Seq::<u8>::empty());
        assert(lines_view(lines@).flatten() + cur@ =~= lines_view(lines@).flatten());
    }
    lines
}

} // verus!
