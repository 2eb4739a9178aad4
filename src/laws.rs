use vstd::prelude::*;

use crate::numbering::{is_blank, nonblank_count, prefixed, render, NumberMode};
use crate::split::is_line_split;

verus! {

broadcast use vstd::seq_lib::group_seq_properties;

/// Numbering never drops or merges lines: in every mode there are as many output
/// lines as input lines.
pub proof fn lemma_line_count_kept(mode: NumberMode, lines: Seq<Seq<u8>>)
    ensures
        render(mode, lines).len() == lines.len(),
{
}

/// Numbering all lines, the n-th output line carries the ordinal n.
pub proof fn lemma_all_lines_numbered(lines: Seq<Seq<u8>>)
    ensures
        forall|i: int|
            0 <= i < lines.len() ==> #[trigger] render(NumberMode::All, lines)[i] == prefixed(
                (i + 1) as nat,
                lines[i],
            ),
{
    assert forall|i: int| 0 <= i < lines.len() implies #[trigger] render(NumberMode::All, lines)[i]
        == prefixed((i + 1) as nat, lines[i]) by {
        assert(lines.take(i).len() == i);
    }
}

/// Counting the non-blank lines of a longer prefix never gives less.
pub proof fn lemma_nonblank_count_monotone(lines: Seq<Seq<u8>>, i: int, j: int)
    requires
        0 <= i <= j <= lines.len(),
    ensures
        nonblank_count(lines.take(i)) <= nonblank_count(lines.take(j)),
    decreases j - i,
{
    if i < j {
        lemma_nonblank_count_monotone(lines, i, j - 1);
        assert(lines.take(j).drop_last() =~= lines.take(j - 1));
    }
}

/// Numbering non-blank lines: blank lines come out unchanged; a non-blank line carries
/// the number of non-blank lines up to and including it; so the ordinals of non-blank
/// lines rise strictly, one per non-blank line.
pub proof fn lemma_nonblank_lines_numbered(lines: Seq<Seq<u8>>)
    ensures
        forall|i: int|
            0 <= i < lines.len() && is_blank(lines[i]) ==> #[trigger] render(
                NumberMode::NonBlank,
                lines,
            )[i] == lines[i],
        forall|i: int|
            0 <= i < lines.len() && !is_blank(lines[i]) ==> #[trigger] render(
                NumberMode::NonBlank,
                lines,
            )[i] == prefixed(nonblank_count(lines.take(i + 1)), lines[i]),
        forall|i: int, j: int|
            0 <= i < j < lines.len() && !is_blank(lines[i]) && !is_blank(lines[j]) ==> nonblank_count(
                #[trigger] lines.take(i + 1),
            ) < nonblank_count(#[trigger] lines.take(j + 1)),
{
    assert forall|i: int| 0 <= i < lines.len() implies nonblank_count(#[trigger] lines.take(i + 1))
        == nonblank_count(lines.take(i)) + if is_blank(lines[i]) { 0nat } else { 1nat } by {
        assert(lines.take(i + 1).drop_last() =~= lines.take(i));
    }
    assert forall|i: int, j: int|
        0 <= i < j < lines.len() && !is_blank(lines[i]) && !is_blank(
            lines[j],
        ) implies nonblank_count(#[trigger] lines.take(i + 1)) < nonblank_count(
        #[trigger] lines.take(j + 1),
    ) by {
        lemma_nonblank_count_monotone(lines, i + 1, j);
    }
}

/// With no numbering, the output lines put together are the input, byte for byte.
pub proof fn lemma_plain_is_identity(text: Seq<u8>, lines: Seq<Seq<u8>>)
    requires
        is_line_split(text, lines),
    ensures
        render(NumberMode::Plain, lines).flatten() == text,
{
    assert(render(NumberMode::Plain, lines) =~= lines);
}

} // verus!
