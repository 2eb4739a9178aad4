use vstd::prelude::*;

verus! {

broadcast use vstd::seq_lib::group_seq_properties;

pub const NEWLINE: u8 = 10;
pub const CARRIAGE_RETURN: u8 = 13;
pub const TAB: u8 = 9;
pub const DIGIT_ZERO: u8 = 48;

/// How the lines of one input are numbered.
#[derive(Clone, Copy, Debug, PartialEq, Eq, Structural)]
pub enum NumberMode {
    /// Every line, blank ones included, gets its ordinal.
    All,
    /// Only non-blank lines get an ordinal, and only they are counted.
    NonBlank,
    /// Lines pass through unchanged.
    Plain,
}

/// The ASCII decimal digits of `n`, most significant first, without leading zeros.
pub open spec fn decimal(n: nat) -> Seq<u8>
    decreases n,
{
    if n < 10 {
        seq![(DIGIT_ZERO as nat + n) as u8]
    } else {
        decimal(n / 10).push((DIGIT_ZERO as nat + n % 10) as u8)
    }
}

/// A line with its terminator (`\n`, or `\r\n`) taken off.
pub open spec fn content(line: Seq<u8>) -> Seq<u8> {
    if line.len() >= 2 && line[line.len() - 2] == CARRIAGE_RETURN && line.last() == NEWLINE {
        line.take(line.len() - 2)
    } else if line.len() >= 1 && line.last() == NEWLINE {
        line.drop_last()
    } else {
        line
    }
}

/// A line is blank when nothing is left of it once its terminator is taken off.
pub open spec fn is_blank(line: Seq<u8>) -> bool {
    content(line).len() == 0
}

/// How many of `lines` are not blank.
pub open spec fn nonblank_count(lines: Seq<Seq<u8>>) -> nat
    decreases lines.len(),
{
    if lines.len() == 0 {
        0
    } else {
        nonblank_count(lines.drop_last()) + if is_blank(lines.last()) { 0nat } else { 1nat }
    }
}

/// `line` preceded by the ordinal `n` and a tab.
pub open spec fn prefixed(n: nat, line: Seq<u8>) -> Seq<u8> {
    decimal(n).push(TAB) + line
}

/// The output for `line` when the lines `before` came ahead of it in the same input.
pub open spec fn render_line(mode: NumberMode, before: Seq<Seq<u8>>, line: Seq<u8>) -> Seq<u8> {
    match mode {
        NumberMode::All => prefixed(before.len() + 1, line),
        NumberMode::NonBlank => if is_blank(line) {
            line
        } else {
            prefixed(nonblank_count(before) + 1, line)
        },
        NumberMode::Plain => line,
    }
}

/// The output for all the lines of one input, line by line.
pub open spec fn render(mode: NumberMode, lines: Seq<Seq<u8>>) -> Seq<Seq<u8>> {
    Seq::new(lines.len(), |i: int| render_line(mode, lines.take(i), lines[i]))
}

/// The byte contents of a list of lines.
pub open spec fn lines_view(lines: Seq<Vec<u8>>) -> Seq<Seq<u8>> {
    lines.map_values(|l: Vec<u8>| l@)
}

/// The ordinal given out next, after the lines `seen`.
pub open spec fn next_ordinal(mode: NumberMode, seen: Seq<Seq<u8>>) -> nat {
    match mode {
        NumberMode::All => seen.len() + 1,
        NumberMode::NonBlank => nonblank_count(seen) + 1,
        NumberMode::Plain => 1,
    }
}

/// There are never more non-blank lines than lines.
pub proof fn lemma_nonblank_count_le(lines: Seq<Seq<u8>>)
    ensures
        nonblank_count(lines) <= lines.len(),
    decreases lines.len(),
{
    if lines.len() > 0 {
        lemma_nonblank_count_le(lines.drop_last());
    }
}

/// The digits of `n`.
pub fn decimal_digits(n: usize) -> (r: Vec<u8>)
    ensures
        r@ == decimal(n as nat),
    decreases n,
{
    if n < 10 {
        vec![DIGIT_ZERO + n as u8]
    } else {
        let mut r = decimal_digits(n / 10);
        r.push(DIGIT_ZERO + (n % 10) as u8);
        r
    }
}

/// Whether `line` is blank: empty once its terminator is taken off.
pub fn line_is_blank(line: &[u8]) -> (r: bool)
    ensures
        r == is_blank(line@),
{
    let n = line.len();
    if n >= 2 && line[n - 2] == CARRIAGE_RETURN && line[n - 1] == NEWLINE {
        n == 2
    } else if n >= 1 && line[n - 1] == NEWLINE {
        n == 1
    } else {
        n == 0
    }
}

/// Numbers the lines of one input as they come, one call per line.
pub struct LineNumberer {
    mode: NumberMode,
    next: usize,
    seen: Ghost<Seq<Seq<u8>>>,
}

impl LineNumberer {
    /// The lines handed in so far.
    pub closed spec fn seen(&self) -> Seq<Seq<u8>> {
        self.seen@
    }

    pub closed spec fn spec_mode(&self) -> NumberMode {
        self.mode
    }

    pub closed spec fn wf(&self) -> bool {
        self.next as nat == next_ordinal(self.mode, self.seen@)
    }

    /// A numberer at the start of an input.
    pub fn new(mode: NumberMode) -> (r: Self)
        ensures
            r.wf(),
            r.spec_mode() == mode,
            r.seen() == Seq::<Seq<u8>>::empty(),
    {
        LineNumberer { mode, next: 1, seen: Ghost(Seq::empty()) }
    }

    /// The numbering mode.
    pub fn mode(&self) -> (r: NumberMode)
        ensures
            r == self.spec_mode(),
    {
        self.mode
    }

    /// The ordinal that the next non-blank (or, numbering all, the next) line gets.
    pub fn next_number(&self) -> (r: usize)
        requires
            self.wf(),
        ensures
            r as nat == next_ordinal(self.spec_mode(), self.seen()),
    {
        self.next
    }

    /// The output for the next line of the input; `line` keeps its terminator, if any.
    pub fn number_line(&mut self, line: &[u8]) -> (r: Vec<u8>)
        requires
            old(self).wf(),
            next_ordinal(old(self).spec_mode(), old(self).seen()) < usize::MAX,
        ensures
            final(self).wf(),
            final(self).spec_mode() == old(self).spec_mode(),
            final(self).seen() == old(self).seen().push(line@),
            r@ == render_line(old(self).spec_mode(), old(self).seen(), line@),
    {
        let blank = line_is_blank(line);
        let numbered = match self.mode {
            NumberMode::All => true,
            NumberMode::NonBlank => !blank,
            NumberMode::Plain => false,
        };
        let ghost before = self.seen@;
        proof {
            let after = before.push(line@);
            assert(after.drop_last() =~= before);
        }
        self.seen = Ghost(self.seen@.push(line@));
        if numbered {
            let mut r = decimal_digits(self.next);
            r.push(TAB);
            r.extend_from_slice(line);
            assert(r@ =~= prefixed(self.next as nat, line@));
            self.next = self.next + 1;
            r
        } else {
            let mut r: Vec<u8> = Vec::new();
            r.extend_from_slice(line);
            assert(r@ =~= line@);
            r
        }
    }
}

/// The output for all the lines of one input.
pub fn number_lines(mode: NumberMode, lines: &Vec<Vec<u8>>) -> (r: Vec<Vec<u8>>)
    requires
        lines@.len() < usize::MAX,
    ensures
        r@.len() == lines@.len(),
        forall|i: int| 0 <= i < r@.len() ==> #[trigger] r@[i]@ == render(mode, lines_view(lines@))[i],
{
    let mut numberer = LineNumberer::new(mode);
    let mut r: Vec<Vec<u8>> = Vec::new();
    let mut i: usize = 0;
    while i < lines.len()
        invariant
            i <= lines@.len(),
            lines@.len() < usize::MAX,
            numberer.wf(),
            numberer.spec_mode() == mode,
            numberer.seen() =~= lines_view(lines@).take(i as int),
            r@.len() == i,
            forall|k: int| 0 <= k < i ==> #[trigger] r@[k]@ == render(mode, lines_view(lines@))[k],
        decreases lines@.len() - i,
    {
        proof {
            lemma_nonblank_count_le(numberer.seen());
        }
        let out = numberer.number_line(lines[i].as_slice());
        r.push(out);
        i = i + 1;
        assert(numberer.seen() =~= lines_view(lines@).take(i as int));
    }
    r
}

} // verus!
