use vstd::prelude::*;

pub mod laws;
pub mod numbering;
pub mod split;

use crate::numbering::NumberMode;

verus! {

/// What the run was asked to do: the inputs, in order, and the numbering flags.
pub struct Config {
    pub files: Vec<String>,
    pub number_lines: bool,
    pub number_nonblank_lines: bool,
}

impl Config {
    /// The numbering that applies: numbering all lines wins over numbering the
    /// non-blank ones when both flags are set.
    pub fn mode(&self) -> (r: NumberMode)
        ensures
            r == (if self.number_lines {
                NumberMode::All
            } else if self.number_nonblank_lines {
                NumberMode::NonBlank
            } else {
                NumberMode::Plain
            }),
    {
        if self.number_lines {
            NumberMode::All
        } else if self.number_nonblank_lines {
            NumberMode::NonBlank
        } else {
            NumberMode::Plain
        }
    }
}

/// Where the lines of one input come from.
#[derive(Clone, Debug)]
pub enum Source {
    /// The process's standard input.
    Stdin,
    /// A file, by its path.
    Path(String),
}

/// The source that an input specifier names: `-` is standard input, anything else a
/// file path.
pub fn resolve(spec: &str) -> (r: Source)
    ensures
        spec@ == seq!['-'] ==> r is Stdin,
        spec@ != seq!['-'] ==> (r matches Source::Path(p) && p@ == spec@),
{
    let owned: String = spec.to_owned();
    let dash: String = "-".to_owned();
    proof {
        reveal_strlit("-");
        assert("-"@ =~= seq!['-']);
    }
    if owned == dash {
        Source::Stdin
    } else {
        Source::Path(owned)
    }
}

/// The process's exit status after a run in which `failed` inputs could not be read:
/// zero when all were, one otherwise.
pub fn exit_status(failed: usize) -> (r: i32)
    ensures
        r == (if failed == 0 { 0i32 } else { 1i32 }),
{
    if failed == 0 {
        0
    } else {
        1
    }
}

/// Declares std's `PathBuf`, carried through unread as a field of `SharedArgs`.
#[verifier::external_type_specification]
#[verifier::external_body]
pub struct ExPathBuf(std::path::PathBuf);

/// Options shared by the document compiler's commands.
pub struct SharedArgs {
    /// The project root, for absolute paths.
    pub root: Option<std::path::PathBuf>,
    /// How many parallel jobs to spawn; none means one per CPU.
    pub jobs: Option<usize>,
}

} // verus!
