//! The closed union of the flow's failure kinds.
//!
//! Every failure of the interactive flow is one of these kinds: the
//! operator aborted a prompt, the index holds no staged change, HEAD does
//! not resolve to a commit, or the repository layer itself failed and
//! handed back a message. Each kind formats as a single line.

use vstd::prelude::*;

verus! {

/// One failure kind of the interactive commit flow.
#[derive(Debug)]
pub enum FlowError {
    /// The operator aborted a prompt, or no interactive terminal is
    /// available.
    Prompt,
    /// The index holds no staged change relative to HEAD.
    NothingStaged,
    /// HEAD does not resolve to an existing commit (detached with no
    /// target, or an unborn branch with no commits yet).
    DetachedOrEmptyHead,
    /// The repository layer failed; the carried text is its message.
    Repo(String),
}

impl FlowError {
    /// The single display line of this failure kind.
    pub open spec fn line_spec(&self) -> Seq<char> {
        match self {
            FlowError::Prompt => "prompt aborted"@,
            FlowError::NothingStaged => "nothing to commit"@,
            FlowError::DetachedOrEmptyHead => "HEAD does not resolve to a commit"@,
            FlowError::Repo(m) => m@,
        }
    }

    /// Formats this failure as its single human-readable line.
    pub fn line(&self) -> (r: String)
        ensures
            r@ == self.line_spec(),
    {
        match self {
            FlowError::Prompt => "prompt aborted".to_owned(),
            FlowError::NothingStaged => "nothing to commit".to_owned(),
            FlowError::DetachedOrEmptyHead => "HEAD does not resolve to a commit".to_owned(),
            FlowError::Repo(m) => m.clone(),
        }
    }
}

} // verus!
