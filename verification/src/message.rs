//! The commit-message payload and its composition.
//!
//! A `CommitMessage` is what the prompt flow produces: the chosen glyph, a
//! title, and an optional body. `compose` turns it into the final message
//! text: glyph and title joined by one space, and, when a body is present,
//! the body after one blank line.

use vstd::prelude::*;

verus! {

/// The structured commit-message payload produced by the prompt flow.
pub struct CommitMessage {
    /// The chosen emoji glyph.
    pub emoji: String,
    /// The commit title; the prompt flow only produces non-empty titles.
    pub title: String,
    /// The optional commit body.
    pub body: Option<String>,
}

/// The mathematical model of a `CommitMessage`.
pub struct CommitMessageModel {
    pub emoji: Seq<char>,
    pub title: Seq<char>,
    pub body: Option<Seq<char>>,
}

impl View for CommitMessage {
    type V = CommitMessageModel;

    open spec fn view(&self) -> CommitMessageModel {
        CommitMessageModel {
            emoji: self.emoji@,
            title: self.title@,
            body: match self.body {
                Some(b) => Some(b@),
                None => None,
            },
        }
    }
}

/// The composed message text: `"<emoji> <title>"`, and, when a body is
/// present, `"\n\n<body>"` appended.
pub open spec fn compose_spec(m: CommitMessageModel) -> Seq<char> {
    match m.body {
        Some(b) => m.emoji + " "@ + m.title + "\n\n"@ + b,
        None => m.emoji + " "@ + m.title,
    }
}

/// Composes the final commit-message text from the payload.
pub fn compose(m: &CommitMessage) -> (r: String)
    ensures
        r@ == compose_spec(m@),
{
    let mut s = m.emoji.clone();
    s.append(" ");
    s.append(m.title.as_str());
    match &m.body {
        Some(b) => {
            s.append("\n\n");
            s.append(b.as_str());
        },
        None => {},
    }
    s
}

} // verus!
