//! Interactive emoji-prefixed commit helper.
//!
//! The library holds the verified core of the tool: the embedded emoji
//! catalog, the pure decision functions behind the interactive prompts,
//! commit-message composition, and the commit writer that checks the
//! staging area and creates a single commit on top of the current head.

pub mod catalog;
pub mod errors;
pub mod git;
pub mod message;
pub mod prompt;
pub mod writer;
