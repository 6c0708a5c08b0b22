//! The commit writer: staging check and commit creation.
//!
//! `ensure_staged` reads the repository's status table and succeeds only
//! when some entry carries an index-relative flag; the decision itself is
//! the verified `staged_verdict` over the raw status bitmasks.
//! `write_commit` composes the message text, persists the index as a
//! tree, resolves HEAD to the single parent, and creates one commit on
//! top of it; a HEAD with no resolvable target is the one failure it
//! classifies itself, everything else passes the repository layer's
//! message through.

use vstd::prelude::*;

use crate::errors::FlowError;
use crate::git::error_is_head_unresolved;
use crate::git::error_message;
use crate::git::index_write;
use crate::git::index_write_tree;
use crate::git::reference_target;
use crate::git::repo_create_commit;
use crate::git::repo_find_commit;
use crate::git::repo_find_tree;
use crate::git::repo_head;
use crate::git::repo_index;
use crate::git::repo_signature;
use crate::git::repo_status_bits;
use crate::message::compose;
use crate::message::CommitMessage;

verus! {

/// Index-relative status bit: path added to the index.
pub const INDEX_NEW: u32 = 1;

/// Index-relative status bit: path modified in the index.
pub const INDEX_MODIFIED: u32 = 2;

/// Index-relative status bit: path deleted from the index.
pub const INDEX_DELETED: u32 = 4;

/// Index-relative status bit: path renamed in the index.
pub const INDEX_RENAMED: u32 = 8;

/// Index-relative status bit: path's type changed in the index.
pub const INDEX_TYPECHANGE: u32 = 16;

/// One status bitmask marks a staged change exactly when any
/// index-relative flag is set in it.
pub open spec fn staged_flag(bits: u32) -> bool {
    bits & (INDEX_NEW | INDEX_MODIFIED | INDEX_DELETED | INDEX_RENAMED | INDEX_TYPECHANGE) != 0
}

/// A status table holds a staged change exactly when some entry's
/// bitmask marks one.
pub open spec fn any_staged(bits: Seq<u32>) -> bool {
    exists|i: int| 0 <= i < bits.len() && staged_flag(bits[i])
}

/// Whether some entry of the status table marks a staged change.
pub fn has_staged_entry(bits: &Vec<u32>) -> (r: bool)
    ensures
        r == any_staged(bits@),
{
    let mut i: usize = 0;
    while i < bits.len()
        invariant
            0 <= i <= bits@.len(),
            forall|j: int| 0 <= j < i ==> !staged_flag(bits@[j]),
        decreases bits@.len() - i,
    {
        if bits[i] & (INDEX_NEW | INDEX_MODIFIED | INDEX_DELETED | INDEX_RENAMED
            | INDEX_TYPECHANGE) != 0 {
            assert(staged_flag(bits@[i as int]));
            return true;
        }
        i = i + 1;
    }
    false
}

/// The staging verdict over a status table: success exactly when some
/// entry carries an index-relative flag, and the one failure it can
/// return is `NothingStaged`.
pub fn staged_verdict(bits: &Vec<u32>) -> (r: Result<(), FlowError>)
    ensures
        r is Ok <==> any_staged(bits@),
        r matches Err(e) ==> e is NothingStaged,
{
    if has_staged_entry(bits) {
        Ok(())
    } else {
        Err(FlowError::NothingStaged)
    }
}

/// Reads the repository's status table and succeeds only when at least
/// one entry carries an index-relative flag. Pure read: no mutation.
pub fn ensure_staged(repo: &git2::Repository) -> (r: Result<(), FlowError>)
    ensures
        r matches Err(e) ==> (e is NothingStaged || e is Repo),
{
    match repo_status_bits(repo) {
        Ok(bits) => staged_verdict(&bits),
        Err(e) => Err(FlowError::Repo(error_message(&e))),
    }
}

/// Composes the message text from the payload, persists the index,
/// writes it as a tree, resolves HEAD to the single parent commit, and
/// creates one commit on top of it, moving HEAD there. Fails with
/// `DetachedOrEmptyHead` when HEAD has no resolvable target; every other
/// failure carries the repository layer's message.
pub fn write_commit(repo: &git2::Repository, payload: &CommitMessage) -> (r: Result<
    git2::Oid,
    FlowError,
>)
    ensures
        r matches Err(e) ==> (e is DetachedOrEmptyHead || e is Repo),
{
    let text = compose(payload);
    let mut index = match repo_index(repo) {
        Ok(index) => index,
        Err(e) => return Err(FlowError::Repo(error_message(&e))),
    };
    match index_write(&mut index) {
        Ok(()) => (),
        Err(e) => return Err(FlowError::Repo(error_message(&e))),
    }
    let tree_oid = match index_write_tree(&mut index) {
        Ok(oid) => oid,
        Err(e) => return Err(FlowError::Repo(error_message(&e))),
    };
    let tree = match repo_find_tree(repo, tree_oid) {
        Ok(tree) => tree,
        Err(e) => return Err(FlowError::Repo(error_message(&e))),
    };
    let author = match repo_signature(repo) {
        Ok(sig) => sig,
        Err(e) => return Err(FlowError::Repo(error_message(&e))),
    };
    let head = match repo_head(repo) {
        Ok(head) => head,
        Err(e) => {
            if error_is_head_unresolved(&e) {
                return Err(FlowError::DetachedOrEmptyHead);
            } else {
                return Err(FlowError::Repo(error_message(&e)));
            }
        },
    };
    let parent_oid = match reference_target(&head) {
        Some(oid) => oid,
        None => return Err(FlowError::DetachedOrEmptyHead),
    };
    let parent = match repo_find_commit(repo, parent_oid) {
        Ok(commit) => commit,
        Err(e) => return Err(FlowError::Repo(error_message(&e))),
    };
    match repo_create_commit(repo, &author, text.as_str(), &tree, &parent) {
        Ok(oid) => Ok(oid),
        Err(e) => Err(FlowError::Repo(error_message(&e))),
    }
}

/// The whole repository half of the flow: checks that something is
/// staged, then writes the commit. A `Prompt` failure can never come out
/// of it.
pub fn run_commit(repo: &git2::Repository, payload: &CommitMessage) -> (r: Result<
    git2::Oid,
    FlowError,
>)
    ensures
        r matches Err(e) ==> !(e is Prompt),
{
    match ensure_staged(repo) {
        Ok(()) => write_commit(repo, payload),
        Err(e) => Err(e),
    }
}

} // verus!
