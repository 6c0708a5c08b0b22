//! The trusted boundary to the repository layer.
//!
//! Every call into the `git2` crate stands here, one wrapper per `git2`
//! function, so that the writer's logic above it is verified against
//! these declarations alone. What each call returns depends on the
//! repository on disk, so the wrappers promise nothing about the values
//! that come back; the verified code takes them as arguments and decides.

use vstd::prelude::*;

verus! {

#[verifier::external_type_specification]
#[verifier::external_body]
pub struct ExRepository(git2::Repository);

#[verifier::external_type_specification]
#[verifier::external_body]
pub struct ExGitError(git2::Error);

#[verifier::external_type_specification]
#[verifier::external_body]
pub struct ExIndex(git2::Index);

#[verifier::external_type_specification]
#[verifier::external_body]
pub struct ExOid(git2::Oid);

#[verifier::external_type_specification]
#[verifier::external_body]
pub struct ExTree<'a>(git2::Tree<'a>);

#[verifier::external_type_specification]
#[verifier::external_body]
pub struct ExSignature<'a>(git2::Signature<'a>);

#[verifier::external_type_specification]
#[verifier::external_body]
pub struct ExReference<'a>(git2::Reference<'a>);

#[verifier::external_type_specification]
#[verifier::external_body]
pub struct ExCommit<'a>(git2::Commit<'a>);

/// Relies on git2's Repository::statuses with default options, and on
/// Status::bits: one raw status bitmask per entry of the repository's
/// status table, in the table's order.
#[verifier::external_body]
pub(crate) fn repo_status_bits(repo: &git2::Repository) -> (r: Result<Vec<u32>, git2::Error>) {
    match repo.statuses(None) {
        Ok(statuses) => Ok(statuses.iter().map(|e| e.status().bits()).collect()),
        Err(e) => Err(e),
    }
}

/// Relies on git2's Repository::index: the repository's index file.
#[verifier::external_body]
pub(crate) fn repo_index(repo: &git2::Repository) -> (r: Result<git2::Index, git2::Error>) {
    repo.index()
}

/// Relies on git2's Index::write: persists the in-memory index to disk.
#[verifier::external_body]
pub(crate) fn index_write(index: &mut git2::Index) -> (r: Result<(), git2::Error>) {
    index.write()
}

/// Relies on git2's Index::write_tree: writes the index contents as a
/// tree object and returns that tree's id.
#[verifier::external_body]
pub(crate) fn index_write_tree(index: &mut git2::Index) -> (r: Result<git2::Oid, git2::Error>) {
    index.write_tree()
}

/// Relies on git2's Repository::find_tree: looks the tree object up by
/// its id.
#[verifier::external_body]
pub(crate) fn repo_find_tree<'r>(repo: &'r git2::Repository, oid: git2::Oid) -> (r: Result<
    git2::Tree<'r>,
    git2::Error,
>) {
    repo.find_tree(oid)
}

/// Relies on git2's Repository::signature: the default author and
/// committer identity from the repository's configuration.
#[verifier::external_body]
pub(crate) fn repo_signature(repo: &git2::Repository) -> (r: Result<
    git2::Signature<'static>,
    git2::Error,
>) {
    repo.signature()
}

/// Relies on git2's Repository::head: the reference that HEAD points to,
/// resolved to a direct reference; fails on an unborn branch.
#[verifier::external_body]
pub(crate) fn repo_head<'r>(repo: &'r git2::Repository) -> (r: Result<
    git2::Reference<'r>,
    git2::Error,
>) {
    repo.head()
}

/// Relies on git2's Reference::target: the object id a direct reference
/// points at, `None` for a symbolic reference.
#[verifier::external_body]
pub(crate) fn reference_target(reference: &git2::Reference<'_>) -> (r: Option<git2::Oid>) {
    reference.target()
}

/// Relies on git2's Repository::find_commit: looks the commit object up
/// by its id.
#[verifier::external_body]
pub(crate) fn repo_find_commit<'r>(repo: &'r git2::Repository, oid: git2::Oid) -> (r: Result<
    git2::Commit<'r>,
    git2::Error,
>) {
    repo.find_commit(oid)
}

/// Relies on git2's Repository::commit with update ref `"HEAD"`: creates
/// a commit object with the given author-and-committer identity, message,
/// tree and single parent, moves HEAD's branch to it, and returns the new
/// commit's id.
#[verifier::external_body]
pub(crate) fn repo_create_commit(
    repo: &git2::Repository,
    author: &git2::Signature<'_>,
    message: &str,
    tree: &git2::Tree<'_>,
    parent: &git2::Commit<'_>,
) -> (r: Result<git2::Oid, git2::Error>) {
    repo.commit(Some("HEAD"), author, author, message, tree, &[parent])
}

/// Relies on git2's Error::message: the error's human-readable text.
#[verifier::external_body]
pub(crate) fn error_message(e: &git2::Error) -> (r: String) {
    e.message().to_owned()
}

/// Relies on git2's Error::code: true exactly for the codes that mean
/// HEAD has no resolvable target (an unborn branch, or a reference that
/// does not exist).
#[verifier::external_body]
pub(crate) fn error_is_head_unresolved(e: &git2::Error) -> (r: bool) {
    match e.code() {
        git2::ErrorCode::UnbornBranch => true,
        git2::ErrorCode::NotFound => true,
        _ => false,
    }
}

} // verus!
