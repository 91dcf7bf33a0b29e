//! The version-control engine behind the commit pipeline: declarations of the
//! git2 handle types the pipeline carries, and one trusted wrapper per engine
//! call it makes. Every handle is opaque here; the pipeline only sequences the
//! calls and maps each failure to the step it belongs to. Wrappers whose call
//! hands plain values to the engine echo those values back beside the result,
//! with contracts binding the echoes to the arguments, so the pipeline's own
//! contracts can state what the engine received.
use vstd::prelude::*;

verus! {

#[verifier::external_type_specification]
#[verifier::external_body]
pub struct ExRepository(git2::Repository);

#[verifier::external_type_specification]
#[verifier::external_body]
pub struct ExConfig(git2::Config);

#[verifier::external_type_specification]
#[verifier::external_body]
pub struct ExError(git2::Error);

#[verifier::external_type_specification]
#[verifier::external_body]
pub struct ExOid(git2::Oid);

#[verifier::external_type_specification]
#[verifier::external_body]
pub struct ExIndex(git2::Index);

#[verifier::external_type_specification]
#[verifier::external_body]
pub struct ExSignature<'a>(git2::Signature<'a>);

#[verifier::external_type_specification]
#[verifier::external_body]
pub struct ExTree<'a>(git2::Tree<'a>);

#[verifier::external_type_specification]
#[verifier::external_body]
pub struct ExReference<'a>(git2::Reference<'a>);

#[verifier::external_type_specification]
#[verifier::external_body]
pub struct ExCommit<'a>(git2::Commit<'a>);

/// Relies on git2::Repository::open: opens the repository rooted at `path`;
/// fails when no repository is there.
#[verifier::external_body]
pub(crate) fn open_repository(path: &str) -> (r: Result<git2::Repository, git2::Error>) {
    git2::Repository::open(path)
}

/// Relies on git2::Config::open_default: opens the default (global)
/// configuration set; what it holds depends on the machine.
#[verifier::external_body]
pub(crate) fn open_default_config() -> (r: Result<git2::Config, git2::Error>) {
    git2::Config::open_default()
}

/// Relies on git2::Config::get_string: the configured value of `key`, or an
/// error when the key is unset. The call's key is echoed beside the result,
/// bound to the argument, recording what was handed to the engine.
#[verifier::external_body]
pub(crate) fn config_get_string<'k>(config: &git2::Config, key: &'k str) -> (r: (
    Result<String, git2::Error>,
    &'k str,
))
    ensures
        r.1@ == key@,
{
    (config.get_string(key), key)
}

/// Relies on git2::Signature::now: an identity signature stamped with the
/// current time. The call's name and email are echoed beside the result,
/// bound to the arguments, recording what the signature was built from.
#[verifier::external_body]
pub(crate) fn signature_now<'a>(name: &'a str, email: &'a str) -> (r: (
    Result<git2::Signature<'static>, git2::Error>,
    &'a str,
    &'a str,
))
    ensures
        r.1@ == name@,
        r.2@ == email@,
{
    (git2::Signature::now(name, email), name, email)
}

/// Relies on git2::Repository::index: a handle to the repository's staging
/// index.
#[verifier::external_body]
pub(crate) fn repository_index(repo: &git2::Repository) -> (r: Result<git2::Index, git2::Error>) {
    repo.index()
}

/// Relies on git2::Index::write_tree: snapshots the index into an immutable
/// tree object and returns that tree's id; fails on an unwritable index, such
/// as one holding unmerged entries.
#[verifier::external_body]
pub(crate) fn index_write_tree(index: &mut git2::Index) -> (r: Result<git2::Oid, git2::Error>) {
    index.write_tree()
}

/// Relies on git2::Repository::find_tree: looks the tree object with id `oid`
/// up in the repository's object store.
#[verifier::external_body]
pub(crate) fn find_tree<'r>(repo: &'r git2::Repository, oid: git2::Oid) -> (r: Result<
    git2::Tree<'r>,
    git2::Error,
>) {
    repo.find_tree(oid)
}

/// Relies on git2::Repository::head: the repository's HEAD reference; fails
/// for instance on an unborn branch.
#[verifier::external_body]
pub(crate) fn repository_head<'r>(repo: &'r git2::Repository) -> (r: Result<
    git2::Reference<'r>,
    git2::Error,
>) {
    repo.head()
}

/// Relies on git2::Reference::resolve: follows a symbolic reference until it
/// reaches a direct one.
#[verifier::external_body]
pub(crate) fn reference_resolve<'r>(reference: &git2::Reference<'r>) -> (r: Result<
    git2::Reference<'r>,
    git2::Error,
>) {
    reference.resolve()
}

/// Relies on git2::Reference::peel_to_commit: the commit object the reference
/// ultimately points at.
#[verifier::external_body]
pub(crate) fn peel_to_commit<'r>(reference: &git2::Reference<'r>) -> (r: Result<
    git2::Commit<'r>,
    git2::Error,
>) {
    reference.peel_to_commit()
}

/// Relies on git2::Repository::commit: writes a commit object with the given
/// message, tree and single parent, with `signature` handed as both the
/// author and the committer, and atomically updates `update_ref` to point at
/// the new commit. The reference name and message are echoed beside the
/// result, bound to the arguments, and the final component certifies that the
/// one signature was handed as author and as committer.
#[verifier::external_body]
pub(crate) fn repository_commit<'r, 'a>(
    repo: &'r git2::Repository,
    update_ref: &'a str,
    signature: &git2::Signature<'_>,
    message: &'a str,
    tree: &git2::Tree<'r>,
    parent: &git2::Commit<'r>,
) -> (r: (Result<git2::Oid, git2::Error>, &'a str, &'a str, bool))
    ensures
        r.1@ == update_ref@,
        r.2@ == message@,
        r.3,
{
    (
        repo.commit(Some(update_ref), signature, signature, message, tree, &[parent]),
        update_ref,
        message,
        true,
    )
}

} // verus!
