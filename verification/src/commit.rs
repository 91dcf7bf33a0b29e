//! The commit pipeline: resolve the repository, the configured identity, the
//! staged tree and the parent commit, in a fixed order, then create one commit
//! advancing the current branch. Every engine failure is fatal to the whole
//! operation and is reported as the step it happened at. The ghost trace each
//! function returns lists the engine steps attempted, in order, and carries
//! the plain values the engine received — the configuration keys read, the
//! name and email the signature was built from, and the reference name and
//! message of the final commit call — each bound by the trusted wrapper that
//! made the call, so both the ordering of the pipeline and what it hands to
//! the engine are part of its contract.
use crate::engine;
use vstd::prelude::*;

verus! {

/// What the pipeline handed to the engine's commit call, as bound by the
/// trusted wrapper's contract: the reference to update, the message, and
/// whether one signature was handed as both author and committer.
pub struct CommitCall {
    pub update_ref: Seq<char>,
    pub message: Seq<char>,
    pub author_is_committer: bool,
}

/// One step of the commit pipeline, named after the engine call it makes and
/// carrying the plain values that call handed to the engine.
pub enum Step {
    OpenRepository,
    OpenConfig,
    /// The configuration read for the author's name, with the key handed on.
    ReadUserName { key: Seq<char> },
    /// The configuration read for the author's email, with the key handed on.
    ReadUserEmail { key: Seq<char> },
    /// The signature build, with the name and email handed on.
    CreateSignature { name: Seq<char>, email: Seq<char> },
    ReadIndex,
    WriteTree,
    FindTree,
    ReadHead,
    ResolveHead,
    PeelToCommit,
    /// The engine's commit call, with what it received.
    CreateCommit { call: CommitCall },
}

/// Why the pipeline stopped: each variant names the step that failed, so the
/// user can fix the actual cause rather than see a generic failure.
#[derive(Clone, Copy, Debug)]
pub enum CommitError {
    RepositoryNotFound,
    ConfigUnavailable,
    MissingUserName,
    MissingUserEmail,
    SignatureFailed,
    IndexUnavailable,
    TreeWriteFailed,
    TreeMissing,
    HeadMissing,
    HeadUnresolved,
    NotACommit,
    CommitFailed,
}

/// The author/committer identity read from the engine's global configuration.
/// Author and committer are always this same identity.
pub struct Identity {
    pub name: String,
    pub email: String,
}

/// A fully resolved commit request. One is only ever constructed after the
/// tree snapshot and the parent commit have both been resolved, so a value of
/// this type witnesses that both resolutions succeeded; partial construction
/// is never exposed.
pub struct CommitRequest<'r> {
    pub message: String,
    pub tree: git2::Tree<'r>,
    pub parent: git2::Commit<'r>,
    pub author: git2::Signature<'static>,
}

/// The configuration key the author's name is read from.
pub open spec fn user_name_key() -> Seq<char> {
    "user.name"@
}

/// The configuration key the author's email is read from.
pub open spec fn user_email_key() -> Seq<char> {
    "user.email"@
}

/// The reference the commit call updates: the current branch, through HEAD.
pub open spec fn head_ref() -> Seq<char> {
    "HEAD"@
}

/// The steps of one full pipeline run, in their strict order: the identity
/// keys are read under their fixed names, the signature is built from `name`
/// and `email`, and the final call receives `message` for the HEAD reference
/// with one signature as both author and committer.
pub open spec fn full_trace(name: Seq<char>, email: Seq<char>, message: Seq<char>) -> Seq<Step> {
    seq![
        Step::OpenRepository,
        Step::OpenConfig,
        (Step::ReadUserName { key: user_name_key() }),
        (Step::ReadUserEmail { key: user_email_key() }),
        (Step::CreateSignature { name, email }),
        Step::ReadIndex,
        Step::WriteTree,
        Step::FindTree,
        Step::ReadHead,
        Step::ResolveHead,
        Step::PeelToCommit,
        (Step::CreateCommit {
            call: CommitCall { update_ref: head_ref(), message, author_is_committer: true },
        }),
    ]
}

/// The position in the pipeline order of the step a failure happened at.
pub open spec fn error_rank(e: CommitError) -> int {
    match e {
        CommitError::RepositoryNotFound => 0,
        CommitError::ConfigUnavailable => 1,
        CommitError::MissingUserName => 2,
        CommitError::MissingUserEmail => 3,
        CommitError::SignatureFailed => 4,
        CommitError::IndexUnavailable => 5,
        CommitError::TreeWriteFailed => 6,
        CommitError::TreeMissing => 7,
        CommitError::HeadMissing => 8,
        CommitError::HeadUnresolved => 9,
        CommitError::NotACommit => 10,
        CommitError::CommitFailed => 11,
    }
}

/// The steps the pipeline attempts when the step at `rank` is the first to
/// fail: everything up to and including it, in order, and nothing after it.
pub open spec fn trace_through(
    rank: int,
    name: Seq<char>,
    email: Seq<char>,
    message: Seq<char>,
) -> Seq<Step> {
    full_trace(name, email, message).take(rank + 1)
}

/// Whether a trace reaches the engine's create-commit call.
pub open spec fn attempts_create_commit(t: Seq<Step>) -> bool {
    exists|i: int| 0 <= i < t.len() && t[i] is CreateCommit
}

/// The diagnostic for each failed step, identifying it for the user.
pub open spec fn message_of(e: CommitError) -> Seq<char> {
    match e {
        CommitError::RepositoryNotFound => "Could not open repository in current directory"@,
        CommitError::ConfigUnavailable => "Unable to obtain git global config"@,
        CommitError::MissingUserName => "Unable to obtain user.name from git config"@,
        CommitError::MissingUserEmail => "Unable to obtain user.email from git config"@,
        CommitError::SignatureFailed => "Could not create signature"@,
        CommitError::IndexUnavailable => "Unable to obtain index"@,
        CommitError::TreeWriteFailed => "Unable to obtain index tree"@,
        CommitError::TreeMissing => "Could not find tree"@,
        CommitError::HeadMissing => "Could not obtain HEAD"@,
        CommitError::HeadUnresolved => "Could not resolve HEAD"@,
        CommitError::NotACommit => "Could not convert commit"@,
        CommitError::CommitFailed => "Could not create new commit"@,
    }
}

impl CommitError {
    /// The diagnostic naming the precondition that failed.
    pub fn describe(&self) -> (r: String)
        ensures
            r@ == message_of(*self),
    {
        match self {
            CommitError::RepositoryNotFound => String::from_str(
                "Could not open repository in current directory",
            ),
            CommitError::ConfigUnavailable => String::from_str("Unable to obtain git global config"),
            CommitError::MissingUserName => String::from_str(
                "Unable to obtain user.name from git config",
            ),
            CommitError::MissingUserEmail => String::from_str(
                "Unable to obtain user.email from git config",
            ),
            CommitError::SignatureFailed => String::from_str("Could not create signature"),
            CommitError::IndexUnavailable => String::from_str("Unable to obtain index"),
            CommitError::TreeWriteFailed => String::from_str("Unable to obtain index tree"),
            CommitError::TreeMissing => String::from_str("Could not find tree"),
            CommitError::HeadMissing => String::from_str("Could not obtain HEAD"),
            CommitError::HeadUnresolved => String::from_str("Could not resolve HEAD"),
            CommitError::NotACommit => String::from_str("Could not convert commit"),
            CommitError::CommitFailed => String::from_str("Could not create new commit"),
        }
    }
}

/// Law: commit creation is only ever attempted after the tree snapshot and
/// the parent resolution both succeeded: a pipeline trace that reaches the
/// create-commit call is one that stopped nowhere earlier, so it holds the
/// write-tree and peel-to-commit steps before it.
pub proof fn lemma_commit_needs_tree_and_parent(
    rank: int,
    name: Seq<char>,
    email: Seq<char>,
    message: Seq<char>,
)
    requires
        0 <= rank <= 11,
    ensures
        ({
            let t = trace_through(rank, name, email, message);
            attempts_create_commit(t) ==> rank == 11 && t.contains(Step::WriteTree) && t.contains(
                Step::PeelToCommit,
            )
        }),
{
    let t = trace_through(rank, name, email, message);
    if attempts_create_commit(t) {
        let i = choose|i: int| 0 <= i < t.len() && t[i] is CreateCommit;
        assert(full_trace(name, email, message)[i] is CreateCommit);
        assert(i == 11);
        assert(rank == 11);
        assert(t[6] == Step::WriteTree);
        assert(t[10] == Step::PeelToCommit);
    }
}

/// Law: a failure at the tree-write step prevents any call to create-commit:
/// the attempted steps stop exactly at write-tree.
pub proof fn lemma_tree_failure_blocks_commit(name: Seq<char>, email: Seq<char>, message: Seq<char>)
    ensures
        trace_through(error_rank(CommitError::TreeWriteFailed), name, email, message).contains(
            Step::WriteTree,
        ),
        !attempts_create_commit(
            trace_through(error_rank(CommitError::TreeWriteFailed), name, email, message),
        ),
{
    let t = trace_through(error_rank(CommitError::TreeWriteFailed), name, email, message);
    assert(t.len() == 7);
    assert(t[6] == Step::WriteTree);
    assert forall|i: int| 0 <= i < t.len() implies !(t[i] is CreateCommit) by {
        assert(t[i] == full_trace(name, email, message)[i]);
    }
}

/// Law: when the global identity lacks user.email, the pipeline stops at the
/// read of that very key, before any index, tree, HEAD or commit work.
pub proof fn lemma_missing_email_stops_pipeline(
    name: Seq<char>,
    email: Seq<char>,
    message: Seq<char>,
)
    ensures
        trace_through(error_rank(CommitError::MissingUserEmail), name, email, message).last() == (
        Step::ReadUserEmail { key: user_email_key() }),
        !trace_through(error_rank(CommitError::MissingUserEmail), name, email, message).contains(
            Step::ReadIndex,
        ),
        !trace_through(error_rank(CommitError::MissingUserEmail), name, email, message).contains(
            Step::WriteTree,
        ),
        !trace_through(error_rank(CommitError::MissingUserEmail), name, email, message).contains(
            Step::FindTree,
        ),
        !trace_through(error_rank(CommitError::MissingUserEmail), name, email, message).contains(
            Step::ReadHead,
        ),
        !trace_through(error_rank(CommitError::MissingUserEmail), name, email, message).contains(
            Step::ResolveHead,
        ),
        !trace_through(error_rank(CommitError::MissingUserEmail), name, email, message).contains(
            Step::PeelToCommit,
        ),
        !attempts_create_commit(
            trace_through(error_rank(CommitError::MissingUserEmail), name, email, message),
        ),
{
    let t = trace_through(error_rank(CommitError::MissingUserEmail), name, email, message);
    assert(t.len() == 4);
    assert(t[3] == (Step::ReadUserEmail { key: user_email_key() }));
    assert forall|i: int| 0 <= i < t.len() implies t[i] == full_trace(name, email, message)[i] by {}
}

/// Reads `user.name` and `user.email` from the configuration. Both are
/// required, with no anonymous fallback and no empty-string default; the name
/// is read first. The ghost trace lists the reads attempted, with the key
/// each one handed to the engine, as bound by the trusted read wrapper.
pub fn resolve_identity(config: &git2::Config) -> (r: (
    Result<Identity, CommitError>,
    Ghost<Seq<Step>>,
))
    ensures
        r.0 is Ok ==> r.1@ == seq![
            (Step::ReadUserName { key: user_name_key() }),
            (Step::ReadUserEmail { key: user_email_key() }),
        ],
        r.0 matches Err(e) ==> (e is MissingUserName && r.1@ == seq![
            (Step::ReadUserName { key: user_name_key() }),
        ]) || (e is MissingUserEmail && r.1@ == seq![
            (Step::ReadUserName { key: user_name_key() }),
            (Step::ReadUserEmail { key: user_email_key() }),
        ]),
{
    let (name_result, name_key) = engine::config_get_string(config, "user.name");
    let ghost read_name: Step = Step::ReadUserName { key: name_key@ };
    let name = match name_result {
        Ok(name) => name,
        Err(_) => {
            let ghost t: Seq<Step> = seq![read_name];
            return (Err(CommitError::MissingUserName), Ghost(t));
        },
    };
    let (email_result, email_key) = engine::config_get_string(config, "user.email");
    let ghost read_email: Step = Step::ReadUserEmail { key: email_key@ };
    let email = match email_result {
        Ok(email) => email,
        Err(_) => {
            let ghost t: Seq<Step> = seq![read_name, read_email];
            return (Err(CommitError::MissingUserEmail), Ghost(t));
        },
    };
    let ghost t: Seq<Step> = seq![read_name, read_email];
    (Ok(Identity { name, email }), Ghost(t))
}

/// Commits the already-staged index content onto the current branch: builds a
/// signature from exactly the author's name and email, snapshots the index
/// into a tree, resolves HEAD to the single parent commit, and only then
/// constructs the commit request and asks the engine to create the commit.
/// The index is read, never modified. The ghost trace lists the steps
/// attempted in pipeline order with the values each one handed to the engine,
/// as bound by the trusted wrappers: on success it ends with a commit call
/// that received the HEAD reference, the caller's message unmodified, and one
/// signature as both author and committer; on failure it ends at the failing
/// step, so a tree-write failure provably leaves commit creation unattempted.
pub fn commit_staged(repo: &git2::Repository, author: &Identity, message: &str) -> (r: (
    Result<git2::Oid, CommitError>,
    Ghost<Seq<Step>>,
))
    ensures
        r.0 is Ok ==> r.1@ == full_trace(author.name@, author.email@, message@).skip(4),
        r.0 matches Err(e) ==> 4 <= error_rank(e) && r.1@ == trace_through(
            error_rank(e),
            author.name@,
            author.email@,
            message@,
        ).skip(4),
{
    let (signature_result, signed_name, signed_email) = engine::signature_now(
        author.name.as_str(),
        author.email.as_str(),
    );
    let ghost built: Step = Step::CreateSignature { name: signed_name@, email: signed_email@ };
    proof {
        assert(built == (Step::CreateSignature { name: author.name@, email: author.email@ }));
    }
    let signature = match signature_result {
        Ok(signature) => signature,
        Err(_) => {
            let ghost t: Seq<Step> = seq![built];
            proof {
                assert(t =~= trace_through(
                    error_rank(CommitError::SignatureFailed),
                    author.name@,
                    author.email@,
                    message@,
                ).skip(4));
            }
            return (Err(CommitError::SignatureFailed), Ghost(t));
        },
    };
    let mut index = match engine::repository_index(repo) {
        Ok(index) => index,
        Err(_) => {
            let ghost t: Seq<Step> = seq![built, Step::ReadIndex];
            proof {
                assert(t =~= trace_through(
                    error_rank(CommitError::IndexUnavailable),
                    author.name@,
                    author.email@,
                    message@,
                ).skip(4));
            }
            return (Err(CommitError::IndexUnavailable), Ghost(t));
        },
    };
    let tree_id = match engine::index_write_tree(&mut index) {
        Ok(tree_id) => tree_id,
        Err(_) => {
            let ghost t: Seq<Step> = seq![built, Step::ReadIndex, Step::WriteTree];
            proof {
                assert(t =~= trace_through(
                    error_rank(CommitError::TreeWriteFailed),
                    author.name@,
                    author.email@,
                    message@,
                ).skip(4));
            }
            return (Err(CommitError::TreeWriteFailed), Ghost(t));
        },
    };
    let tree = match engine::find_tree(repo, tree_id) {
        Ok(tree) => tree,
        Err(_) => {
            let ghost t: Seq<Step> = seq![built, Step::ReadIndex, Step::WriteTree, Step::FindTree];
            proof {
                assert(t =~= trace_through(
                    error_rank(CommitError::TreeMissing),
                    author.name@,
                    author.email@,
                    message@,
                ).skip(4));
            }
            return (Err(CommitError::TreeMissing), Ghost(t));
        },
    };
    let head = match engine::repository_head(repo) {
        Ok(head) => head,
        Err(_) => {
            let ghost t: Seq<Step> = seq![
                built,
                Step::ReadIndex,
                Step::WriteTree,
                Step::FindTree,
                Step::ReadHead,
            ];
            proof {
                assert(t =~= trace_through(
                    error_rank(CommitError::HeadMissing),
                    author.name@,
                    author.email@,
                    message@,
                ).skip(4));
            }
            return (Err(CommitError::HeadMissing), Ghost(t));
        },
    };
    let resolved = match engine::reference_resolve(&head) {
        Ok(resolved) => resolved,
        Err(_) => {
            let ghost t: Seq<Step> = seq![
                built,
                Step::ReadIndex,
                Step::WriteTree,
                Step::FindTree,
                Step::ReadHead,
                Step::ResolveHead,
            ];
            proof {
                assert(t =~= trace_through(
                    error_rank(CommitError::HeadUnresolved),
                    author.name@,
                    author.email@,
                    message@,
                ).skip(4));
            }
            return (Err(CommitError::HeadUnresolved), Ghost(t));
        },
    };
    let parent = match engine::peel_to_commit(&resolved) {
        Ok(parent) => parent,
        Err(_) => {
            let ghost t: Seq<Step> = seq![
                built,
                Step::ReadIndex,
                Step::WriteTree,
                Step::FindTree,
                Step::ReadHead,
                Step::ResolveHead,
                Step::PeelToCommit,
            ];
            proof {
                assert(t =~= trace_through(
                    error_rank(CommitError::NotACommit),
                    author.name@,
                    author.email@,
                    message@,
                ).skip(4));
            }
            return (Err(CommitError::NotACommit), Ghost(t));
        },
    };
    let request = CommitRequest {
        message: String::from_str(message),
        tree,
        parent,
        author: signature,
    };
    let (commit_result, handed_ref, handed_message, same_signature) = engine::repository_commit(
        repo,
        "HEAD",
        &request.author,
        request.message.as_str(),
        &request.tree,
        &request.parent,
    );
    let ghost call: CommitCall = CommitCall {
        update_ref: handed_ref@,
        message: handed_message@,
        author_is_committer: same_signature,
    };
    let ghost full: Seq<Step> = seq![
        built,
        Step::ReadIndex,
        Step::WriteTree,
        Step::FindTree,
        Step::ReadHead,
        Step::ResolveHead,
        Step::PeelToCommit,
        (Step::CreateCommit { call }),
    ];
    proof {
        assert(call == (CommitCall {
            update_ref: head_ref(),
            message: message@,
            author_is_committer: true,
        }));
        assert(full =~= full_trace(author.name@, author.email@, message@).skip(4));
        assert(full =~= trace_through(
            error_rank(CommitError::CommitFailed),
            author.name@,
            author.email@,
            message@,
        ).skip(4));
    }
    match commit_result {
        Ok(commit_id) => (Ok(commit_id), Ghost(full)),
        Err(_) => (Err(CommitError::CommitFailed), Ghost(full)),
    }
}

/// The whole commit operation: opens the repository rooted at `repo_path`,
/// reads the global identity under the keys user.name then user.email (both
/// required), then commits the staged content with HEAD's commit as sole
/// parent, advancing HEAD. The ghost trace lists every engine step attempted,
/// in pipeline order, with the values handed to the engine as bound by the
/// trusted wrappers: on success it is the whole pipeline — the two fixed keys
/// read, a signature built from the name and email they yielded, and a final
/// commit call that received the HEAD reference, the caller's message
/// unmodified, and one signature as both author and committer; on failure it
/// stops exactly at the failing step, so nothing after the first failure is
/// ever attempted.
pub fn create_commit(repo_path: &str, message: &str) -> (r: (
    Result<git2::Oid, CommitError>,
    Ghost<Seq<Step>>,
))
    ensures
        r.0 is Ok ==> exists|name: Seq<char>, email: Seq<char>|
            r.1@ == full_trace(name, email, message@),
        r.0 matches Err(e) ==> exists|name: Seq<char>, email: Seq<char>|
            r.1@ == trace_through(error_rank(e), name, email, message@),
{
    let repo = match engine::open_repository(repo_path) {
        Ok(repo) => repo,
        Err(_) => {
            let ghost t: Seq<Step> = seq![Step::OpenRepository];
            proof {
                let rank = error_rank(CommitError::RepositoryNotFound);
                assert(t =~= trace_through(rank, Seq::<char>::empty(), Seq::<char>::empty(), message@));
            }
            return (Err(CommitError::RepositoryNotFound), Ghost(t));
        },
    };
    let config = match engine::open_default_config() {
        Ok(config) => config,
        Err(_) => {
            let ghost t: Seq<Step> = seq![Step::OpenRepository, Step::OpenConfig];
            proof {
                let rank = error_rank(CommitError::ConfigUnavailable);
                assert(t =~= trace_through(rank, Seq::<char>::empty(), Seq::<char>::empty(), message@));
            }
            return (Err(CommitError::ConfigUnavailable), Ghost(t));
        },
    };
    let (identity_result, identity_trace) = resolve_identity(&config);
    let ghost opened: Seq<Step> = seq![Step::OpenRepository, Step::OpenConfig];
    let identity = match identity_result {
        Ok(identity) => identity,
        Err(e) => {
            let ghost t: Seq<Step> = opened + identity_trace@;
            proof {
                assert(t =~= trace_through(
                    error_rank(e),
                    Seq::<char>::empty(),
                    Seq::<char>::empty(),
                    message@,
                ));
            }
            return (Err(e), Ghost(t));
        },
    };
    let (result, staged_trace) = commit_staged(&repo, &identity, message);
    let ghost full: Seq<Step> = opened + identity_trace@ + staged_trace@;
    proof {
        if result is Ok {
            assert(full =~= full_trace(identity.name@, identity.email@, message@));
        } else {
            let e = result->Err_0;
            assert(error_rank(e) <= 11);
            assert(full =~= trace_through(error_rank(e), identity.name@, identity.email@, message@));
        }
    }
    (result, Ghost(full))
}

} // verus!
