//! An interactive commit tool in two parts: a prompt policy that completes
//! language keywords and hints conventional-commit type labels while a commit
//! message is typed, and a commit pipeline that snapshots the staged index and
//! writes one commit advancing the current branch.
pub mod commit;
pub(crate) mod engine;
pub mod prompt;
