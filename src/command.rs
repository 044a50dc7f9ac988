//! The fixed set of external commands that the prompt runs.

use vstd::prelude::*;

verus! {

/// One external query, with a fixed program and argument list.
#[derive(Clone, Copy, PartialEq, Eq, Structural, Debug)]
pub enum Query {
    /// Whether the working directory lies inside a work tree.
    InsideWorkTree,
    /// The name of the checked-out branch.
    CurrentBranch,
    /// The tag that points at HEAD.
    TagAtHead,
    /// The abbreviated hash of HEAD.
    ShortCommit,
    /// Differences between the work tree and the index; the exit status tells.
    WorktreeDiff,
    /// Differences between the index and HEAD; the exit status tells.
    IndexDiff,
    /// Untracked files that are not ignored.
    UntrackedFiles,
    /// Commits reachable from HEAD but not from its upstream.
    UpstreamLog,
    /// The full hash of HEAD.
    HeadHash,
    /// The full hash of the upstream branch.
    UpstreamHash,
    /// The active cluster context.
    ClusterContext,
    /// The namespace of the active cluster context.
    ClusterNamespace,
}

/// Queries answered by the version-control tool.
pub open spec fn is_version_control(q: Query) -> bool {
    !(q is ClusterContext || q is ClusterNamespace)
}

/// The program that answers a query.
pub open spec fn program_of(q: Query) -> Seq<char> {
    if is_version_control(q) {
        "git"@
    } else {
        "kubectl"@
    }
}

/// The arguments handed to the program.
pub open spec fn arguments_of(q: Query) -> Seq<Seq<char>> {
    match q {
        Query::InsideWorkTree => seq!["rev-parse"@, "--is-inside-work-tree"@],
        Query::CurrentBranch => seq!["branch"@, "--show-current"@],
        Query::TagAtHead => seq!["tag"@, "--points-at"@, "HEAD"@],
        Query::ShortCommit => seq!["rev-parse"@, "--short"@, "HEAD"@],
        Query::WorktreeDiff => seq!["diff"@, "--quiet"@],
        Query::IndexDiff => seq!["diff"@, "--cached"@, "--quiet"@],
        Query::UntrackedFiles => seq![
            "ls-files"@,
            "--other"@,
            "--directory"@,
            "--exclude-standard"@,
        ],
        Query::UpstreamLog => seq!["log"@, "@{u}.."@],
        Query::HeadHash => seq!["rev-parse"@, "HEAD"@],
        Query::UpstreamHash => seq!["rev-parse"@, "@{u}"@],
        Query::ClusterContext => seq!["config"@, "current-context"@],
        Query::ClusterNamespace => seq![
            "config"@,
            "view"@,
            "--minify"@,
            "--output"@,
            "jsonpath={..namespace}"@,
        ],
    }
}

/// The time a query may take before it counts as not having run, in
/// milliseconds; only the work-tree diff has one.
pub open spec fn deadline_of(q: Query) -> Option<u64> {
    if q is WorktreeDiff {
        Some(WORKTREE_DIFF_DEADLINE_MS)
    } else {
        None
    }
}

/// How long the work-tree diff may run, in milliseconds.
pub const WORKTREE_DIFF_DEADLINE_MS: u64 = 500;

impl Query {
    /// The program to run.
    pub fn program(&self) -> (r: &'static str)
        ensures
            r@ == program_of(*self),
    {
        match self {
            Query::ClusterContext | Query::ClusterNamespace => "kubectl",
            _ => "git",
        }
    }

    /// The arguments to run the program with.
    pub fn arguments(&self) -> (r: Vec<&'static str>)
        ensures
            r@.map_values(|a: &'static str| a@) == arguments_of(*self),
    {
        let r = match self {
            Query::InsideWorkTree => vec!["rev-parse", "--is-inside-work-tree"],
            Query::CurrentBranch => vec!["branch", "--show-current"],
            Query::TagAtHead => vec!["tag", "--points-at", "HEAD"],
            Query::ShortCommit => vec!["rev-parse", "--short", "HEAD"],
            Query::WorktreeDiff => vec!["diff", "--quiet"],
            Query::IndexDiff => vec!["diff", "--cached", "--quiet"],
            Query::UntrackedFiles => vec!["ls-files", "--other", "--directory", "--exclude-standard"],
            Query::UpstreamLog => vec!["log", "@{u}.."],
            Query::HeadHash => vec!["rev-parse", "HEAD"],
            Query::UpstreamHash => vec!["rev-parse", "@{u}"],
            Query::ClusterContext => vec!["config", "current-context"],
            Query::ClusterNamespace => vec![
                "config",
                "view",
                "--minify",
                "--output",
                "jsonpath={..namespace}",
            ],
        };
        assert(r@.map_values(|a: &'static str| a@) =~= arguments_of(*self));
        r
    }

    /// The deadline after which the query is abandoned, if it has one.
    pub fn deadline_millis(&self) -> (r: Option<u64>)
        ensures
            r == deadline_of(*self),
    {
        match self {
            Query::WorktreeDiff => Some(WORKTREE_DIFF_DEADLINE_MS),
            _ => None,
        }
    }
}

} // verus!
