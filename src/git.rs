//! Version-control state: repository detection, the revision's name, and the
//! two change classifiers.

use vstd::prelude::*;
use crate::query::{
    exited_cleanly, parse_output, printed_nothing, query_value, QueryOutcome, is_silent, succeeded,
    text_of,
};

verus! {

/// Whether the work tree of the working directory is unchanged, changed, or
/// holds untracked files.
#[derive(Clone, Copy, PartialEq, Eq, Structural, Debug)]
pub enum UnstagedChanges {
    Clean,
    FilesChanged,
    FilesUntracked,
}

/// How the local branch stands to its upstream.
#[derive(Clone, Copy, PartialEq, Eq, Structural, Debug)]
pub enum UnpushedChanges {
    Synced,
    Ahead,
    Behind,
    NoUpstream,
}

/// The probe answered `true`.
pub open spec fn repository_detected(probe: QueryOutcome) -> bool {
    query_value(probe) == Some("true"@)
}

/// The name of the checked-out revision: the branch, else the commit, else
/// nothing, followed by ` [tag]` when there is a tag; absent when none of
/// the three is known.
pub open spec fn best_name(
    branch: Option<Seq<char>>,
    commit: Option<Seq<char>>,
    tag: Option<Seq<char>>,
) -> Option<Seq<char>> {
    if branch is None && commit is None && tag is None {
        None
    } else {
        let primary = match branch {
            Some(b) => b,
            None => match commit {
                Some(c) => c,
                None => Seq::empty(),
            },
        };
        match tag {
            Some(t) => Some(primary + " ["@ + t + "]"@),
            None => Some(primary),
        }
    }
}

/// What the two diffs decide: `FilesChanged` unless both ran and exited with
/// status zero, in which case the untracked files decide (`None`).
pub open spec fn unstaged_by_diffs(worktree: QueryOutcome, index: QueryOutcome) -> Option<
    UnstagedChanges,
> {
    if exited_cleanly(worktree) && exited_cleanly(index) {
        None
    } else {
        Some(UnstagedChanges::FilesChanged)
    }
}

/// What the listing of untracked files decides.
pub open spec fn unstaged_by_listing(listing: QueryOutcome) -> UnstagedChanges {
    if printed_nothing(listing) {
        UnstagedChanges::Clean
    } else {
        UnstagedChanges::FilesUntracked
    }
}

/// The state of the work tree from the outcomes of its three probes; the
/// listing counts only when the diffs leave the question open.
pub open spec fn unstaged_state(
    worktree: QueryOutcome,
    index: QueryOutcome,
    listing: QueryOutcome,
) -> UnstagedChanges {
    match unstaged_by_diffs(worktree, index) {
        Some(s) => s,
        None => unstaged_by_listing(listing),
    }
}

/// The log of commits ahead of upstream decides `Ahead` when it yields a
/// value; when it failed, did not run or printed only white space, the
/// hashes decide (`None`).
pub open spec fn unpushed_by_log(log: QueryOutcome) -> Option<UnpushedChanges> {
    if query_value(log) is Some {
        Some(UnpushedChanges::Ahead)
    } else {
        None
    }
}

/// What the hashes of HEAD and of the upstream branch decide.
pub open spec fn unpushed_by_hashes(head: QueryOutcome, upstream: QueryOutcome) -> UnpushedChanges {
    if query_value(upstream) is None {
        UnpushedChanges::NoUpstream
    } else if query_value(head) == query_value(upstream) {
        UnpushedChanges::Synced
    } else {
        UnpushedChanges::Behind
    }
}

/// The state of the branch from the outcomes of its three probes; the hashes
/// count only when the log leaves the question open.
pub open spec fn unpushed_state(
    log: QueryOutcome,
    head: QueryOutcome,
    upstream: QueryOutcome,
) -> UnpushedChanges {
    match unpushed_by_log(log) {
        Some(s) => s,
        None => unpushed_by_hashes(head, upstream),
    }
}

/// Whether the repository probe says that the working directory is inside a
/// work tree.
pub fn is_in_git_repository(probe: &QueryOutcome) -> (r: bool)
    ensures
        r == repository_detected(*probe),
{
    match parse_output(probe) {
        Some(v) => {
            let expected = String::from_str("true");
            v == expected
        },
        None => false,
    }
}

/// Joins the branch (or else the commit) and the tag into one name.
pub fn get_best_git_name(branch: Option<String>, commit: Option<String>, tag: Option<String>) -> (r:
    Option<String>)
    ensures
        text_of(r) == best_name(text_of(branch), text_of(commit), text_of(tag)),
{
    if branch.is_none() && commit.is_none() && tag.is_none() {
        return None;
    }
    let primary = match branch {
        Some(b) => b,
        None => match commit {
            Some(c) => c,
            None => String::new(),
        },
    };
    match tag {
        Some(t) => Some(primary.concat(" [").concat(t.as_str()).concat("]")),
        None => Some(primary),
    }
}

/// The first stage of the work-tree classifier: `Some(FilesChanged)` when
/// either diff did not run or exited with a non-zero status (a diff that
/// missed its deadline did not run); `None` when the untracked files must
/// be listed.
pub fn unstaged_after_diffs(worktree: &QueryOutcome, index: &QueryOutcome) -> (r: Option<
    UnstagedChanges,
>)
    ensures
        r == unstaged_by_diffs(*worktree, *index),
        !exited_cleanly(*index) ==> r == Some(UnstagedChanges::FilesChanged),
        *worktree is NotRun ==> r == Some(UnstagedChanges::FilesChanged),
{
    if succeeded(worktree) && succeeded(index) {
        None
    } else {
        Some(UnstagedChanges::FilesChanged)
    }
}

/// The second stage of the work-tree classifier: `Clean` when the listing of
/// untracked files ran and printed nothing, else `FilesUntracked`.
pub fn unstaged_after_listing(listing: &QueryOutcome) -> (r: UnstagedChanges)
    ensures
        r == unstaged_by_listing(*listing),
{
    if is_silent(listing) {
        UnstagedChanges::Clean
    } else {
        UnstagedChanges::FilesUntracked
    }
}

/// The first stage of the branch classifier: `Some(Ahead)` when the log of
/// commits ahead of upstream yields a value; `None` when it failed, did not
/// run or printed only white space, and the hashes must be compared.
pub fn unpushed_after_log(log: &QueryOutcome) -> (r: Option<UnpushedChanges>)
    ensures
        r == unpushed_by_log(*log),
{
    match parse_output(log) {
        Some(_) => Some(UnpushedChanges::Ahead),
        None => None,
    }
}

/// The second stage of the branch classifier: `NoUpstream` when the upstream
/// hash is unknown, `Synced` when it equals the hash of HEAD, else `Behind`.
pub fn unpushed_after_hashes(head: &QueryOutcome, upstream: &QueryOutcome) -> (r: UnpushedChanges)
    ensures
        r == unpushed_by_hashes(*head, *upstream),
{
    let h = parse_output(head);
    let u = parse_output(upstream);
    match u {
        None => UnpushedChanges::NoUpstream,
        Some(u) => match h {
            Some(h) => if h == u {
                UnpushedChanges::Synced
            } else {
                UnpushedChanges::Behind
            },
            None => UnpushedChanges::Behind,
        },
    }
}

/// The work tree is clean when both diffs exit cleanly and the listing of
/// untracked files prints nothing; it counts as changed whenever the index
/// diff fails, whatever the listing says, and whenever the work-tree diff did
/// not run, as when it missed its deadline.
pub proof fn lemma_unstaged_classification(
    worktree: QueryOutcome,
    index: QueryOutcome,
    listing: QueryOutcome,
)
    ensures
        exited_cleanly(worktree) && exited_cleanly(index) && printed_nothing(listing)
            ==> unstaged_state(worktree, index, listing) == UnstagedChanges::Clean,
        !exited_cleanly(index) ==> unstaged_state(worktree, index, listing)
            == UnstagedChanges::FilesChanged,
        worktree is NotRun ==> unstaged_state(worktree, index, listing)
            == UnstagedChanges::FilesChanged,
{
}

/// With a log of commits ahead of upstream that yields nothing (empty,
/// failed or not run), the branch has no upstream when the upstream hash is
/// unknown, is in sync when the two hashes agree, and is behind when they
/// differ; with a log that yields a value it is ahead.
pub proof fn lemma_unpushed_classification(
    log: QueryOutcome,
    head: QueryOutcome,
    upstream: QueryOutcome,
)
    ensures
        query_value(log) is None && query_value(upstream) is None ==> unpushed_state(
            log,
            head,
            upstream,
        ) == UnpushedChanges::NoUpstream,
        query_value(log) is None && query_value(upstream) is Some && query_value(head) == query_value(
            upstream,
        ) ==> unpushed_state(log, head, upstream) == UnpushedChanges::Synced,
        query_value(log) is None && query_value(upstream) is Some && query_value(head) != query_value(
            upstream,
        ) ==> unpushed_state(log, head, upstream) == UnpushedChanges::Behind,
        query_value(log) is Some ==> unpushed_state(log, head, upstream)
            == UnpushedChanges::Ahead,
{
}

} // verus!
