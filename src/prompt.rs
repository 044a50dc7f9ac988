//! The aggregator: the waves of queries that one prompt render runs, and the
//! record that their outcomes are merged into.

use vstd::prelude::*;
use crate::command::Query;
use crate::git::{
    best_name, get_best_git_name, is_in_git_repository, repository_detected, unpushed_after_hashes,
    unpushed_after_log, unpushed_by_hashes, unpushed_by_log, unstaged_after_diffs,
    unstaged_after_listing, unstaged_by_diffs, unstaged_by_listing, UnpushedChanges,
    UnstagedChanges,
};
use crate::query::{exited_cleanly, parse_output, printed_nothing, query_value, text_of, QueryOutcome};

verus! {

/// Where a session stands.
#[derive(Clone, Copy, PartialEq, Eq, Structural, Debug)]
pub enum Stage {
    /// The repository probe is to run.
    Probe,
    /// The name, the diffs, the upstream log and the cluster queries are to
    /// run; only the cluster queries when outside a repository.
    Gather { in_repository: bool },
    /// The classifiers that the first stage left open are to finish.
    Follow { list_untracked: bool, compare_hashes: bool },
    /// Every field is known.
    Finished,
}

/// Everything that one prompt shows.
pub struct PromptContext {
    /// The working directory, as it is to be shown.
    pub directory: String,
    /// A message to show beside the directory.
    pub message: Option<String>,
    /// The name of the checked-out revision.
    pub identity: Option<String>,
    /// The state of the work tree; absent outside a repository.
    pub unstaged: Option<UnstagedChanges>,
    /// The state of the branch against its upstream; absent outside a repository.
    pub unpushed: Option<UnpushedChanges>,
    pub cluster_context: Option<String>,
    pub cluster_namespace: Option<String>,
    pub cloud_profile: Option<String>,
    pub cloud_region: Option<String>,
    /// The exit code of the previous command.
    pub exit_code: u8,
}

/// The model of a `PromptContext`, with texts as character sequences.
pub ghost struct PromptView {
    pub directory: Seq<char>,
    pub message: Option<Seq<char>>,
    pub identity: Option<Seq<char>>,
    pub unstaged: Option<UnstagedChanges>,
    pub unpushed: Option<UnpushedChanges>,
    pub cluster_context: Option<Seq<char>>,
    pub cluster_namespace: Option<Seq<char>>,
    pub cloud_profile: Option<Seq<char>>,
    pub cloud_region: Option<Seq<char>>,
    pub exit_code: u8,
}

impl View for PromptContext {
    type V = PromptView;

    open spec fn view(&self) -> PromptView {
        PromptView {
            directory: self.directory@,
            message: text_of(self.message),
            identity: text_of(self.identity),
            unstaged: self.unstaged,
            unpushed: self.unpushed,
            cluster_context: text_of(self.cluster_context),
            cluster_namespace: text_of(self.cluster_namespace),
            cloud_profile: text_of(self.cloud_profile),
            cloud_region: text_of(self.cloud_region),
            exit_code: self.exit_code,
        }
    }
}

/// One render in progress: the stage reached and what is known so far.
pub struct Session {
    pub stage: Stage,
    pub context: PromptContext,
}

/// The model of a `Session`.
pub ghost struct SessionView {
    pub stage: Stage,
    pub context: PromptView,
}

impl View for Session {
    type V = SessionView;

    open spec fn view(&self) -> SessionView {
        SessionView { stage: self.stage, context: self.context@ }
    }
}

/// The queries of the wave that a stage runs, in the order in which their
/// outcomes are handed back.
pub open spec fn wave_of(stage: Stage) -> Seq<Query> {
    match stage {
        Stage::Probe => seq![Query::InsideWorkTree],
        Stage::Gather { in_repository } => if in_repository {
            seq![
                Query::CurrentBranch,
                Query::ShortCommit,
                Query::TagAtHead,
                Query::WorktreeDiff,
                Query::IndexDiff,
                Query::UpstreamLog,
                Query::ClusterContext,
                Query::ClusterNamespace,
            ]
        } else {
            seq![Query::ClusterContext, Query::ClusterNamespace]
        },
        Stage::Follow { list_untracked, compare_hashes } => (if list_untracked {
            seq![Query::UntrackedFiles]
        } else {
            Seq::empty()
        }) + (if compare_hashes {
            seq![Query::HeadHash, Query::UpstreamHash]
        } else {
            Seq::empty()
        }),
        Stage::Finished => Seq::empty(),
    }
}

/// What is known at each stage: before the second wave nothing of the
/// repository; while classifiers are open, exactly the open ones are absent.
pub open spec fn session_wf(s: SessionView) -> bool {
    match s.stage {
        Stage::Probe | Stage::Gather { .. } => {
            &&& s.context.identity is None
            &&& s.context.unstaged is None
            &&& s.context.unpushed is None
        },
        Stage::Follow { list_untracked, compare_hashes } => {
            &&& list_untracked <==> s.context.unstaged is None
            &&& compare_hashes <==> s.context.unpushed is None
            &&& (list_untracked || compare_hashes)
        },
        Stage::Finished => true,
    }
}

/// The session after the outcomes of its current wave.
pub open spec fn step(s: SessionView, outcomes: Seq<QueryOutcome>) -> SessionView {
    let c = s.context;
    match s.stage {
        Stage::Probe => SessionView {
            stage: Stage::Gather { in_repository: repository_detected(outcomes[0]) },
            context: c,
        },
        Stage::Gather { in_repository } => if in_repository {
            let unstaged = unstaged_by_diffs(outcomes[3], outcomes[4]);
            let unpushed = unpushed_by_log(outcomes[5]);
            SessionView {
                stage: if unstaged is None || unpushed is None {
                    Stage::Follow {
                        list_untracked: unstaged is None,
                        compare_hashes: unpushed is None,
                    }
                } else {
                    Stage::Finished
                },
                context: PromptView {
                    identity: best_name(
                        query_value(outcomes[0]),
                        query_value(outcomes[1]),
                        query_value(outcomes[2]),
                    ),
                    unstaged: unstaged,
                    unpushed: unpushed,
                    cluster_context: query_value(outcomes[6]),
                    cluster_namespace: query_value(outcomes[7]),
                    ..c
                },
            }
        } else {
            SessionView {
                stage: Stage::Finished,
                context: PromptView {
                    cluster_context: query_value(outcomes[0]),
                    cluster_namespace: query_value(outcomes[1]),
                    ..c
                },
            }
        },
        Stage::Follow { list_untracked, compare_hashes } => {
            let k: int = if list_untracked {
                1
            } else {
                0
            };
            SessionView {
                stage: Stage::Finished,
                context: PromptView {
                    unstaged: if list_untracked {
                        Some(unstaged_by_listing(outcomes[0]))
                    } else {
                        c.unstaged
                    },
                    unpushed: if compare_hashes {
                        Some(unpushed_by_hashes(outcomes[k], outcomes[k + 1]))
                    } else {
                        c.unpushed
                    },
                    ..c
                },
            }
        },
        Stage::Finished => s,
    }
}

impl Session {
    /// A session that has run nothing yet, holding the values that come
    /// from the caller rather than from a query.
    pub fn new(
        directory: String,
        message: Option<String>,
        exit_code: u8,
        cloud_profile: Option<String>,
        cloud_region: Option<String>,
    ) -> (r: Session)
        ensures
            r.stage == Stage::Probe,
            r@.context == (PromptView {
                directory: directory@,
                message: text_of(message),
                identity: None,
                unstaged: None,
                unpushed: None,
                cluster_context: None,
                cluster_namespace: None,
                cloud_profile: text_of(cloud_profile),
                cloud_region: text_of(cloud_region),
                exit_code: exit_code,
            }),
            session_wf(r@),
    {
        Session {
            stage: Stage::Probe,
            context: PromptContext {
                directory,
                message,
                identity: None,
                unstaged: None,
                unpushed: None,
                cluster_context: None,
                cluster_namespace: None,
                cloud_profile,
                cloud_region,
                exit_code,
            },
        }
    }

    /// Whether every field is known.
    pub fn is_finished(&self) -> (r: bool)
        ensures
            r == (self.stage is Finished),
    {
        match self.stage {
            Stage::Finished => true,
            _ => false,
        }
    }

    /// The queries to run now, all at once; empty once finished.
    pub fn pending(&self) -> (r: Vec<Query>)
        ensures
            r@ == wave_of(self.stage),
    {
        let r = match self.stage {
            Stage::Probe => vec![Query::InsideWorkTree],
            Stage::Gather { in_repository } => if in_repository {
                vec![
                    Query::CurrentBranch,
                    Query::ShortCommit,
                    Query::TagAtHead,
                    Query::WorktreeDiff,
                    Query::IndexDiff,
                    Query::UpstreamLog,
                    Query::ClusterContext,
                    Query::ClusterNamespace,
                ]
            } else {
                vec![Query::ClusterContext, Query::ClusterNamespace]
            },
            Stage::Follow { list_untracked, compare_hashes } => {
                let mut v: Vec<Query> = Vec::new();
                if list_untracked {
                    v.push(Query::UntrackedFiles);
                }
                if compare_hashes {
                    v.push(Query::HeadHash);
                    v.push(Query::UpstreamHash);
                }
                v
            },
            Stage::Finished => Vec::new(),
        };
        assert(r@ =~= wave_of(self.stage));
        r
    }

    /// Takes in the outcomes of the pending queries, in their order, and
    /// moves on to the next stage.
    pub fn advance(&mut self, outcomes: Vec<QueryOutcome>)
        requires
            session_wf(old(self)@),
            !(old(self).stage is Finished),
            outcomes.len() == wave_of(old(self).stage).len(),
        ensures
            final(self)@ == step(old(self)@, outcomes@),
            session_wf(final(self)@),
    {
        match self.stage {
            Stage::Probe => {
                self.stage = Stage::Gather { in_repository: is_in_git_repository(&outcomes[0]) };
            },
            Stage::Gather { in_repository } => {
                if in_repository {
                    let branch = parse_output(&outcomes[0]);
                    let commit = parse_output(&outcomes[1]);
                    let tag = parse_output(&outcomes[2]);
                    self.context.identity = get_best_git_name(branch, commit, tag);
                    let unstaged = unstaged_after_diffs(&outcomes[3], &outcomes[4]);
                    let unpushed = unpushed_after_log(&outcomes[5]);
                    self.context.unstaged = unstaged;
                    self.context.unpushed = unpushed;
                    self.context.cluster_context = parse_output(&outcomes[6]);
                    self.context.cluster_namespace = parse_output(&outcomes[7]);
                    if unstaged.is_none() || unpushed.is_none() {
                        self.stage = Stage::Follow {
                            list_untracked: unstaged.is_none(),
                            compare_hashes: unpushed.is_none(),
                        };
                    } else {
                        self.stage = Stage::Finished;
                    }
                } else {
                    self.context.cluster_context = parse_output(&outcomes[0]);
                    self.context.cluster_namespace = parse_output(&outcomes[1]);
                    self.stage = Stage::Finished;
                }
            },
            Stage::Follow { list_untracked, compare_hashes } => {
                let mut k: usize = 0;
                if list_untracked {
                    self.context.unstaged = Some(unstaged_after_listing(&outcomes[0]));
                    k = 1;
                }
                if compare_hashes {
                    self.context.unpushed = Some(
                        unpushed_after_hashes(&outcomes[k], &outcomes[k + 1]),
                    );
                }
                self.stage = Stage::Finished;
            },
            Stage::Finished => {},
        }
    }

    /// The record that the session has filled.
    pub fn into_context(self) -> (r: PromptContext)
        ensures
            r@ == self@.context,
    {
        self.context
    }
}

/// What a field of the prompt line shows; the renderer styles each kind.
#[derive(Clone, Copy, PartialEq, Eq, Structural, Debug)]
pub enum FieldKind {
    Directory,
    Message,
    Identity,
    ClusterContext,
    ClusterNamespace,
    CloudProfile,
    CloudRegion,
}

/// One shown field of the prompt line.
pub struct Field {
    pub kind: FieldKind,
    pub text: String,
}

/// The variant in which a status indicator is shown.
#[derive(Clone, Copy, PartialEq, Eq, Structural, Debug)]
pub enum Tone {
    /// Success, a clean work tree, a branch in sync.
    Good,
    /// A failed command.
    Bad,
    /// Changed files, commits not pushed.
    Warning,
    /// Untracked files, commits not pulled.
    Notice,
    /// No upstream branch.
    Muted,
    /// Nothing to tell: outside a repository.
    Neutral,
}

/// The model of a field.
pub open spec fn field_view(f: Field) -> (FieldKind, Seq<char>) {
    (f.kind, f.text@)
}

/// A field of the given kind when the value is present, none otherwise.
pub open spec fn optional_field(kind: FieldKind, value: Option<Seq<char>>) -> Seq<(FieldKind, Seq<char>)> {
    match value {
        Some(t) => seq![(kind, t)],
        None => Seq::empty(),
    }
}

/// The fields of the prompt line in their fixed order, absent values left out.
pub open spec fn fields_of(c: PromptView) -> Seq<(FieldKind, Seq<char>)> {
    seq![(FieldKind::Directory, c.directory)] + optional_field(FieldKind::Message, c.message)
        + optional_field(FieldKind::Identity, c.identity) + optional_field(
        FieldKind::ClusterContext,
        c.cluster_context,
    ) + optional_field(FieldKind::ClusterNamespace, c.cluster_namespace) + optional_field(
        FieldKind::CloudProfile,
        c.cloud_profile,
    ) + optional_field(FieldKind::CloudRegion, c.cloud_region)
}

pub open spec fn exit_tone(exit_code: u8) -> Tone {
    if exit_code == 0 {
        Tone::Good
    } else {
        Tone::Bad
    }
}

pub open spec fn unstaged_tone(state: Option<UnstagedChanges>) -> Tone {
    match state {
        Some(UnstagedChanges::Clean) => Tone::Good,
        Some(UnstagedChanges::FilesChanged) => Tone::Warning,
        Some(UnstagedChanges::FilesUntracked) => Tone::Notice,
        None => Tone::Neutral,
    }
}

pub open spec fn unpushed_tone(state: Option<UnpushedChanges>) -> Tone {
    match state {
        Some(UnpushedChanges::Synced) => Tone::Good,
        Some(UnpushedChanges::Ahead) => Tone::Warning,
        Some(UnpushedChanges::Behind) => Tone::Notice,
        Some(UnpushedChanges::NoUpstream) => Tone::Muted,
        None => Tone::Neutral,
    }
}

/// The three status indicators: the previous command, the work tree, the branch.
pub open spec fn tones_of(c: PromptView) -> (Tone, Tone, Tone) {
    (exit_tone(c.exit_code), unstaged_tone(c.unstaged), unpushed_tone(c.unpushed))
}

fn push_field(out: &mut Vec<Field>, kind: FieldKind, value: &Option<String>)
    ensures
        final(out)@.map_values(|f: Field| field_view(f)) == old(out)@.map_values(
            |f: Field| field_view(f),
        ) + optional_field(kind, text_of(*value)),
{
    match value {
        Some(t) => {
            out.push(Field { kind, text: t.clone() });
        },
        None => {},
    }
    assert(final(out)@.map_values(|f: Field| field_view(f)) =~= old(out)@.map_values(
        |f: Field| field_view(f),
    ) + optional_field(kind, text_of(*value)));
}

impl PromptContext {
    /// The fields of the prompt line, in order: directory, message, revision
    /// name, cluster context, namespace, cloud profile, cloud region; absent
    /// values are skipped.
    pub fn fields(&self) -> (r: Vec<Field>)
        ensures
            r@.map_values(|f: Field| field_view(f)) == fields_of(self@),
    {
        let mut out: Vec<Field> = Vec::new();
        out.push(Field { kind: FieldKind::Directory, text: self.directory.clone() });
        assert(out@.map_values(|f: Field| field_view(f)) =~= seq![
            (FieldKind::Directory, self.directory@),
        ]);
        push_field(&mut out, FieldKind::Message, &self.message);
        push_field(&mut out, FieldKind::Identity, &self.identity);
        push_field(&mut out, FieldKind::ClusterContext, &self.cluster_context);
        push_field(&mut out, FieldKind::ClusterNamespace, &self.cluster_namespace);
        push_field(&mut out, FieldKind::CloudProfile, &self.cloud_profile);
        push_field(&mut out, FieldKind::CloudRegion, &self.cloud_region);
        out
    }

    /// The status indicators: the previous command succeeded or failed; the
    /// work tree is clean, changed or holds untracked files; the branch is in
    /// sync, ahead, behind or without upstream; neutral outside a repository.
    pub fn indicators(&self) -> (r: (Tone, Tone, Tone))
        ensures
            r == tones_of(self@),
    {
        let exit = if self.exit_code == 0 {
            Tone::Good
        } else {
            Tone::Bad
        };
        let unstaged = match self.unstaged {
            Some(UnstagedChanges::Clean) => Tone::Good,
            Some(UnstagedChanges::FilesChanged) => Tone::Warning,
            Some(UnstagedChanges::FilesUntracked) => Tone::Notice,
            None => Tone::Neutral,
        };
        let unpushed = match self.unpushed {
            Some(UnpushedChanges::Synced) => Tone::Good,
            Some(UnpushedChanges::Ahead) => Tone::Warning,
            Some(UnpushedChanges::Behind) => Tone::Notice,
            Some(UnpushedChanges::NoUpstream) => Tone::Muted,
            None => Tone::Neutral,
        };
        (exit, unstaged, unpushed)
    }
}

/// When the repository probe finds no repository, the only queries that
/// still run are the two cluster queries, after which the session is done:
/// no query of the revision name or of either classifier ever runs, and
/// their fields stay absent.
pub proof fn lemma_outside_repository_skips_version_control(
    s: SessionView,
    probe: QueryOutcome,
    rest: Seq<QueryOutcome>,
)
    requires
        session_wf(s),
        s.stage is Probe,
        !repository_detected(probe),
        rest.len() == 2,
    ensures
        wave_of(step(s, seq![probe]).stage) == seq![
            Query::ClusterContext,
            Query::ClusterNamespace,
        ],
        step(step(s, seq![probe]), rest).stage is Finished,
        wave_of(step(step(s, seq![probe]), rest).stage).len() == 0,
        step(step(s, seq![probe]), rest).context.identity is None,
        step(step(s, seq![probe]), rest).context.unstaged is None,
        step(step(s, seq![probe]), rest).context.unpushed is None,
        step(step(s, seq![probe]), rest).context.cluster_context == query_value(rest[0]),
        step(step(s, seq![probe]), rest).context.cluster_namespace == query_value(rest[1]),
{
}

/// In a repository whose work tree is clean and whose branch `main` is in
/// sync with its upstream, with cluster context `prod`, namespace `default`,
/// cloud profile `dev`, no region, no message and a successful previous
/// command, the line shows the directory, `main`, `prod`, `default` and `dev`,
/// and all three indicators are good.
pub proof fn lemma_clean_synced_render(
    s: SessionView,
    probe: QueryOutcome,
    gathered: Seq<QueryOutcome>,
    followed: Seq<QueryOutcome>,
)
    requires
        session_wf(s),
        s.stage is Probe,
        s.context.message is None,
        s.context.exit_code == 0,
        s.context.cloud_profile == Some("dev"@),
        s.context.cloud_region is None,
        repository_detected(probe),
        gathered.len() == 8,
        query_value(gathered[0]) == Some("main"@),
        query_value(gathered[2]) is None,
        exited_cleanly(gathered[3]),
        exited_cleanly(gathered[4]),
        printed_nothing(gathered[5]),
        query_value(gathered[6]) == Some("prod"@),
        query_value(gathered[7]) == Some("default"@),
        followed.len() == 3,
        printed_nothing(followed[0]),
        query_value(followed[2]) is Some,
        query_value(followed[1]) == query_value(followed[2]),
    ensures
        step(step(step(s, seq![probe]), gathered), followed).stage is Finished,
        fields_of(step(step(step(s, seq![probe]), gathered), followed).context) == seq![
            (FieldKind::Directory, s.context.directory),
            (FieldKind::Identity, "main"@),
            (FieldKind::ClusterContext, "prod"@),
            (FieldKind::ClusterNamespace, "default"@),
            (FieldKind::CloudProfile, "dev"@),
        ],
        tones_of(step(step(step(s, seq![probe]), gathered), followed).context) == (
            Tone::Good,
            Tone::Good,
            Tone::Good,
        ),
{
    let last = step(step(step(s, seq![probe]), gathered), followed).context;
    assert(fields_of(last) =~= seq![
        (FieldKind::Directory, s.context.directory),
        (FieldKind::Identity, "main"@),
        (FieldKind::ClusterContext, "prod"@),
        (FieldKind::ClusterNamespace, "default"@),
        (FieldKind::CloudProfile, "dev"@),
    ]);
}

} // verus!
