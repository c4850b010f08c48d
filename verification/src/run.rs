use vstd::prelude::*;

use crate::backup::BackupEntry;
use crate::git::{
    git_apply_patch, git_branch_delete, git_branch_move_force, git_checkout, git_commit_message,
    git_diff_cached_quiet, git_last_commit_message, git_op_args, git_remote_remove, git_stage_path,
    git_switch_create, CmdOutcome, GitCommand, GitOp,
};
use crate::git_commands::{
    add_remote_branch, checkout_from_remote, fetch_pull_request, merge_pull_request,
    CheckoutError, CheckoutMachine, FetchPrError, FetchPullRequestMachine, MaterializeError,
    MaterializeMachine, MergePrError, MergePullRequestMachine, pr_metadata_url,
};
use crate::pr_fetch::{ignore_octothorpe, octo_stripped};
use crate::types::{BranchAndRemote, Configuration, GitHubResponse};
use crate::utils::{
    concat_pieces, lemma_concat_take_snoc, lemma_split_on_len, split_on, split_str, texts_equal,
    with_uuid,
};

verus! {

/// Parses user input of the form `(<anything>)+ <syntax> <commit-hash>`:
/// the input with every occurrence of the separator removed is returned
/// together with what followed the last separator, or alone when no
/// separator occurs.
pub fn parse_if_maybe_hash(input: &str, syntax: &str) -> (r: (String, Option<String>))
    requires
        syntax@.len() >= 1,
    ensures
        ({
            let parts = split_on(input@, syntax@);
            &&& parts.len() == 1 ==> r.0@ == input@ && r.1 is None
            &&& parts.len() > 1 ==> ({
                &&& r.0@ == concat_pieces(parts.drop_last())
                &&& r.1 matches Some(h) && h@ == parts.last()
            })
        }),
{
    let parts = split_str(input, syntax);
    proof {
        lemma_split_on_len(input@, syntax@);
    }
    let len = parts.len();
    if len == 1 {
        (input.to_owned(), None)
    } else {
        let ghost dv = parts.deep_view();
        let mut output = String::new();
        assert(dv.take(0) =~= Seq::<Seq<char>>::empty());
        let mut i: usize = 0;
        while i < len - 1
            invariant
                dv == parts.deep_view(),
                len == parts.len(),
                len == dv.len(),
                len >= 2,
                0 <= i <= len - 1,
                output@ == concat_pieces(dv.take(i as int)),
            decreases len - 1 - i,
        {
            output.append(parts[i].as_str());
            proof {
                lemma_concat_take_snoc(dv, i as int);
            }
            i = i + 1;
        }
        assert(dv.take((len - 1) as int) =~= dv.drop_last());
        let hash = parts[len - 1].clone();
        (output, Some(hash))
    }
}


/// The pull-request number carried by one configuration token: the token
/// without its optional `#`, and without a trailing `@<commit>` pin.
pub open spec fn pr_token_number(token: Seq<char>) -> Seq<char> {
    let t = octo_stripped(token);
    let parts = split_on(t, "@"@);
    if parts.len() == 1 {
        t
    } else {
        concat_pieces(parts.drop_last())
    }
}

/// The commit pin carried by one configuration token, if it has one.
pub open spec fn pr_token_hash(token: Seq<char>) -> Option<Seq<char>> {
    let t = octo_stripped(token);
    let parts = split_on(t, "@"@);
    if parts.len() == 1 {
        None
    } else {
        Some(parts.last())
    }
}

/// The name of a restored file without its `.patch` ending; a shorter name
/// yields nothing, as nothing can match it.
pub open spec fn patch_stem(name: Seq<char>) -> Seq<char> {
    if name.len() >= 6 {
        name.take(name.len() - 6)
    } else {
        Seq::<char>::empty()
    }
}

/// The name of a restored file without its `.patch` ending.
pub fn patch_stem_exec(name: &str) -> (r: String)
    ensures
        r@ == patch_stem(name@),
{
    let n = name.unicode_len();
    if n >= 6 {
        String::from_str(name.substring_char(0, n - 6))
    } else {
        String::new()
    }
}

/// Whether one of the names equals `name`.
pub fn contains_name(names: &Vec<String>, name: &str) -> (r: bool)
    ensures
        r == names.deep_view().contains(name@),
{
    let n = names.len();
    let mut i: usize = 0;
    while i < n
        invariant
            n == names.len(),
            0 <= i <= n,
            forall|j: int| 0 <= j < i ==> names.deep_view()[j] != name@,
        decreases n - i,
    {
        if texts_equal(names[i].as_str(), name) {
            assert(names.deep_view()[i as int] == name@);
            return true;
        }
        i = i + 1;
    }
    assert(!names.deep_view().contains(name@));
    false
}

/// What the orchestrated run asks its driver to do next. Composite actions
/// hand over a started machine: the driver pumps it with command outcomes
/// and reports only its final result back.
pub enum RunAction {
    /// Read the configuration directory and capture every regular file.
    Snapshot,
    /// Drive this fetch of the upstream branch, starting with this command.
    Materialize(MaterializeMachine, GitCommand),
    /// Drive this checkout of the fetched upstream branch.
    Checkout(CheckoutMachine, GitCommand),
    /// Drive this pull-request resolution, starting with this metadata URL.
    FetchPr(FetchPullRequestMachine, String),
    /// Drive this merge of a fetched pull request.
    MergePr(MergePullRequestMachine, GitCommand),
    /// Run one command and report its outcome.
    Git(GitCommand),
    /// Recreate the configuration directory.
    CreateDir,
    /// Write one captured file back into the configuration directory.
    WriteFile { file_name: String, contents: String },
    /// Ask the user the given yes-or-no question.
    Confirm { prompt: String },
    /// The run is over.
    Finished(Result<(), RunError>),
}

/// What the driver answers with.
pub enum RunEvent {
    SnapshotDone(Result<Vec<BackupEntry>, String>),
    Materialized(Result<(), MaterializeError>),
    CheckedOut(Result<String, CheckoutError>),
    PrFetched(Result<(GitHubResponse, BranchAndRemote), FetchPrError>),
    PrMerged(Result<(), MergePrError>),
    Cmd(CmdOutcome),
    DirCreated(bool),
    FileWritten(bool),
    Answer(bool),
}

/// Why the run ended without renaming the temporary branch onto the target.
#[derive(Debug)]
pub enum RunError {
    /// The configuration names no repository.
    EmptyRepo,
    /// The configuration directory could not be captured; nothing was done.
    BackupFailed { detail: String },
    /// The upstream branch could not be fetched; fatal before any pull
    /// request is touched.
    UpstreamFetch { fetch_err: MaterializeError },
    /// The upstream branch could not be checked out; fatal.
    UpstreamCheckout { checkout_err: CheckoutError },
    /// The configuration directory could not be recreated; the previous
    /// branch was checked out again and the upstream remote and branch
    /// retired before this was reported.
    DirCreateFailed,
    /// A captured file could not be written back; fatal, because a missing
    /// configuration file could silently disable a patch. The previous
    /// branch was checked out again and the upstream ephemera retired
    /// before this was reported.
    RestoreFailed { file_name: String },
    /// A command none of the recoverable policies covers failed. Where the
    /// upstream ephemera still existed, the previous branch was checked out
    /// again and both were retired before this was reported.
    CommandFailed { stderr: String },
    /// Retiring the upstream remote or branch failed; both were attempted.
    CleanupFailed { stderr: String },
    /// The user declined the final overwrite; the temporary branch is left
    /// standing and nothing further is run.
    Declined { temporary_branch: String, local_branch: String },
}

/// Where the orchestrated run stands.
pub enum RunState {
    TakingSnapshot,
    FetchingUpstream,
    CheckingOutUpstream,
    FetchingPr { idx: usize },
    MergingPr { idx: usize, alias: String, branch: String },
    PrCleanupDeleting { idx: usize, alias: String, branch: String },
    PrCleanupRemoving { idx: usize, alias: String },
    UpstreamFailDeleting { err: MaterializeError },
    UpstreamFailRemoving { err: MaterializeError },
    CreatingDir,
    RollbackCheckingOut { pending: RunError },
    RollbackDeleting { pending: RunError },
    RollbackRemoving { pending: RunError },
    RestoringFile { idx: usize },
    ApplyingPatch { idx: usize },
    ReadingPatchMessage { idx: usize },
    StagingConfig,
    CheckingRestoreStaged,
    CommittingRestore,
    SwitchingToTemp,
    CleanupDeleting,
    CleanupRemoving { prior_fail: bool, stderr: String },
    Confirming,
    Renaming,
    Complete,
}

/// Drives one whole run: fetch the configured upstream branch into a fresh
/// working branch, merge each configured pull request in order (a failed one
/// is reported, its leftovers retired, and the run continues), recreate the
/// configuration directory, write the captured files back, apply the named
/// patches, commit the restored files when anything is staged (an unchanged
/// tree is not an error), retire the upstream ephemera, and finally — only with
/// the user's consent — force-rename the temporary branch onto the
/// configured target.
pub struct RunMachine {
    pub config: Configuration,
    pub config_dir: String,
    pub has_yes_flag: bool,
    pub remote_branch: String,
    pub commit_hash: Option<String>,
    pub info: BranchAndRemote,
    pub previous_branch: String,
    pub backups: Vec<BackupEntry>,
    pub temporary_branch: String,
    pub state: RunState,
}

impl RunMachine {
    /// The indices a state carries stay within their lists.
    pub open spec fn inv(self) -> bool {
        &&& self.state matches RunState::FetchingPr { idx } ==> idx
            < self.config.pull_requests@.len()
        &&& self.state matches RunState::MergingPr { idx, .. } ==> idx
            < self.config.pull_requests@.len()
        &&& self.state matches RunState::PrCleanupDeleting { idx, .. } ==> idx
            < self.config.pull_requests@.len()
        &&& self.state matches RunState::PrCleanupRemoving { idx, .. } ==> idx
            < self.config.pull_requests@.len()
        &&& self.state matches RunState::RestoringFile { idx } ==> idx < self.backups@.len()
        &&& self.state matches RunState::ApplyingPatch { idx } ==> idx < self.backups@.len()
        &&& self.state matches RunState::ReadingPatchMessage { idx } ==> idx < self.backups@.len()
    }

    /// Which kind of answer each state waits for.
    pub open spec fn expects(self, event: RunEvent) -> bool {
        match self.state {
            RunState::TakingSnapshot => event is SnapshotDone,
            RunState::FetchingUpstream => event is Materialized,
            RunState::CheckingOutUpstream => event is CheckedOut,
            RunState::FetchingPr { .. } => event is PrFetched,
            RunState::MergingPr { .. } => event is PrMerged,
            RunState::PrCleanupDeleting { .. } => event is Cmd,
            RunState::PrCleanupRemoving { .. } => event is Cmd,
            RunState::UpstreamFailDeleting { .. } => event is Cmd,
            RunState::UpstreamFailRemoving { .. } => event is Cmd,
            RunState::CreatingDir => event is DirCreated,
            RunState::RollbackCheckingOut { .. } => event is Cmd,
            RunState::RollbackDeleting { .. } => event is Cmd,
            RunState::RollbackRemoving { .. } => event is Cmd,
            RunState::RestoringFile { .. } => event is FileWritten,
            RunState::ApplyingPatch { .. } => event is Cmd,
            RunState::ReadingPatchMessage { .. } => event is Cmd,
            RunState::StagingConfig => event is Cmd,
            RunState::CheckingRestoreStaged => event is Cmd,
            RunState::CommittingRestore => event is Cmd,
            RunState::SwitchingToTemp => event is Cmd,
            RunState::CleanupDeleting => event is Cmd,
            RunState::CleanupRemoving { .. } => event is Cmd,
            RunState::Confirming => event is Answer,
            RunState::Renaming => event is Cmd,
            RunState::Complete => false,
        }
    }

    /// The configured token of the pull request at `idx`.
    pub open spec fn pr_token(self, idx: int) -> Seq<char> {
        self.config.pull_requests@[idx]@
    }

    /// The action that turns to the pull request at `idx`: its metadata is
    /// requested, with the number and pin parsed out of its token.
    pub open spec fn pr_fetch_action(self, idx: int, r: RunAction) -> bool {
        &&& self.state matches RunState::FetchingPr { idx: i } && i == idx
        &&& r matches RunAction::FetchPr(fm, url) && ({
            let token = self.pr_token(idx);
            &&& fm.repo@ == self.config.repo@
            &&& fm.pull_request@ == pr_token_number(token)
            &&& (fm.commit_hash is Some <==> pr_token_hash(token) is Some)
            &&& fm.commit_hash matches Some(h) ==> h@ == pr_token_hash(token)->Some_0
            &&& fm.custom_branch_name is None
            &&& fm.state is RequestingMetadata
            &&& fm.inv()
            &&& url@ == pr_metadata_url(self.config.repo@, pr_token_number(token))
        })
    }

    /// Done with the pull request at `idx`: turn to the next one, or to the
    /// recreation of the configuration directory when none is left.
    pub open spec fn pr_advance(self, next: int, r: RunAction) -> bool {
        if next < self.config.pull_requests@.len() {
            self.pr_fetch_action(next, r)
        } else {
            self.state is CreatingDir && r is CreateDir
        }
    }

    /// The action that restores the captured file at `idx`.
    pub open spec fn restore_action(self, idx: int, r: RunAction) -> bool {
        &&& self.state matches RunState::RestoringFile { idx: i } && i == idx
        &&& r matches RunAction::WriteFile { file_name, contents } && file_name@
            == self.backups@[idx].file_name@ && contents@ == self.backups@[idx].contents@
    }

    /// Done with the captured file at `idx`: turn to the next one, or to
    /// staging the restored directory when none is left.
    pub open spec fn restore_advance(self, next: int, r: RunAction) -> bool {
        if next < self.backups@.len() {
            self.restore_action(next, r)
        } else {
            self.state is StagingConfig && (r matches RunAction::Git(c) && c@ == git_op_args(
                GitOp::StagePath { path: ".patchy"@ },
            ))
        }
    }

    /// Everything the run was configured with stays as it was.
    pub open spec fn same_setup(self, other: Self) -> bool {
        &&& self.config == other.config
        &&& self.config_dir@ == other.config_dir@
        &&& self.has_yes_flag == other.has_yes_flag
        &&& self.remote_branch@ == other.remote_branch@
        &&& self.commit_hash == other.commit_hash
    }

    /// Turns to the pull request at `next`, or onward when none is left.
    fn next_pr(&mut self, next: usize) -> (r: RunAction)
        requires
            next <= old(self).config.pull_requests@.len(),
        ensures
            final(self).same_setup(*old(self)),
            final(self).info == old(self).info,
            final(self).previous_branch == old(self).previous_branch,
            final(self).backups == old(self).backups,
            final(self).temporary_branch == old(self).temporary_branch,
            final(self).inv(),
            final(self).pr_advance(next as int, r),
    {
        if next < self.config.pull_requests.len() {
            proof {
                reveal_strlit("@");
            }
            let token = self.config.pull_requests[next].as_str();
            let stripped = ignore_octothorpe(token);
            let (number, hash) = parse_if_maybe_hash(stripped.as_str(), "@");
            let (fm, url) = fetch_pull_request(
                self.config.repo.as_str(),
                number.as_str(),
                None,
                &hash,
            );
            self.state = RunState::FetchingPr { idx: next };
            RunAction::FetchPr(fm, url)
        } else {
            self.state = RunState::CreatingDir;
            RunAction::CreateDir
        }
    }

    /// Turns to the captured file at `next`, or onward when none is left.
    fn next_restore(&mut self, next: usize) -> (r: RunAction)
        requires
            next <= old(self).backups@.len(),
        ensures
            final(self).same_setup(*old(self)),
            final(self).info == old(self).info,
            final(self).previous_branch == old(self).previous_branch,
            final(self).backups == old(self).backups,
            final(self).temporary_branch == old(self).temporary_branch,
            final(self).inv(),
            final(self).restore_advance(next as int, r),
    {
        if next < self.backups.len() {
            let file_name = self.backups[next].file_name.clone();
            let contents = self.backups[next].contents.clone();
            self.state = RunState::RestoringFile { idx: next };
            RunAction::WriteFile { file_name, contents }
        } else {
            self.state = RunState::StagingConfig;
            RunAction::Git(git_stage_path(".patchy"))
        }
    }
}

impl RunMachine {
    /// Feeds one answer in, and yields the next action. Each state asks for
    /// exactly one kind of answer; the contract pins every policy: a fatal
    /// upstream failure rolls its ephemera back and aborts, a failed pull
    /// request has its leftovers retired and the run continues with the
    /// next, any fatal failure after the destructive checkout first restores
    /// the previous branch and retires the upstream ephemera, and a declined
    /// confirmation ends the run with the temporary branch left standing.
    pub fn step(&mut self, event: RunEvent) -> (r: RunAction)
        requires
            old(self).inv(),
            !(old(self).state is Complete),
            old(self).expects(event),
        ensures
            final(self).inv(),
            final(self).same_setup(*old(self)),
            !(event is SnapshotDone) ==> (final(self).info == old(self).info && final(self).backups
                == old(self).backups),
            !(event is CheckedOut) ==> final(self).previous_branch == old(self).previous_branch,
            !(old(self).state is CommittingRestore || old(self).state is CheckingRestoreStaged)
                ==> final(self).temporary_branch == old(self).temporary_branch,
            event matches RunEvent::SnapshotDone(res) ==> ({
                &&& res matches Err(detail) ==> (final(self).state is Complete && (
                r matches RunAction::Finished(Err(RunError::BackupFailed { detail: d })) && d@
                    == detail@))
                &&& res matches Ok(entries) ==> ({
                    &&& final(self).backups == entries
                    &&& final(self).state is FetchingUpstream
                    &&& final(self).info.branch.upstream_branch_name@ == old(self).remote_branch@
                    &&& final(self).info.branch.local_branch_name@.len() == old(self).remote_branch@.len() + 5
                    &&& final(self).info.branch.local_branch_name@.skip(5) == old(self).remote_branch@
                    &&& final(self).info.remote.local_remote_alias@.len() == old(self).config.repo@.len() + 5
                    &&& final(self).info.remote.local_remote_alias@.skip(5) == old(self).config.repo@
                    &&& final(self).info.remote.repository_url@ == "https://github.com/"@ + old(self).config.repo@ + ".git"@
                    &&& r matches RunAction::Materialize(mat, c) && ({
                        &&& mat.inv()
                        &&& mat.state is AddingRemote
                        &&& mat.alias@ == final(self).info.remote.local_remote_alias@
                        &&& mat.url@ == final(self).info.remote.repository_url@
                        &&& mat.upstream@ == old(self).remote_branch@
                        &&& mat.local@ == final(self).info.branch.local_branch_name@
                        &&& mat.commit_pin == old(self).commit_hash
                        &&& c@ == git_op_args(
                            GitOp::RemoteAdd { alias: mat.alias@, url: mat.url@ },
                        )
                    })
                })
            }),
            event matches RunEvent::Materialized(res) ==> ({
                &&& res is Ok ==> ({
                    &&& final(self).state is CheckingOutUpstream
                    &&& final(self).info == old(self).info
                    &&& r matches RunAction::Checkout(cm, c) && ({
                        &&& cm.state is QueryingCurrent
                        &&& cm.branch@ == old(self).info.branch.local_branch_name@
                        &&& cm.remote@ == old(self).info.remote.local_remote_alias@
                        &&& c@ == git_op_args(GitOp::CurrentBranchName)
                    })
                })
                &&& res matches Err(e) ==> ({
                    &&& final(self).state matches RunState::UpstreamFailDeleting { err } && err
                        == e
                    &&& r matches RunAction::Git(c) && c@ == git_op_args(
                        GitOp::BranchDelete { branch: old(self).info.branch.local_branch_name@ },
                    )
                })
            }),
            old(self).state matches RunState::UpstreamFailDeleting { err } ==> ({
                &&& final(self).state matches RunState::UpstreamFailRemoving { err: e2 } && e2
                    == err
                &&& r matches RunAction::Git(c) && c@ == git_op_args(
                    GitOp::RemoteRemove { alias: old(self).info.remote.local_remote_alias@ },
                )
            }),
            old(self).state matches RunState::UpstreamFailRemoving { err } ==> ({
                &&& final(self).state is Complete
                &&& r matches RunAction::Finished(Err(RunError::UpstreamFetch { fetch_err }))
                    && fetch_err == err
            }),
            event matches RunEvent::CheckedOut(res) ==> ({
                &&& res matches Ok(prev) ==> ({
                    &&& final(self).previous_branch@ == prev@
                    &&& final(self).info == old(self).info
                    &&& final(self).backups == old(self).backups
                    &&& final(self).pr_advance(0, r)
                })
                &&& res matches Err(e) ==> ({
                    &&& final(self).state is Complete
                    &&& r matches RunAction::Finished(Err(
                        RunError::UpstreamCheckout { checkout_err },
                    )) && checkout_err == e
                })
            }),
            old(self).state matches RunState::FetchingPr { idx } ==> (
            event matches RunEvent::PrFetched(res) ==> ({
                &&& res matches Ok(pair) ==> ({
                    &&& final(self).state matches RunState::MergingPr {
                        idx: i,
                        alias,
                        branch,
                    } && i == idx && alias@ == pair.1.remote.local_remote_alias@ && branch@
                        == pair.1.branch.local_branch_name@
                    &&& final(self).info == old(self).info
                    &&& final(self).backups == old(self).backups
                    &&& final(self).previous_branch == old(self).previous_branch
                    &&& r matches RunAction::MergePr(mm, c) && ({
                        &&& mm.state is Squashing
                        &&& mm.local_branch@ == pair.1.branch.local_branch_name@
                        &&& mm.upstream_branch@ == pair.1.branch.upstream_branch_name@
                        &&& mm.alias@ == pair.1.remote.local_remote_alias@
                        &&& mm.pull_request@ == pr_token_number(old(self).pr_token(idx as int))
                        &&& mm.title@ == pair.0.title@
                        &&& mm.url@ == pair.0.html_url@
                        &&& c@ == git_op_args(
                            GitOp::MergeSquash { branch: pair.1.branch.local_branch_name@ },
                        )
                    })
                })
                &&& res matches Err(e) ==> ({
                    &&& e matches FetchPrError::AddRemote { alias, local_branch, .. } ==> ({
                        &&& final(self).state matches RunState::PrCleanupDeleting {
                            idx: i,
                            alias: a,
                            branch: b,
                        } && i == idx && a@ == alias@ && b@ == local_branch@
                        &&& r matches RunAction::Git(c) && c@ == git_op_args(
                            GitOp::BranchDelete { branch: local_branch@ },
                        )
                    })
                    &&& !(e is AddRemote) ==> final(self).pr_advance(idx + 1, r)
                })
            })),
            old(self).state matches RunState::MergingPr { idx, alias, branch } ==> (
            event matches RunEvent::PrMerged(res) ==> ({
                &&& res is Ok ==> final(self).pr_advance(idx + 1, r)
                &&& res is Err ==> ({
                    &&& final(self).state matches RunState::PrCleanupDeleting {
                        idx: i,
                        alias: a,
                        branch: b,
                    } && i == idx && a@ == alias@ && b@ == branch@
                    &&& r matches RunAction::Git(c) && c@ == git_op_args(
                        GitOp::BranchDelete { branch: branch@ },
                    )
                })
            })),
            old(self).state matches RunState::PrCleanupDeleting { idx, alias, branch } ==> ({
                &&& final(self).state matches RunState::PrCleanupRemoving { idx: i, alias: a }
                    && i == idx && a@ == alias@
                &&& r matches RunAction::Git(c) && c@ == git_op_args(
                    GitOp::RemoteRemove { alias: alias@ },
                )
            }),
            old(self).state matches RunState::PrCleanupRemoving { idx, alias } ==> final(self).pr_advance(idx + 1, r),
            event matches RunEvent::DirCreated(ok) ==> ({
                &&& ok ==> final(self).restore_advance(0, r)
                &&& !ok ==> ({
                    &&& final(self).state matches RunState::RollbackCheckingOut { pending }
                        && pending == RunError::DirCreateFailed
                    &&& r matches RunAction::Git(c) && c@ == git_op_args(
                        GitOp::CheckoutBranch { branch: old(self).previous_branch@ },
                    )
                })
            }),
            old(self).state matches RunState::RollbackCheckingOut { pending } ==> ({
                &&& final(self).state matches RunState::RollbackDeleting { pending: e2 } && e2
                    == pending
                &&& r matches RunAction::Git(c) && c@ == git_op_args(
                    GitOp::BranchDelete { branch: old(self).info.branch.local_branch_name@ },
                )
            }),
            old(self).state matches RunState::RollbackDeleting { pending } ==> ({
                &&& final(self).state matches RunState::RollbackRemoving { pending: e2 } && e2
                    == pending
                &&& r matches RunAction::Git(c) && c@ == git_op_args(
                    GitOp::RemoteRemove { alias: old(self).info.remote.local_remote_alias@ },
                )
            }),
            old(self).state matches RunState::RollbackRemoving { pending } ==> ({
                &&& final(self).state is Complete
                &&& r matches RunAction::Finished(Err(e)) && e == pending
            }),
            old(self).state matches RunState::RestoringFile { idx } ==> (
            event matches RunEvent::FileWritten(ok) ==> ({
                &&& !ok ==> ({
                    &&& final(self).state matches RunState::RollbackCheckingOut { pending }
                    &&& pending matches RunError::RestoreFailed { file_name } && file_name@ == old(
                        self,
                    ).backups@[idx as int].file_name@
                    &&& r matches RunAction::Git(c) && c@ == git_op_args(
                        GitOp::CheckoutBranch { branch: old(self).previous_branch@ },
                    )
                })
                &&& ok ==> ({
                    let stem = patch_stem(old(self).backups@[idx as int].file_name@);
                    &&& old(self).config.patches matches Some(ps) ==> ({
                        &&& ps.deep_view().contains(stem) ==> ({
                            &&& final(self).state matches RunState::ApplyingPatch { idx: i } && i
                                == idx
                            &&& r matches RunAction::Git(c) && c@ == git_op_args(
                                GitOp::ApplyPatchFile {
                                    path: old(self).config_dir@ + "/"@ + stem + ".patch"@,
                                },
                            )
                        })
                        &&& !ps.deep_view().contains(stem) ==> final(self).restore_advance(
                            idx + 1,
                            r,
                        )
                    })
                    &&& old(self).config.patches is None ==> final(self).restore_advance(
                        idx + 1,
                        r,
                    )
                })
            })),
            old(self).state matches RunState::ApplyingPatch { idx } ==> (
            event matches RunEvent::Cmd(o) ==> ({
                &&& o.ok ==> ({
                    &&& final(self).state matches RunState::ReadingPatchMessage { idx: i } && i
                        == idx
                    &&& r matches RunAction::Git(c) && c@ == git_op_args(GitOp::LastCommitMessage)
                })
                &&& !o.ok ==> final(self).restore_advance(idx + 1, r)
            })),
            old(self).state matches RunState::ReadingPatchMessage { idx } ==> final(self).restore_advance(idx + 1, r),
            old(self).state is StagingConfig ==> (
            event matches RunEvent::Cmd(o) ==> ({
                &&& o.ok ==> ({
                    &&& final(self).state is CheckingRestoreStaged
                    &&& r matches RunAction::Git(c) && c@ == git_op_args(GitOp::DiffCachedQuiet)
                })
                &&& !o.ok ==> ({
                    &&& final(self).state matches RunState::RollbackCheckingOut { pending }
                    &&& pending matches RunError::CommandFailed { stderr } && stderr@ == o.stderr@
                    &&& r matches RunAction::Git(c) && c@ == git_op_args(
                        GitOp::CheckoutBranch { branch: old(self).previous_branch@ },
                    )
                })
            })),
            old(self).state is CheckingRestoreStaged ==> (
            event matches RunEvent::Cmd(o) ==> ({
                &&& o.ok ==> ({
                    &&& final(self).state is SwitchingToTemp
                    &&& final(self).temporary_branch@.len() == "temp-branch"@.len() + 5
                    &&& final(self).temporary_branch@.skip(5) == "temp-branch"@
                    &&& r matches RunAction::Git(c) && c@ == git_op_args(
                        GitOp::SwitchCreate { branch: final(self).temporary_branch@ },
                    )
                })
                &&& !o.ok ==> ({
                    &&& final(self).state is CommittingRestore
                    &&& r matches RunAction::Git(c) && c@ == git_op_args(
                        GitOp::CommitChange { message: "patchy: Restore configuration files"@ },
                    )
                })
            })),
            old(self).state is CommittingRestore ==> (
            event matches RunEvent::Cmd(o) ==> ({
                &&& o.ok ==> ({
                    &&& final(self).state is SwitchingToTemp
                    &&& final(self).temporary_branch@.len() == "temp-branch"@.len() + 5
                    &&& final(self).temporary_branch@.skip(5) == "temp-branch"@
                    &&& r matches RunAction::Git(c) && c@ == git_op_args(
                        GitOp::SwitchCreate { branch: final(self).temporary_branch@ },
                    )
                })
                &&& !o.ok ==> ({
                    &&& final(self).state matches RunState::RollbackCheckingOut { pending }
                    &&& pending matches RunError::CommandFailed { stderr } && stderr@ == o.stderr@
                    &&& r matches RunAction::Git(c) && c@ == git_op_args(
                        GitOp::CheckoutBranch { branch: old(self).previous_branch@ },
                    )
                })
            })),
            old(self).state is SwitchingToTemp ==> (
            event matches RunEvent::Cmd(o) ==> ({
                &&& o.ok ==> ({
                    &&& final(self).state is CleanupDeleting
                    &&& final(self).temporary_branch == old(self).temporary_branch
                    &&& r matches RunAction::Git(c) && c@ == git_op_args(
                        GitOp::BranchDelete { branch: old(self).info.branch.local_branch_name@ },
                    )
                })
                &&& !o.ok ==> ({
                    &&& final(self).state matches RunState::RollbackCheckingOut { pending }
                    &&& pending matches RunError::CommandFailed { stderr } && stderr@ == o.stderr@
                    &&& r matches RunAction::Git(c) && c@ == git_op_args(
                        GitOp::CheckoutBranch { branch: old(self).previous_branch@ },
                    )
                })
            })),
            old(self).state is CleanupDeleting ==> (
            event matches RunEvent::Cmd(o) ==> ({
                &&& final(self).state matches RunState::CleanupRemoving { prior_fail, stderr }
                    && prior_fail == !o.ok && stderr@ == o.stderr@
                &&& final(self).temporary_branch == old(self).temporary_branch
                &&& r matches RunAction::Git(c) && c@ == git_op_args(
                    GitOp::RemoteRemove { alias: old(self).info.remote.local_remote_alias@ },
                )
            })),
            old(self).state matches RunState::CleanupRemoving { prior_fail, stderr } ==> (
            event matches RunEvent::Cmd(o) ==> ({
                &&& (prior_fail || !o.ok) ==> (final(self).state is Complete && (
                r matches RunAction::Finished(Err(RunError::CleanupFailed { .. }))))
                &&& !prior_fail && o.ok && old(self).has_yes_flag ==> ({
                    &&& final(self).state is Renaming
                    &&& r matches RunAction::Git(c) && c@ == git_op_args(
                        GitOp::BranchMoveForce {
                            from: old(self).temporary_branch@,
                            to: old(self).config.local_branch@,
                        },
                    )
                })
                &&& !prior_fail && o.ok && !old(self).has_yes_flag ==> ({
                    &&& final(self).state is Confirming
                    &&& final(self).temporary_branch == old(self).temporary_branch
                    &&& r matches RunAction::Confirm { prompt } && prompt@ == "Overwrite branch "@
                        + old(self).config.local_branch@ + "? This is irreversible."@
                })
            })),
            event matches RunEvent::Answer(yes) ==> ({
                &&& yes ==> ({
                    &&& final(self).state is Renaming
                    &&& r matches RunAction::Git(c) && c@ == git_op_args(
                        GitOp::BranchMoveForce {
                            from: old(self).temporary_branch@,
                            to: old(self).config.local_branch@,
                        },
                    )
                })
                &&& !yes ==> ({
                    &&& final(self).state is Complete
                    &&& final(self).temporary_branch == old(self).temporary_branch
                    &&& r matches RunAction::Finished(Err(
                        RunError::Declined { temporary_branch, local_branch },
                    )) && temporary_branch@ == old(self).temporary_branch@ && local_branch@
                        == old(self).config.local_branch@
                })
            }),
            old(self).state is Renaming ==> (
            event matches RunEvent::Cmd(o) ==> ({
                &&& final(self).state is Complete
                &&& o.ok ==> (r matches RunAction::Finished(Ok(_)))
                &&& !o.ok ==> (r matches RunAction::Finished(Err(
                    RunError::CommandFailed { stderr },
                )) && stderr@ == o.stderr@)
            })),
    {
        match event {
            RunEvent::SnapshotDone(res) => {
                match res {
                    Err(detail) => {
                        self.state = RunState::Complete;
                        RunAction::Finished(Err(RunError::BackupFailed { detail }))
                    },
                    Ok(entries) => {
                        self.backups = entries;
                        let local = with_uuid(self.remote_branch.as_str());
                        let alias = with_uuid(self.config.repo.as_str());
                        let mut url = String::from_str("https://github.com/");
                        url.append(self.config.repo.as_str());
                        url.append(".git");
                        self.info = BranchAndRemote::new(
                            local.as_str(),
                            self.remote_branch.as_str(),
                            alias.as_str(),
                            url.as_str(),
                        );
                        let (mat, cmd) = add_remote_branch(&self.info, &self.commit_hash);
                        self.state = RunState::FetchingUpstream;
                        RunAction::Materialize(mat, cmd)
                    },
                }
            },
            RunEvent::Materialized(res) => {
                match res {
                    Ok(_) => {
                        let (cm, cmd) = checkout_from_remote(
                            self.info.branch.local_branch_name.as_str(),
                            self.info.remote.local_remote_alias.as_str(),
                        );
                        self.state = RunState::CheckingOutUpstream;
                        RunAction::Checkout(cm, cmd)
                    },
                    Err(e) => {
                        let cmd = git_branch_delete(self.info.branch.local_branch_name.as_str());
                        self.state = RunState::UpstreamFailDeleting { err: e };
                        RunAction::Git(cmd)
                    },
                }
            },
            RunEvent::CheckedOut(res) => {
                match res {
                    Ok(prev) => {
                        self.previous_branch = prev;
                        self.next_pr(0)
                    },
                    Err(e) => {
                        self.state = RunState::Complete;
                        RunAction::Finished(Err(RunError::UpstreamCheckout { checkout_err: e }))
                    },
                }
            },
            RunEvent::PrFetched(res) => {
                let state = core::mem::replace(&mut self.state, RunState::Complete);
                match state {
                    RunState::FetchingPr { idx } => {
                        match res {
                            Ok((resp, pr_info)) => {
                                proof {
                                    reveal_strlit("@");
                                }
                                let token = self.config.pull_requests[idx].as_str();
                                let stripped = ignore_octothorpe(token);
                                let (number, _hash) = parse_if_maybe_hash(
                                    stripped.as_str(),
                                    "@",
                                );
                                let (mm, cmd) = merge_pull_request(
                                    &pr_info,
                                    number.as_str(),
                                    resp.title.as_str(),
                                    resp.html_url.as_str(),
                                );
                                self.state = RunState::MergingPr {
                                    idx,
                                    alias: pr_info.remote.local_remote_alias.clone(),
                                    branch: pr_info.branch.local_branch_name.clone(),
                                };
                                RunAction::MergePr(mm, cmd)
                            },
                            Err(e) => {
                                match e {
                                    FetchPrError::AddRemote { alias, local_branch, .. } => {
                                        let cmd = git_branch_delete(local_branch.as_str());
                                        self.state = RunState::PrCleanupDeleting {
                                            idx,
                                            alias,
                                            branch: local_branch,
                                        };
                                        RunAction::Git(cmd)
                                    },
                                    _ => {
                                        let n = self.config.pull_requests.len();
                                        assert(idx < n);
                                        self.next_pr(idx + 1)
                                    },
                                }
                            },
                        }
                    },
                    _ => {
                        // Not reachable: each answer kind belongs to exactly
                        // one waiting state, which the contract demands.
                        RunAction::Finished(Err(RunError::EmptyRepo))
                    },
                }
            },
            RunEvent::PrMerged(res) => {
                let state = core::mem::replace(&mut self.state, RunState::Complete);
                match state {
                    RunState::MergingPr { idx, alias, branch } => {
                        match res {
                            Ok(_) => {
                                let n = self.config.pull_requests.len();
                                assert(idx < n);
                                self.next_pr(idx + 1)
                            },
                            Err(_) => {
                                let cmd = git_branch_delete(branch.as_str());
                                self.state = RunState::PrCleanupDeleting { idx, alias, branch };
                                RunAction::Git(cmd)
                            },
                        }
                    },
                    _ => {
                        // Not reachable: each answer kind belongs to exactly
                        // one waiting state, which the contract demands.
                        RunAction::Finished(Err(RunError::EmptyRepo))
                    },
                }
            },
            RunEvent::DirCreated(ok) => {
                if ok {
                    self.next_restore(0)
                } else {
                    let cmd = git_checkout(self.previous_branch.as_str());
                    self.state = RunState::RollbackCheckingOut { pending: RunError::DirCreateFailed };
                    RunAction::Git(cmd)
                }
            },
            RunEvent::FileWritten(ok) => {
                let state = core::mem::replace(&mut self.state, RunState::Complete);
                match state {
                    RunState::RestoringFile { idx } => {
                        if !ok {
                            let file_name = self.backups[idx].file_name.clone();
                            let cmd = git_checkout(self.previous_branch.as_str());
                            self.state = RunState::RollbackCheckingOut {
                                pending: RunError::RestoreFailed { file_name },
                            };
                            RunAction::Git(cmd)
                        } else {
                            let stem = patch_stem_exec(self.backups[idx].file_name.as_str());
                            let is_patch = match &self.config.patches {
                                Some(ps) => contains_name(ps, stem.as_str()),
                                None => false,
                            };
                            if is_patch {
                                let mut path = self.config_dir.clone();
                                path.append("/");
                                path.append(stem.as_str());
                                path.append(".patch");
                                self.state = RunState::ApplyingPatch { idx };
                                RunAction::Git(git_apply_patch(path.as_str()))
                            } else {
                                let n = self.backups.len();
                                assert(idx < n);
                                self.next_restore(idx + 1)
                            }
                        }
                    },
                    _ => {
                        // Not reachable: each answer kind belongs to exactly
                        // one waiting state, which the contract demands.
                        RunAction::Finished(Err(RunError::EmptyRepo))
                    },
                }
            },
            RunEvent::Answer(yes) => {
                if yes {
                    let cmd = git_branch_move_force(
                        self.temporary_branch.as_str(),
                        self.config.local_branch.as_str(),
                    );
                    self.state = RunState::Renaming;
                    RunAction::Git(cmd)
                } else {
                    let temporary_branch = self.temporary_branch.clone();
                    let local_branch = self.config.local_branch.clone();
                    self.state = RunState::Complete;
                    RunAction::Finished(
                        Err(RunError::Declined { temporary_branch, local_branch }),
                    )
                }
            },
            RunEvent::Cmd(o) => {
                let state = core::mem::replace(&mut self.state, RunState::Complete);
                match state {
                    RunState::UpstreamFailDeleting { err } => {
                        let cmd = git_remote_remove(self.info.remote.local_remote_alias.as_str());
                        self.state = RunState::UpstreamFailRemoving { err };
                        RunAction::Git(cmd)
                    },
                    RunState::UpstreamFailRemoving { err } => {
                        self.state = RunState::Complete;
                        RunAction::Finished(Err(RunError::UpstreamFetch { fetch_err: err }))
                    },
                    RunState::PrCleanupDeleting { idx, alias, branch: _ } => {
                        let cmd = git_remote_remove(alias.as_str());
                        self.state = RunState::PrCleanupRemoving { idx, alias };
                        RunAction::Git(cmd)
                    },
                    RunState::PrCleanupRemoving { idx, alias: _ } => {
                        let n = self.config.pull_requests.len();
                        assert(idx < n);
                        self.next_pr(idx + 1)
                    },
                    RunState::RollbackCheckingOut { pending } => {
                        let cmd = git_branch_delete(self.info.branch.local_branch_name.as_str());
                        self.state = RunState::RollbackDeleting { pending };
                        RunAction::Git(cmd)
                    },
                    RunState::RollbackDeleting { pending } => {
                        let cmd = git_remote_remove(self.info.remote.local_remote_alias.as_str());
                        self.state = RunState::RollbackRemoving { pending };
                        RunAction::Git(cmd)
                    },
                    RunState::RollbackRemoving { pending } => {
                        self.state = RunState::Complete;
                        RunAction::Finished(Err(pending))
                    },
                    RunState::ApplyingPatch { idx } => {
                        if o.ok {
                            self.state = RunState::ReadingPatchMessage { idx };
                            RunAction::Git(git_last_commit_message())
                        } else {
                            let n = self.backups.len();
                            assert(idx < n);
                            self.next_restore(idx + 1)
                        }
                    },
                    RunState::ReadingPatchMessage { idx } => {
                        let n = self.backups.len();
                        assert(idx < n);
                        self.next_restore(idx + 1)
                    },
                    RunState::StagingConfig => {
                        if o.ok {
                            self.state = RunState::CheckingRestoreStaged;
                            RunAction::Git(git_diff_cached_quiet())
                        } else {
                            let cmd = git_checkout(self.previous_branch.as_str());
                            self.state = RunState::RollbackCheckingOut {
                                pending: RunError::CommandFailed { stderr: o.stderr },
                            };
                            RunAction::Git(cmd)
                        }
                    },
                    RunState::CheckingRestoreStaged => {
                        if o.ok {
                            let temp = with_uuid("temp-branch");
                            self.temporary_branch = temp.clone();
                            self.state = RunState::SwitchingToTemp;
                            RunAction::Git(git_switch_create(temp.as_str()))
                        } else {
                            self.state = RunState::CommittingRestore;
                            RunAction::Git(
                                git_commit_message("patchy: Restore configuration files"),
                            )
                        }
                    },
                    RunState::CommittingRestore => {
                        if o.ok {
                            let temp = with_uuid("temp-branch");
                            self.temporary_branch = temp.clone();
                            self.state = RunState::SwitchingToTemp;
                            RunAction::Git(git_switch_create(temp.as_str()))
                        } else {
                            let cmd = git_checkout(self.previous_branch.as_str());
                            self.state = RunState::RollbackCheckingOut {
                                pending: RunError::CommandFailed { stderr: o.stderr },
                            };
                            RunAction::Git(cmd)
                        }
                    },
                    RunState::SwitchingToTemp => {
                        if o.ok {
                            let cmd = git_branch_delete(
                                self.info.branch.local_branch_name.as_str(),
                            );
                            self.state = RunState::CleanupDeleting;
                            RunAction::Git(cmd)
                        } else {
                            let cmd = git_checkout(self.previous_branch.as_str());
                            self.state = RunState::RollbackCheckingOut {
                                pending: RunError::CommandFailed { stderr: o.stderr },
                            };
                            RunAction::Git(cmd)
                        }
                    },
                    RunState::CleanupDeleting => {
                        let cmd = git_remote_remove(self.info.remote.local_remote_alias.as_str());
                        self.state = RunState::CleanupRemoving {
                            prior_fail: !o.ok,
                            stderr: o.stderr,
                        };
                        RunAction::Git(cmd)
                    },
                    RunState::CleanupRemoving { prior_fail, stderr } => {
                        if prior_fail || !o.ok {
                            let detail = if prior_fail {
                                stderr
                            } else {
                                o.stderr
                            };
                            self.state = RunState::Complete;
                            RunAction::Finished(Err(RunError::CleanupFailed { stderr: detail }))
                        } else if self.has_yes_flag {
                            let cmd = git_branch_move_force(
                                self.temporary_branch.as_str(),
                                self.config.local_branch.as_str(),
                            );
                            self.state = RunState::Renaming;
                            RunAction::Git(cmd)
                        } else {
                            let mut prompt = String::from_str("Overwrite branch ");
                            prompt.append(self.config.local_branch.as_str());
                            prompt.append("? This is irreversible.");
                            self.state = RunState::Confirming;
                            RunAction::Confirm { prompt }
                        }
                    },
                    RunState::Renaming => {
                        self.state = RunState::Complete;
                        if o.ok {
                            RunAction::Finished(Ok(()))
                        } else {
                            RunAction::Finished(
                                Err(RunError::CommandFailed { stderr: o.stderr }),
                            )
                        }
                    },
                    _ => {
                        // Not reachable: each answer kind belongs to exactly
                        // one waiting state, which the contract demands.
                        RunAction::Finished(Err(RunError::EmptyRepo))
                    },
                }
            },
        }
    }
}

/// Starts one run over a loaded configuration. `config_dir` is the resolved
/// path of the configuration directory; `has_yes_flag` skips the final
/// confirmation. A configuration without a repository is rejected before
/// anything is done.
pub fn run(config: Configuration, config_dir: String, has_yes_flag: bool) -> (r: (
    RunMachine,
    RunAction,
))
    ensures
        r.0.config == config,
        r.0.config_dir@ == config_dir@,
        r.0.has_yes_flag == has_yes_flag,
        ({
            let parts = split_on(config.remote_branch@, " @ "@);
            &&& parts.len() == 1 ==> r.0.remote_branch@ == config.remote_branch@
                && r.0.commit_hash is None
            &&& parts.len() > 1 ==> ({
                &&& r.0.remote_branch@ == concat_pieces(parts.drop_last())
                &&& r.0.commit_hash matches Some(h) && h@ == parts.last()
            })
        }),
        config.repo@.len() == 0 ==> (r.0.state is Complete && r.1 matches RunAction::Finished(
            Err(RunError::EmptyRepo),
        )),
        config.repo@.len() > 0 ==> (r.0.state is TakingSnapshot && r.1 is Snapshot),
        r.0.inv(),
{
    proof {
        reveal_strlit(" @ ");
    }
    let (remote_branch, commit_hash) = parse_if_maybe_hash(config.remote_branch.as_str(), " @ ");
    let repo_empty = config.repo.as_str().is_empty();
    let machine = RunMachine {
        config,
        config_dir,
        has_yes_flag,
        remote_branch,
        commit_hash,
        info: BranchAndRemote::new("", "", "", ""),
        previous_branch: String::new(),
        backups: Vec::new(),
        temporary_branch: String::new(),
        state: if repo_empty {
            RunState::Complete
        } else {
            RunState::TakingSnapshot
        },
    };
    let action = if repo_empty {
        RunAction::Finished(Err(RunError::EmptyRepo))
    } else {
        RunAction::Snapshot
    };
    (machine, action)
}


} // verus!
