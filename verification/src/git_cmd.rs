use vstd::prelude::*;

use crate::git::{
    git_branch_delete, git_checkout, git_checkout_ours, git_fetch_branch, git_list_conflicted,
    git_merge_abort, git_merge_no_ff, git_op_args, git_remote_add, git_remote_remove,
    git_stage_path, CmdOutcome, GitCommand, GitOp,
};
use crate::git_commands::{trim_end_str, trimmed_end};
use crate::utils::{split_on, split_str};

verus! {

/// Whether `p` ends `s`.
pub open spec fn has_suffix(s: Seq<char>, p: Seq<char>) -> bool {
    p.len() <= s.len() && s.skip(s.len() - p.len()) == p
}

/// Whether `s` ends with `p`, character by character.
pub fn ends_with_str(s: &str, p: &str) -> (r: bool)
    ensures
        r == has_suffix(s@, p@),
{
    let sl = s.unicode_len();
    let pl = p.unicode_len();
    if pl > sl {
        return false;
    }
    let mut i: usize = 0;
    while i < pl
        invariant
            sl == s@.len(),
            pl == p@.len(),
            pl <= sl,
            0 <= i <= pl,
            forall|j: int| 0 <= j < i ==> s@[sl - pl + j] == p@[j],
        decreases pl - i,
    {
        if s.get_char(sl - pl + i) != p.get_char(i) {
            assert(s@.skip(sl - pl as int)[i as int] != p@[i as int]);
            return false;
        }
        i = i + 1;
    }
    assert(s@.skip(sl - pl as int) =~= p@);
    true
}

/// The conflicted paths as the tool lists them: one per line of the trimmed
/// output, none when the trimmed output is empty.
pub open spec fn conflict_lines(stdout: Seq<char>) -> Seq<Seq<char>> {
    if trimmed_end(stdout).len() == 0 {
        Seq::<Seq<char>>::empty()
    } else {
        split_on(trimmed_end(stdout), "\n"@)
    }
}

/// Where a merge under the automatic-resolution policy stands. This mode
/// resolves a conflict only when every conflicted file is a text document
/// (`.md`); anything else aborts the merge and leaves the tree unchanged.
pub enum AutoMergeState {
    /// The `merge --no-commit --no-ff` command is out.
    Merging,
    /// The merge conflicted; the list of conflicted paths is out.
    ListingConflicts,
    /// Taking our own copy of the conflicted text document at `idx`.
    TakingOurs { files: Vec<String>, idx: usize },
    /// Staging the resolved text document at `idx`.
    StagingResolved { files: Vec<String>, idx: usize },
    /// A conflicted file outside the allow-list was found; the merge is
    /// being aborted.
    Aborting { file: String },
    /// Nothing further will be asked.
    Complete,
}

/// Why the automatic-resolution merge did not complete.
#[derive(Debug)]
pub enum AutoMergeError {
    /// A conflicted file is no text document; the merge was aborted.
    UnresolvedConflict { file: String },
    /// The conflicted paths could not even be listed.
    ListFailed { stderr: String },
}

/// What the merge asks for next.
pub enum AutoMergeStep {
    Run(GitCommand),
    Finished(Result<String, AutoMergeError>),
}

/// Merges a local branch into the current branch, resolving conflicts
/// automatically when — and only when — every conflicted file is a text
/// document, by keeping our own copy of each.
pub struct AutoMergeMachine {
    pub local_branch: String,
    pub remote_branch: String,
    pub state: AutoMergeState,
}

/// Starts a merge of `local_branch` under the automatic-resolution policy.
/// This trades safety for unattended automation and is never the default.
pub fn merge_into_main(local_branch: &str, remote_branch: &str) -> (r: (
    AutoMergeMachine,
    GitCommand,
))
    ensures
        r.0.local_branch@ == local_branch@,
        r.0.remote_branch@ == remote_branch@,
        r.0.state is Merging,
        r.1@ == git_op_args(GitOp::MergeNoFastForward { branch: local_branch@ }),
{
    let machine = AutoMergeMachine {
        local_branch: String::from_str(local_branch),
        remote_branch: String::from_str(remote_branch),
        state: AutoMergeState::Merging,
    };
    (machine, git_merge_no_ff(local_branch))
}

impl AutoMergeMachine {
    /// The per-file decision has not run past the list.
    pub open spec fn inv(self) -> bool {
        &&& self.state matches AutoMergeState::TakingOurs { files, idx } ==> idx < files@.len()
        &&& self.state matches AutoMergeState::StagingResolved { files, idx } ==> idx
            < files@.len()
    }

    /// Turns to the conflicted file at `next`: its own copy is taken when it
    /// is a text document, the merge is aborted when it is not, and the
    /// merge is done when no file is left.
    fn next_file(&mut self, files: Vec<String>, next: usize) -> (r: AutoMergeStep)
        requires
            next <= files@.len(),
        ensures
            final(self).local_branch@ == old(self).local_branch@,
            final(self).remote_branch@ == old(self).remote_branch@,
            final(self).inv(),
            next < files@.len() && has_suffix(files@[next as int]@, ".md"@) ==> ({
                &&& final(self).state matches AutoMergeState::TakingOurs { files: f2, idx } && f2@
                    == files@ && idx == next
                &&& r matches AutoMergeStep::Run(c) && c@ == git_op_args(
                    GitOp::CheckoutOurs { path: files@[next as int]@ },
                )
            }),
            next < files@.len() && !has_suffix(files@[next as int]@, ".md"@) ==> ({
                &&& final(self).state matches AutoMergeState::Aborting { file } && file@
                    == files@[next as int]@
                &&& r matches AutoMergeStep::Run(c) && c@ == git_op_args(GitOp::MergeAbort)
            }),
            next == files@.len() ==> ({
                &&& final(self).state is Complete
                &&& r matches AutoMergeStep::Finished(Ok(m)) && m@
                    == "Merged and disregarded conflicts in text documents"@
            }),
    {
        if next < files.len() {
            if ends_with_str(files[next].as_str(), ".md") {
                let cmd = git_checkout_ours(files[next].as_str());
                self.state = AutoMergeState::TakingOurs { files, idx: next };
                AutoMergeStep::Run(cmd)
            } else {
                let file = files[next].clone();
                self.state = AutoMergeState::Aborting { file };
                AutoMergeStep::Run(git_merge_abort())
            }
        } else {
            self.state = AutoMergeState::Complete;
            AutoMergeStep::Finished(
                Ok(String::from_str("Merged and disregarded conflicts in text documents")),
            )
        }
    }

    /// Feeds the outcome of the last command in, and yields the next step.
    pub fn step(&mut self, outcome: &CmdOutcome) -> (r: AutoMergeStep)
        requires
            !(old(self).state is Complete),
            old(self).inv(),
        ensures
            final(self).local_branch@ == old(self).local_branch@,
            final(self).remote_branch@ == old(self).remote_branch@,
            final(self).inv(),
            old(self).state is Merging && outcome.ok ==> ({
                &&& final(self).state is Complete
                &&& r matches AutoMergeStep::Finished(Ok(m)) && m@ == "Merged "@ + old(
                    self,
                ).remote_branch@ + " successfully"@
            }),
            old(self).state is Merging && !outcome.ok ==> ({
                &&& final(self).state is ListingConflicts
                &&& r matches AutoMergeStep::Run(c) && c@ == git_op_args(
                    GitOp::ListConflictedFiles,
                )
            }),
            old(self).state is ListingConflicts && !outcome.ok ==> ({
                &&& final(self).state is Complete
                &&& r matches AutoMergeStep::Finished(Err(AutoMergeError::ListFailed { stderr }))
                    && stderr@ == outcome.stderr@
            }),
            old(self).state is ListingConflicts && outcome.ok ==> ({
                let files = conflict_lines(outcome.stdout@);
                &&& files.len() > 0 && has_suffix(files[0], ".md"@) ==> ({
                    &&& final(self).state matches AutoMergeState::TakingOurs { files: f2, idx }
                        && f2.deep_view() == files && idx == 0
                    &&& r matches AutoMergeStep::Run(c) && c@ == git_op_args(
                        GitOp::CheckoutOurs { path: files[0] },
                    )
                })
                &&& files.len() > 0 && !has_suffix(files[0], ".md"@) ==> ({
                    &&& final(self).state matches AutoMergeState::Aborting { file } && file@
                        == files[0]
                    &&& r matches AutoMergeStep::Run(c) && c@ == git_op_args(GitOp::MergeAbort)
                })
                &&& files.len() == 0 ==> (final(self).state is Complete && (
                r matches AutoMergeStep::Finished(Ok(_))))
            }),
            old(self).state matches AutoMergeState::TakingOurs { files, idx } ==> ({
                &&& final(self).state matches AutoMergeState::StagingResolved { files: f2, idx: i }
                    && f2@ == files@ && i == idx
                &&& r matches AutoMergeStep::Run(c) && c@ == git_op_args(
                    GitOp::StagePath { path: files@[idx as int]@ },
                )
            }),
            old(self).state matches AutoMergeState::StagingResolved { files, idx } ==> ({
                &&& idx + 1 < files@.len() && has_suffix(files@[idx + 1]@, ".md"@) ==> ({
                    &&& final(self).state matches AutoMergeState::TakingOurs { files: f2, idx: i }
                        && f2@ == files@ && i == idx + 1
                    &&& r matches AutoMergeStep::Run(c) && c@ == git_op_args(
                        GitOp::CheckoutOurs { path: files@[idx + 1]@ },
                    )
                })
                &&& idx + 1 < files@.len() && !has_suffix(files@[idx + 1]@, ".md"@) ==> ({
                    &&& final(self).state matches AutoMergeState::Aborting { file } && file@
                        == files@[idx + 1]@
                    &&& r matches AutoMergeStep::Run(c) && c@ == git_op_args(GitOp::MergeAbort)
                })
                &&& idx + 1 == files@.len() ==> (final(self).state is Complete && (
                r matches AutoMergeStep::Finished(Ok(_))))
            }),
            old(self).state matches AutoMergeState::Aborting { file } ==> ({
                &&& final(self).state is Complete
                &&& r matches AutoMergeStep::Finished(Err(
                    AutoMergeError::UnresolvedConflict { file: f },
                )) && f@ == file@
            }),
    {
        match core::mem::replace(&mut self.state, AutoMergeState::Complete) {
            AutoMergeState::Merging => {
                if outcome.ok {
                    let mut m = String::from_str("Merged ");
                    m.append(self.remote_branch.as_str());
                    m.append(" successfully");
                    self.state = AutoMergeState::Complete;
                    AutoMergeStep::Finished(Ok(m))
                } else {
                    self.state = AutoMergeState::ListingConflicts;
                    AutoMergeStep::Run(git_list_conflicted())
                }
            },
            AutoMergeState::ListingConflicts => {
                if outcome.ok {
                    let trimmed = trim_end_str(outcome.stdout.as_str());
                    let files: Vec<String> = if trimmed.as_str().is_empty() {
                        Vec::new()
                    } else {
                        proof {
                            reveal_strlit("\n");
                        }
                        split_str(trimmed.as_str(), "\n")
                    };
                    assert(files.deep_view() == conflict_lines(outcome.stdout@));
                    self.next_file(files, 0)
                } else {
                    self.state = AutoMergeState::Complete;
                    AutoMergeStep::Finished(
                        Err(AutoMergeError::ListFailed { stderr: outcome.stderr.clone() }),
                    )
                }
            },
            AutoMergeState::TakingOurs { files, idx } => {
                let cmd = git_stage_path(files[idx].as_str());
                self.state = AutoMergeState::StagingResolved { files, idx };
                AutoMergeStep::Run(cmd)
            },
            AutoMergeState::StagingResolved { files, idx } => {
                let n = files.len();
                assert(idx < n);
                self.next_file(files, idx + 1)
            },
            AutoMergeState::Aborting { file } => {
                self.state = AutoMergeState::Complete;
                AutoMergeStep::Finished(Err(AutoMergeError::UnresolvedConflict { file }))
            },
            AutoMergeState::Complete => {
                // Not reachable: the contract admits no call in this state.
                AutoMergeStep::Finished(Err(AutoMergeError::ListFailed { stderr: String::new() }))
            },
        }
    }
}

/// Law (the whole conflict list): with the listing in hand, the
/// automatic-resolution policy completes exactly when every conflicted path
/// is a text document — each is taken from our side and staged — and
/// otherwise aborts the merge, naming the first path outside the allow-list.
/// The listing outcome stands for what `diff --name-only --diff-filter=U`
/// answered after a conflicted merge; every resolution command is assumed to
/// go through, as the driven machine's own contract covers their failures.
pub fn auto_merge_resolution_outcome(
    local_branch: &str,
    remote_branch: &str,
    listing: &CmdOutcome,
) -> (r: Result<String, AutoMergeError>)
    requires
        listing.ok,
    ensures
        ({
            let files = conflict_lines(listing.stdout@);
            &&& (forall|j: int| 0 <= j < files.len() ==> has_suffix(#[trigger] files[j], ".md"@))
                ==> r is Ok
            &&& (exists|j: int|
                0 <= j < files.len() && !has_suffix(#[trigger] files[j], ".md"@)) ==> (
            r matches Err(AutoMergeError::UnresolvedConflict { file }) && (exists|j: int|
                {
                    &&& 0 <= j < files.len()
                    &&& !has_suffix(#[trigger] files[j], ".md"@)
                    &&& forall|k: int| 0 <= k < j ==> has_suffix(#[trigger] files[k], ".md"@)
                    &&& file@ == files[j]
                }))
        }),
{
    let ghost files = conflict_lines(listing.stdout@);
    let (mut m, _first) = merge_into_main(local_branch, remote_branch);
    let conflicted = CmdOutcome { ok: false, stdout: String::new(), stderr: String::new() };
    let _listing_request = m.step(&conflicted);
    assert(m.state is ListingConflicts);
    let mut step = m.step(listing);
    loop
        invariant
            files == conflict_lines(listing.stdout@),
            m.inv(),
            ({
                ||| ({
                    &&& step is Run
                    &&& m.state matches AutoMergeState::TakingOurs { files: f, idx } && ({
                        &&& f.deep_view() == files
                        &&& idx < files.len()
                        &&& forall|k: int|
                            0 <= k <= idx ==> has_suffix(#[trigger] files[k], ".md"@)
                    })
                })
                ||| ({
                    &&& step is Run
                    &&& m.state matches AutoMergeState::StagingResolved { files: f, idx } && ({
                        &&& f.deep_view() == files
                        &&& idx < files.len()
                        &&& forall|k: int|
                            0 <= k <= idx ==> has_suffix(#[trigger] files[k], ".md"@)
                    })
                })
                ||| ({
                    &&& step is Run
                    &&& m.state matches AutoMergeState::Aborting { file } && (exists|j: int|
                        {
                            &&& 0 <= j < files.len()
                            &&& !has_suffix(#[trigger] files[j], ".md"@)
                            &&& forall|k: int|
                                0 <= k < j ==> has_suffix(#[trigger] files[k], ".md"@)
                            &&& file@ == files[j]
                        })
                })
                ||| (step matches AutoMergeStep::Finished(res) && ({
                    &&& (forall|j: int|
                        0 <= j < files.len() ==> has_suffix(#[trigger] files[j], ".md"@)) ==> res
                        is Ok
                    &&& (exists|j: int|
                        0 <= j < files.len() && !has_suffix(#[trigger] files[j], ".md"@)) ==> (
                    res matches Err(AutoMergeError::UnresolvedConflict { file }) && (exists|j: int|
                        {
                            &&& 0 <= j < files.len()
                            &&& !has_suffix(#[trigger] files[j], ".md"@)
                            &&& forall|k: int| 0 <= k < j ==> has_suffix(
                                #[trigger] files[k],
                                ".md"@,
                            )
                            &&& file@ == files[j]
                        }))
                }))
            }),
        decreases (match m.state {
            AutoMergeState::TakingOurs { idx, .. } => 2 * (files.len() - idx) + 2,
            AutoMergeState::StagingResolved { idx, .. } => 2 * (files.len() - idx) + 1,
            AutoMergeState::Aborting { .. } => 1int,
            _ => 0int,
        }),
    {
        match step {
            AutoMergeStep::Finished(res) => {
                return res;
            },
            AutoMergeStep::Run(_) => {
                let ghost pre = m;
                step = m.step(
                    &CmdOutcome { ok: true, stdout: String::new(), stderr: String::new() },
                );
                proof {
                    match pre.state {
                        AutoMergeState::TakingOurs { files: f, idx } => {
                            assert(m.state matches AutoMergeState::StagingResolved {
                                files: f2,
                                idx: i2,
                            } ==> f2.deep_view() =~~= f.deep_view());
                        },
                        AutoMergeState::StagingResolved { files: f, idx } => {
                            if idx + 1 < f@.len() {
                                assert(f.deep_view()[idx as int + 1] == f@[idx as int + 1]@);
                            }
                            if idx + 1 < f@.len() && has_suffix(f@[idx as int + 1]@, ".md"@) {
                                assert(m.state matches AutoMergeState::TakingOurs {
                                    files: f2,
                                    idx: i2,
                                } ==> f2.deep_view() =~~= f.deep_view());
                            }
                        },
                        _ => {},
                    }
                }
            },
        }
    }
}

/// Where the plain checkout of a fetched branch stands.
pub enum PlainCheckoutState {
    /// The `checkout` command is out.
    CheckingOut,
    /// The checkout failed; the branch is being deleted again.
    DeletingAfterFailure { stderr: String },
    /// The checkout failed; the remote is being removed again.
    RemovingAfterFailure { stderr: String },
    /// Nothing further will be asked.
    Complete,
}

/// What the plain checkout asks for next.
pub enum PlainCheckoutStep {
    Run(GitCommand),
    Finished(Result<(), String>),
}

/// Checks out a fetched branch; on failure the branch and its remote are
/// retired again before the failure, with the tool's words, is reported.
pub struct PlainCheckoutMachine {
    pub branch: String,
    pub remote: String,
    pub state: PlainCheckoutState,
}

/// Starts checking out `branch`, which belongs to `remote`.
pub fn checkout(branch: &str, remote: &str) -> (r: (PlainCheckoutMachine, GitCommand))
    ensures
        r.0.branch@ == branch@,
        r.0.remote@ == remote@,
        r.0.state is CheckingOut,
        r.1@ == git_op_args(GitOp::CheckoutBranch { branch: branch@ }),
{
    let machine = PlainCheckoutMachine {
        branch: String::from_str(branch),
        remote: String::from_str(remote),
        state: PlainCheckoutState::CheckingOut,
    };
    (machine, git_checkout(branch))
}

impl PlainCheckoutMachine {
    /// Feeds the outcome of the last command in, and yields the next step.
    pub fn step(&mut self, outcome: &CmdOutcome) -> (r: PlainCheckoutStep)
        requires
            !(old(self).state is Complete),
        ensures
            final(self).branch@ == old(self).branch@,
            final(self).remote@ == old(self).remote@,
            old(self).state is CheckingOut && outcome.ok ==> ({
                &&& final(self).state is Complete
                &&& r == PlainCheckoutStep::Finished(Result::<(), String>::Ok(()))
            }),
            old(self).state is CheckingOut && !outcome.ok ==> ({
                &&& final(self).state matches PlainCheckoutState::DeletingAfterFailure { stderr }
                    && stderr@ == outcome.stderr@
                &&& r matches PlainCheckoutStep::Run(c) && c@ == git_op_args(
                    GitOp::BranchDelete { branch: old(self).branch@ },
                )
            }),
            old(self).state matches PlainCheckoutState::DeletingAfterFailure { stderr } ==> ({
                &&& final(self).state matches PlainCheckoutState::RemovingAfterFailure {
                    stderr: s2,
                } && s2@ == stderr@
                &&& r matches PlainCheckoutStep::Run(c) && c@ == git_op_args(
                    GitOp::RemoteRemove { alias: old(self).remote@ },
                )
            }),
            old(self).state matches PlainCheckoutState::RemovingAfterFailure { stderr } ==> ({
                &&& final(self).state is Complete
                &&& r matches PlainCheckoutStep::Finished(Err(d)) && d@ == stderr@
            }),
    {
        match core::mem::replace(&mut self.state, PlainCheckoutState::Complete) {
            PlainCheckoutState::CheckingOut => {
                if outcome.ok {
                    PlainCheckoutStep::Finished(Ok(()))
                } else {
                    let cmd = git_branch_delete(self.branch.as_str());
                    self.state = PlainCheckoutState::DeletingAfterFailure {
                        stderr: outcome.stderr.clone(),
                    };
                    PlainCheckoutStep::Run(cmd)
                }
            },
            PlainCheckoutState::DeletingAfterFailure { stderr } => {
                let cmd = git_remote_remove(self.remote.as_str());
                self.state = PlainCheckoutState::RemovingAfterFailure { stderr };
                PlainCheckoutStep::Run(cmd)
            },
            PlainCheckoutState::RemovingAfterFailure { stderr } => {
                self.state = PlainCheckoutState::Complete;
                PlainCheckoutStep::Finished(Err(stderr))
            },
            PlainCheckoutState::Complete => {
                // Not reachable: the contract admits no call in this state.
                PlainCheckoutStep::Finished(Ok(()))
            },
        }
    }
}


/// Where the plain fetch of a remote branch stands.
pub enum PlainFetchState {
    /// The `remote add` command is out.
    AddingRemote,
    /// The `fetch` command is out.
    Fetching,
    /// Registering the remote failed; the half-registered alias is being
    /// removed again.
    RemovingAfterAddFailure { stderr: String },
    /// The fetch failed; the local branch is being deleted again.
    DeletingAfterFetchFailure { stderr: String },
    /// Nothing further will be asked.
    Complete,
}

/// What the plain fetch asks for next; a failure carries the tool's words.
pub enum PlainFetchStep {
    Run(GitCommand),
    Finished(Result<(), String>),
}

/// Registers a remote alias and fetches one of its branches into a local
/// name; whichever of the two steps fails has its leavings removed again
/// before the failure is reported.
pub struct PlainFetchMachine {
    pub local_remote: String,
    pub local_branch: String,
    pub remote_remote: String,
    pub remote_branch: String,
    pub state: PlainFetchState,
}

/// Starts fetching `remote_branch` of `remote_remote` into `local_branch`
/// through the alias `local_remote`.
pub fn add_remote_branch(
    local_remote: &str,
    local_branch: &str,
    remote_remote: &str,
    remote_branch: &str,
) -> (r: (PlainFetchMachine, GitCommand))
    ensures
        r.0.local_remote@ == local_remote@,
        r.0.local_branch@ == local_branch@,
        r.0.remote_remote@ == remote_remote@,
        r.0.remote_branch@ == remote_branch@,
        r.0.state is AddingRemote,
        r.1@ == git_op_args(GitOp::RemoteAdd { alias: local_remote@, url: remote_remote@ }),
{
    let machine = PlainFetchMachine {
        local_remote: String::from_str(local_remote),
        local_branch: String::from_str(local_branch),
        remote_remote: String::from_str(remote_remote),
        remote_branch: String::from_str(remote_branch),
        state: PlainFetchState::AddingRemote,
    };
    (machine, git_remote_add(local_remote, remote_remote))
}

impl PlainFetchMachine {
    /// Feeds the outcome of the last command in, and yields the next step.
    pub fn step(&mut self, outcome: &CmdOutcome) -> (r: PlainFetchStep)
        requires
            !(old(self).state is Complete),
        ensures
            final(self).local_remote@ == old(self).local_remote@,
            final(self).local_branch@ == old(self).local_branch@,
            final(self).remote_remote@ == old(self).remote_remote@,
            final(self).remote_branch@ == old(self).remote_branch@,
            old(self).state is AddingRemote && outcome.ok ==> ({
                &&& final(self).state is Fetching
                &&& r matches PlainFetchStep::Run(c) && c@ == git_op_args(
                    GitOp::FetchBranch {
                        url: old(self).remote_remote@,
                        upstream: old(self).remote_branch@,
                        local: old(self).local_branch@,
                    },
                )
            }),
            old(self).state is AddingRemote && !outcome.ok ==> ({
                &&& final(self).state matches PlainFetchState::RemovingAfterAddFailure { stderr }
                    && stderr@ == outcome.stderr@
                &&& r matches PlainFetchStep::Run(c) && c@ == git_op_args(
                    GitOp::RemoteRemove { alias: old(self).local_remote@ },
                )
            }),
            old(self).state is Fetching && outcome.ok ==> ({
                &&& final(self).state is Complete
                &&& r == PlainFetchStep::Finished(Result::<(), String>::Ok(()))
            }),
            old(self).state is Fetching && !outcome.ok ==> ({
                &&& final(self).state matches PlainFetchState::DeletingAfterFetchFailure { stderr }
                    && stderr@ == outcome.stderr@
                &&& r matches PlainFetchStep::Run(c) && c@ == git_op_args(
                    GitOp::BranchDelete { branch: old(self).local_branch@ },
                )
            }),
            old(self).state matches PlainFetchState::RemovingAfterAddFailure { stderr } ==> ({
                &&& final(self).state is Complete
                &&& r matches PlainFetchStep::Finished(Err(d)) && d@ == stderr@
            }),
            old(self).state matches PlainFetchState::DeletingAfterFetchFailure { stderr } ==> ({
                &&& final(self).state is Complete
                &&& r matches PlainFetchStep::Finished(Err(d)) && d@ == stderr@
            }),
    {
        match core::mem::replace(&mut self.state, PlainFetchState::Complete) {
            PlainFetchState::AddingRemote => {
                if outcome.ok {
                    let cmd = git_fetch_branch(
                        self.remote_remote.as_str(),
                        self.remote_branch.as_str(),
                        self.local_branch.as_str(),
                    );
                    self.state = PlainFetchState::Fetching;
                    PlainFetchStep::Run(cmd)
                } else {
                    let cmd = git_remote_remove(self.local_remote.as_str());
                    self.state = PlainFetchState::RemovingAfterAddFailure {
                        stderr: outcome.stderr.clone(),
                    };
                    PlainFetchStep::Run(cmd)
                }
            },
            PlainFetchState::Fetching => {
                if outcome.ok {
                    self.state = PlainFetchState::Complete;
                    PlainFetchStep::Finished(Ok(()))
                } else {
                    let cmd = git_branch_delete(self.local_branch.as_str());
                    self.state = PlainFetchState::DeletingAfterFetchFailure {
                        stderr: outcome.stderr.clone(),
                    };
                    PlainFetchStep::Run(cmd)
                }
            },
            PlainFetchState::RemovingAfterAddFailure { stderr } => {
                self.state = PlainFetchState::Complete;
                PlainFetchStep::Finished(Err(stderr))
            },
            PlainFetchState::DeletingAfterFetchFailure { stderr } => {
                self.state = PlainFetchState::Complete;
                PlainFetchStep::Finished(Err(stderr))
            },
            PlainFetchState::Complete => {
                // Not reachable: the contract admits no call in this state.
                PlainFetchStep::Finished(Ok(()))
            },
        }
    }
}


} // verus!
