use vstd::prelude::*;

use crate::git::{
    apply_git_op, apply_git_trace, git_branch_delete, git_branch_force, git_checkout,
    git_commit_message, git_current_branch, git_diff_cached_quiet, git_fetch_branch, git_op_args,
    git_merge_squash, git_remote_add, git_remote_remove, git_reset_hard, git_rev_parse_verify,
    CmdOutcome, GitCommand, GitOp, RepoModel,
};
use crate::types::BranchAndRemote;
use crate::types::GitHubResponse;
use crate::utils::{
    char_alphanumeric, char_whitespace, dec_rep, is_alphanumeric_char, is_whitespace_char,
    normalize_commit_msg, normalized_char, replace_str, replaced, u64_to_string, with_uuid,
};

verus! {

/// Whether a locally chosen branch name is safe to use in a remote-sourced
/// context: letters, digits, `.`, `-`, `/` and `_` only.
pub open spec fn valid_branch_name(s: Seq<char>) -> bool {
    forall|i: int|
        0 <= i < s.len() ==> (char_alphanumeric(#[trigger] s[i]) || s[i] == '.' || s[i] == '-'
            || s[i] == '/' || s[i] == '_')
}

/// Checks every character of a candidate branch name.
pub fn is_valid_branch_name(branch_name: &str) -> (r: bool)
    ensures
        r == valid_branch_name(branch_name@),
{
    let n = branch_name.unicode_len();
    let mut i: usize = 0;
    while i < n
        invariant
            n == branch_name@.len(),
            0 <= i <= n,
            forall|j: int|
                0 <= j < i ==> (char_alphanumeric(#[trigger] branch_name@[j])
                    || branch_name@[j] == '.' || branch_name@[j] == '-' || branch_name@[j] == '/'
                    || branch_name@[j] == '_'),
        decreases n - i,
    {
        let c = branch_name.get_char(i);
        if !(is_alphanumeric_char(c) || c == '.' || c == '-' || c == '/' || c == '_') {
            return false;
        }
        i = i + 1;
    }
    true
}

/// A failed invocation of the version-control tool: the arguments it was
/// given and what it printed.
#[derive(Debug)]
pub struct GitError {
    pub args: Vec<String>,
    pub stdout: String,
    pub stderr: String,
}

/// `s` with every trailing whitespace character removed.
pub open spec fn trimmed_end(s: Seq<char>) -> Seq<char>
    decreases s.len(),
{
    if s.len() == 0 {
        s
    } else if char_whitespace(s.last()) {
        trimmed_end(s.drop_last())
    } else {
        s
    }
}

proof fn lemma_trimmed_end_take(s: Seq<char>, k: int)
    requires
        0 <= k <= s.len(),
        forall|j: int| k <= j < s.len() ==> char_whitespace(#[trigger] s[j]),
        k > 0 ==> !char_whitespace(s[k - 1]),
    ensures
        trimmed_end(s) == s.take(k),
    decreases s.len(),
{
    if s.len() == 0 {
        assert(s.take(k) =~= s);
    } else if k == s.len() {
        if k > 0 {
            assert(!char_whitespace(s.last()));
            assert(s.take(k) =~= s);
        }
    } else {
        assert(char_whitespace(s.last()));
        let shorter = s.drop_last();
        assert(forall|j: int| k <= j < shorter.len() ==> char_whitespace(#[trigger] shorter[j]));
        lemma_trimmed_end_take(shorter, k);
        assert(shorter.take(k) =~= s.take(k));
    }
}

/// Removes trailing whitespace from captured output.
pub fn trim_end_str(s: &str) -> (r: String)
    ensures
        r@ == trimmed_end(s@),
{
    let n = s.unicode_len();
    let mut k: usize = n;
    while k > 0 && is_whitespace_char(s.get_char(k - 1))
        invariant
            n == s@.len(),
            0 <= k <= n,
            forall|j: int| k <= j < n ==> char_whitespace(#[trigger] s@[j]),
        decreases k,
    {
        k = k - 1;
    }
    proof {
        lemma_trimmed_end_take(s@, k as int);
    }
    String::from_str(s.substring_char(0, k))
}

/// Interprets what one invocation of the tool produced: trimmed standard
/// output on success, a `GitError` carrying the invocation and both streams
/// otherwise.
pub fn get_git_output(outcome: &CmdOutcome, cmd: GitCommand) -> (r: Result<String, GitError>)
    ensures
        outcome.ok ==> (r matches Ok(out) && out@ == trimmed_end(outcome.stdout@)),
        !outcome.ok ==> (r matches Err(e) && e.args.deep_view() == cmd@ && e.stdout@
            == outcome.stdout@ && e.stderr@ == outcome.stderr@),
{
    if outcome.ok {
        Ok(trim_end_str(outcome.stdout.as_str()))
    } else {
        Err(GitError { args: cmd.args, stdout: outcome.stdout.clone(), stderr: outcome.stderr.clone() })
    }
}

/// The two invocations that retire one ephemeral fetch: force-delete the
/// branch, then remove the remote. Both are always attempted; with
/// `lemma_materialize_then_cleanup` this is what guarantees that neither
/// name survives the run.
pub fn clean_up_remote(remote: &str, branch: &str) -> (cmds: (GitCommand, GitCommand))
    ensures
        cmds.0@ == git_op_args(GitOp::BranchDelete { branch: branch@ }),
        cmds.1@ == git_op_args(GitOp::RemoteRemove { alias: remote@ }),
{
    (git_branch_delete(branch), git_remote_remove(remote))
}

/// Where a fetch of one remote branch stands.
pub enum MaterializeState {
    /// The `remote add` command is out.
    AddingRemote,
    /// The `fetch` command is out.
    Fetching,
    /// The `branch --force` command pinning the branch to a commit is out.
    Pinning,
    /// The fetch failed; the `remote remove` undoing step one is out.
    RemovingAfterFetchFailure { stderr: String },
    /// Nothing further will be asked.
    Complete,
}

/// Why a fetch of one remote branch did not complete.
#[derive(Debug)]
pub enum MaterializeError {
    /// The remote alias could not be registered; nothing was created.
    RemoteAddFailed { stderr: String },
    /// The upstream branch could not be fetched; the remote has been removed
    /// again (best effort).
    BranchNotFound { upstream: String, url: String, stderr: String },
    /// The pin commit was not found; remote and branch remain for the caller
    /// to clean up, so that it may retry with another hash.
    CommitNotFound { commit: String, branch: String, stderr: String },
}

/// What the fetch asks for next: run a command, or it is finished.
pub enum MaterializeStep {
    Run(GitCommand),
    Finished(Result<(), MaterializeError>),
}

/// How one `MaterializeMachine::step` call relates what it was fed to what
/// it did: the next state and the step it yields, for every state.
pub open spec fn materialize_step_rel(
    pre: MaterializeMachine,
    post: MaterializeMachine,
    outcome: CmdOutcome,
    r: MaterializeStep,
) -> bool {
    &&& post.inv()
    &&& pre.same_names(post)
    &&& pre.state is AddingRemote && outcome.ok ==> ({
        &&& post.state is Fetching
        &&& r matches MaterializeStep::Run(c) && c@ == git_op_args(
            GitOp::FetchBranch { url: pre.url@, upstream: pre.upstream@, local: pre.local@ },
        )
    })
    &&& pre.state is AddingRemote && !outcome.ok ==> ({
        &&& post.state is Complete
        &&& r matches MaterializeStep::Finished(Err(MaterializeError::RemoteAddFailed { stderr }))
            && stderr@ == outcome.stderr@
    })
    &&& pre.state is Fetching && outcome.ok && pre.commit_pin is Some ==> ({
        &&& post.state is Pinning
        &&& r matches MaterializeStep::Run(c) && c@ == git_op_args(
            GitOp::BranchForce { branch: pre.local@, commit: pre.commit_pin->Some_0@ },
        )
    })
    &&& pre.state is Fetching && outcome.ok && pre.commit_pin is None ==> ({
        &&& post.state is Complete
        &&& r == MaterializeStep::Finished(Result::<(), MaterializeError>::Ok(()))
    })
    &&& pre.state is Fetching && !outcome.ok ==> ({
        &&& post.state matches MaterializeState::RemovingAfterFetchFailure { stderr } && stderr@
            == outcome.stderr@
        &&& r matches MaterializeStep::Run(c) && c@ == git_op_args(
            GitOp::RemoteRemove { alias: pre.alias@ },
        )
    })
    &&& pre.state matches MaterializeState::RemovingAfterFetchFailure { stderr } ==> ({
        &&& post.state is Complete
        &&& r matches MaterializeStep::Finished(Err(
            MaterializeError::BranchNotFound { upstream, url, stderr: st },
        )) && upstream@ == pre.upstream@ && url@ == pre.url@ && st@ == stderr@
    })
    &&& pre.state is Pinning && outcome.ok ==> ({
        &&& post.state is Complete
        &&& r == MaterializeStep::Finished(Result::<(), MaterializeError>::Ok(()))
    })
    &&& pre.state is Pinning && !outcome.ok ==> ({
        &&& post.state is Complete
        &&& r matches MaterializeStep::Finished(Err(
            MaterializeError::CommitNotFound { commit, branch, stderr },
        )) && commit@ == pre.commit_pin->Some_0@ && branch@ == pre.local@ && stderr@
            == outcome.stderr@
    })
}

/// Fetches a branch of a remote into a local branch, optionally pinning it
/// to an exact commit: first register the remote alias, then fetch the
/// upstream ref into the local name, then force-move the branch to the pin.
pub struct MaterializeMachine {
    pub alias: String,
    pub url: String,
    pub upstream: String,
    pub local: String,
    pub commit_pin: Option<String>,
    pub state: MaterializeState,
}

impl MaterializeMachine {
    /// Holds throughout a fetch: the pinning step is only ever reached when
    /// a pin was asked for.
    pub open spec fn inv(self) -> bool {
        self.state is Pinning ==> self.commit_pin is Some
    }

    /// The names this fetch was started with never change.
    pub open spec fn same_names(self, other: Self) -> bool {
        &&& self.alias@ == other.alias@
        &&& self.url@ == other.url@
        &&& self.upstream@ == other.upstream@
        &&& self.local@ == other.local@
        &&& self.commit_pin == other.commit_pin
    }

    /// Feeds the outcome of the last command in, and yields the next step.
    pub fn step(&mut self, outcome: &CmdOutcome) -> (r: MaterializeStep)
        requires
            !(old(self).state is Complete),
            old(self).inv(),
        ensures
            materialize_step_rel(*old(self), *final(self), *outcome, r),
    {
        match &self.state {
            MaterializeState::AddingRemote => {
                if outcome.ok {
                    self.state = MaterializeState::Fetching;
                    MaterializeStep::Run(
                        git_fetch_branch(
                            self.url.as_str(),
                            self.upstream.as_str(),
                            self.local.as_str(),
                        ),
                    )
                } else {
                    self.state = MaterializeState::Complete;
                    MaterializeStep::Finished(
                        Err(MaterializeError::RemoteAddFailed { stderr: outcome.stderr.clone() }),
                    )
                }
            },
            MaterializeState::Fetching => {
                if outcome.ok {
                    match &self.commit_pin {
                        Some(commit) => {
                            let cmd = git_branch_force(self.local.as_str(), commit.as_str());
                            self.state = MaterializeState::Pinning;
                            MaterializeStep::Run(cmd)
                        },
                        None => {
                            self.state = MaterializeState::Complete;
                            MaterializeStep::Finished(Ok(()))
                        },
                    }
                } else {
                    let cmd = git_remote_remove(self.alias.as_str());
                    self.state = MaterializeState::RemovingAfterFetchFailure {
                        stderr: outcome.stderr.clone(),
                    };
                    MaterializeStep::Run(cmd)
                }
            },
            MaterializeState::RemovingAfterFetchFailure { stderr } => {
                let err = MaterializeError::BranchNotFound {
                    upstream: self.upstream.clone(),
                    url: self.url.clone(),
                    stderr: stderr.clone(),
                };
                self.state = MaterializeState::Complete;
                MaterializeStep::Finished(Err(err))
            },
            MaterializeState::Pinning => {
                self.state = MaterializeState::Complete;
                if outcome.ok {
                    MaterializeStep::Finished(Ok(()))
                } else {
                    MaterializeStep::Finished(
                        Err(
                            MaterializeError::CommitNotFound {
                                commit: match &self.commit_pin {
                                    Some(c) => c.clone(),
                                    None => String::new(),
                                },
                                branch: self.local.clone(),
                                stderr: outcome.stderr.clone(),
                            },
                        ),
                    )
                }
            },
            MaterializeState::Complete => {
                // Not reachable: the contract admits no call in this state.
                MaterializeStep::Finished(Ok(()))
            },
        }
    }
}

/// Starts fetching a branch of a remote into a local branch. The first
/// command registers the remote alias; feed each outcome to
/// `MaterializeMachine::step` until it finishes.
pub fn add_remote_branch(info: &BranchAndRemote, commit_hash: &Option<String>) -> (r: (
    MaterializeMachine,
    GitCommand,
))
    ensures
        r.0.inv(),
        r.0.state is AddingRemote,
        r.0.alias@ == info.remote.local_remote_alias@,
        r.0.url@ == info.remote.repository_url@,
        r.0.upstream@ == info.branch.upstream_branch_name@,
        r.0.local@ == info.branch.local_branch_name@,
        r.0.commit_pin == *commit_hash,
        r.1@ == git_op_args(
            GitOp::RemoteAdd {
                alias: info.remote.local_remote_alias@,
                url: info.remote.repository_url@,
            },
        ),
{
    let machine = MaterializeMachine {
        alias: info.remote.local_remote_alias.clone(),
        url: info.remote.repository_url.clone(),
        upstream: info.branch.upstream_branch_name.clone(),
        local: info.branch.local_branch_name.clone(),
        commit_pin: match commit_hash {
            Some(c) => Some(c.clone()),
            None => None,
        },
        state: MaterializeState::AddingRemote,
    };
    let cmd = git_remote_add(
        info.remote.local_remote_alias.as_str(),
        info.remote.repository_url.as_str(),
    );
    (machine, cmd)
}


/// How many numbered candidates the branch-name probe will try before it
/// gives up, so that adversarial input cannot make it loop forever.
pub const MAX_BRANCH_PROBES: u64 = 10000;

/// Looks for the first branch name that is not taken: the candidate itself,
/// then `2-<candidate>`, `3-<candidate>` and so on. Existing branches are
/// never touched; every command issued is a `rev-parse --verify` query.
pub struct BranchProbe {
    pub candidate: String,
    pub next_number: u64,
    pub last_queried: String,
}

/// What the probe asks for next: one more existence query, the name that
/// turned out to be free, or surrender after too many taken names.
pub enum ProbeStep {
    Run(GitCommand),
    Available(String),
    Exhausted,
}

/// Starts probing for a free branch name; the first command asks whether the
/// candidate itself exists.
pub fn first_available_branch(branch: &str) -> (r: (BranchProbe, GitCommand))
    ensures
        r.0.candidate@ == branch@,
        r.0.next_number == 2,
        r.0.last_queried@ == branch@,
        r.1@ == git_op_args(GitOp::RevParseVerify { name: branch@ }),
{
    let probe = BranchProbe {
        candidate: String::from_str(branch),
        next_number: 2,
        last_queried: String::from_str(branch),
    };
    let cmd = git_rev_parse_verify(branch);
    (probe, cmd)
}

impl BranchProbe {
    /// Feeds in whether the queried name exists. A free name is answered
    /// with exactly the name whose query just failed; a taken one advances
    /// to the next numbered candidate.
    pub fn step(&mut self, branch_exists: bool) -> (r: ProbeStep)
        ensures
            final(self).candidate@ == old(self).candidate@,
            !branch_exists ==> (r matches ProbeStep::Available(name) && name@ == old(
                self,
            ).last_queried@ && *final(self) == *old(self)),
            branch_exists && old(self).next_number < MAX_BRANCH_PROBES ==> ({
                &&& final(self).next_number == old(self).next_number + 1
                &&& final(self).last_queried@ == dec_rep(old(self).next_number as int) + "-"@
                    + old(self).candidate@
                &&& r matches ProbeStep::Run(c) && c@ == git_op_args(
                    GitOp::RevParseVerify { name: final(self).last_queried@ },
                )
            }),
            branch_exists && old(self).next_number >= MAX_BRANCH_PROBES ==> (r is Exhausted
                && *final(self) == *old(self)),
    {
        if !branch_exists {
            ProbeStep::Available(self.last_queried.clone())
        } else if self.next_number < MAX_BRANCH_PROBES {
            let mut name = u64_to_string(self.next_number);
            name.append("-");
            name.append(self.candidate.as_str());
            self.last_queried = name.clone();
            self.next_number = self.next_number + 1;
            ProbeStep::Run(git_rev_parse_verify(name.as_str()))
        } else {
            ProbeStep::Exhausted
        }
    }
}

/// The name the probe asks about in its `i`-th query: the candidate itself
/// first, then `2-<candidate>`, `3-<candidate>` and so on.
pub open spec fn probe_name_at(candidate: Seq<char>, i: int) -> Seq<char> {
    if i == 0 {
        candidate
    } else {
        dec_rep(i + 1) + "-"@ + candidate
    }
}

/// Law (the whole probe): given, for each name asked in order, whether that
/// name exists, the probe settles on the first free name — the candidate
/// itself when it is free, else the numbered candidate with the smallest
/// number whose name is free — and that name is exactly one whose existence
/// query failed. It surrenders only past the probe cap or when every
/// answered name was taken.
pub fn first_available_branch_outcome(branch: &str, answers: &Vec<bool>) -> (r: Option<String>)
    ensures
        r matches Some(name) ==> (exists|m: int|
            {
                &&& 0 <= m < answers@.len()
                &&& !answers@[m]
                &&& forall|k: int| 0 <= k < m ==> answers@[k]
                &&& name@ == probe_name_at(branch@, m)
            }),
        (exists|m: int|
            {
                &&& 0 <= m < answers@.len()
                &&& !answers@[m]
                &&& m + 2 <= MAX_BRANCH_PROBES
                &&& forall|k: int| 0 <= k < m ==> answers@[k]
            }) ==> r is Some,
{
    let (mut probe, _first) = first_available_branch(branch);
    let n = answers.len();
    let mut i: usize = 0;
    while i < n
        invariant
            n == answers@.len(),
            0 <= i <= n,
            probe.candidate@ == branch@,
            probe.next_number == i + 2,
            probe.last_queried@ == probe_name_at(branch@, i as int),
            forall|k: int| 0 <= k < i ==> answers@[k],
        decreases n - i,
    {
        match probe.step(answers[i]) {
            ProbeStep::Available(name) => {
                assert(!answers@[i as int] && name@ == probe_name_at(branch@, i as int));
                return Some(name);
            },
            ProbeStep::Run(_) => {},
            ProbeStep::Exhausted => {
                assert forall|m: int|
                    !{
                        &&& 0 <= m < answers@.len()
                        &&& !answers@[m]
                        &&& m + 2 <= MAX_BRANCH_PROBES
                        &&& forall|k: int| 0 <= k < m ==> answers@[k]
                    } by {
                    if 0 <= m < answers@.len() && m + 2 <= MAX_BRANCH_PROBES {
                        assert(m <= i);
                        assert(answers@[m]);
                    }
                }
                return None;
            },
        }
        i = i + 1;
    }
    None
}

/// Law: a probe run consists of nothing but existence queries, so it leaves
/// every remote, every branch and the checked-out branch exactly as found.
pub proof fn lemma_probe_never_mutates(st: RepoModel, tr: Seq<(GitOp, bool)>)
    requires
        forall|i: int| 0 <= i < tr.len() ==> #[trigger] tr[i].0 is RevParseVerify,
    ensures
        apply_git_trace(st, tr) == st,
    decreases tr.len(),
{
    if tr.len() > 0 {
        assert(apply_git_op(st, tr[0].0, tr[0].1) == st);
        lemma_probe_never_mutates(st, tr.skip(1));
    }
}

/// Where checking out the freshly fetched upstream branch stands.
pub enum CheckoutState {
    /// Asking for the name of the currently checked-out branch.
    QueryingCurrent,
    /// The `checkout` command is out; the previous branch name is kept so
    /// the caller can go back after a later fatal failure.
    CheckingOut { previous: String },
    /// A step failed; the fetched branch is being deleted again.
    DeletingAfterFailure { from_checkout: bool, stderr: String },
    /// A step failed; the remote is being removed again.
    RemovingAfterFailure { from_checkout: bool, stderr: String },
    /// Nothing further will be asked.
    Complete,
}

/// Why the checkout did not complete.
#[derive(Debug)]
pub enum CheckoutError {
    /// The current branch could not be determined, which usually means the
    /// repository has no commits yet.
    NoCommits { stderr: String },
    /// The fetched branch could not be checked out.
    CheckoutFailed { branch: String, remote: String, stderr: String },
}

/// What the checkout asks for next.
pub enum CheckoutStep {
    Run(GitCommand),
    Finished(Result<String, CheckoutError>),
}

/// Captures the current branch, then checks out the fetched branch; on any
/// failure the fetched branch and its remote are retired again before the
/// error is reported.
pub struct CheckoutMachine {
    pub branch: String,
    pub remote: String,
    pub state: CheckoutState,
}

/// Starts checking out `branch`, which belongs to `remote`. The first
/// command asks for the name of the branch currently checked out.
pub fn checkout_from_remote(branch: &str, remote: &str) -> (r: (CheckoutMachine, GitCommand))
    ensures
        r.0.branch@ == branch@,
        r.0.remote@ == remote@,
        r.0.state is QueryingCurrent,
        r.1@ == git_op_args(GitOp::CurrentBranchName),
{
    let machine = CheckoutMachine {
        branch: String::from_str(branch),
        remote: String::from_str(remote),
        state: CheckoutState::QueryingCurrent,
    };
    (machine, git_current_branch())
}

impl CheckoutMachine {
    /// Feeds the outcome of the last command in, and yields the next step.
    pub fn step(&mut self, outcome: &CmdOutcome) -> (r: CheckoutStep)
        requires
            !(old(self).state is Complete),
        ensures
            final(self).branch@ == old(self).branch@,
            final(self).remote@ == old(self).remote@,
            old(self).state is QueryingCurrent && outcome.ok ==> ({
                &&& final(self).state matches CheckoutState::CheckingOut { previous } && previous@
                    == trimmed_end(outcome.stdout@)
                &&& r matches CheckoutStep::Run(c) && c@ == git_op_args(
                    GitOp::CheckoutBranch { branch: old(self).branch@ },
                )
            }),
            old(self).state is QueryingCurrent && !outcome.ok ==> ({
                &&& final(self).state matches CheckoutState::DeletingAfterFailure {
                    from_checkout,
                    stderr,
                } && !from_checkout && stderr@ == outcome.stderr@
                &&& r matches CheckoutStep::Run(c) && c@ == git_op_args(
                    GitOp::BranchDelete { branch: old(self).branch@ },
                )
            }),
            old(self).state matches CheckoutState::CheckingOut { previous } ==> ({
                &&& outcome.ok ==> final(self).state is Complete && (r matches CheckoutStep::Finished(Ok(p)) && p@ == previous@)
                &&& !outcome.ok ==> ({
                    &&& final(self).state matches CheckoutState::DeletingAfterFailure {
                        from_checkout,
                        stderr,
                    } && from_checkout && stderr@ == outcome.stderr@
                    &&& r matches CheckoutStep::Run(c) && c@ == git_op_args(
                        GitOp::BranchDelete { branch: old(self).branch@ },
                    )
                })
            }),
            old(self).state matches CheckoutState::DeletingAfterFailure { from_checkout, stderr }
                ==> ({
                &&& final(self).state matches CheckoutState::RemovingAfterFailure {
                    from_checkout: fc,
                    stderr: st,
                } && fc == from_checkout && st@ == stderr@
                &&& r matches CheckoutStep::Run(c) && c@ == git_op_args(
                    GitOp::RemoteRemove { alias: old(self).remote@ },
                )
            }),
            old(self).state matches CheckoutState::RemovingAfterFailure { from_checkout, stderr }
                ==> ({
                &&& final(self).state is Complete
                &&& from_checkout ==> (r matches CheckoutStep::Finished(Err(
                    CheckoutError::CheckoutFailed { branch, remote, stderr: st },
                )) && branch@ == old(self).branch@ && remote@ == old(self).remote@ && st@
                    == stderr@)
                &&& !from_checkout ==> (r matches CheckoutStep::Finished(Err(
                    CheckoutError::NoCommits { stderr: st },
                )) && st@ == stderr@)
            }),
    {
        match &self.state {
            CheckoutState::QueryingCurrent => {
                if outcome.ok {
                    let previous = trim_end_str(outcome.stdout.as_str());
                    let cmd = git_checkout(self.branch.as_str());
                    self.state = CheckoutState::CheckingOut { previous };
                    CheckoutStep::Run(cmd)
                } else {
                    let cmd = git_branch_delete(self.branch.as_str());
                    self.state = CheckoutState::DeletingAfterFailure {
                        from_checkout: false,
                        stderr: outcome.stderr.clone(),
                    };
                    CheckoutStep::Run(cmd)
                }
            },
            CheckoutState::CheckingOut { previous } => {
                if outcome.ok {
                    let p = previous.clone();
                    self.state = CheckoutState::Complete;
                    CheckoutStep::Finished(Ok(p))
                } else {
                    let cmd = git_branch_delete(self.branch.as_str());
                    self.state = CheckoutState::DeletingAfterFailure {
                        from_checkout: true,
                        stderr: outcome.stderr.clone(),
                    };
                    CheckoutStep::Run(cmd)
                }
            },
            CheckoutState::DeletingAfterFailure { from_checkout, stderr } => {
                let fc = *from_checkout;
                let st = stderr.clone();
                let cmd = git_remote_remove(self.remote.as_str());
                self.state = CheckoutState::RemovingAfterFailure { from_checkout: fc, stderr: st };
                CheckoutStep::Run(cmd)
            },
            CheckoutState::RemovingAfterFailure { from_checkout, stderr } => {
                let err = if *from_checkout {
                    CheckoutError::CheckoutFailed {
                        branch: self.branch.clone(),
                        remote: self.remote.clone(),
                        stderr: stderr.clone(),
                    }
                } else {
                    CheckoutError::NoCommits { stderr: stderr.clone() }
                };
                self.state = CheckoutState::Complete;
                CheckoutStep::Finished(Err(err))
            },
            CheckoutState::Complete => {
                // Not reachable: the contract admits no call in this state.
                CheckoutStep::Finished(Err(CheckoutError::NoCommits { stderr: String::new() }))
            },
        }
    }
}



/// Where a squash merge of one local branch stands.
pub enum MergeState {
    /// The `merge --squash` command is out.
    Squashing,
    /// The squash succeeded; asking whether it staged anything.
    CheckingStaged,
    /// Changes are staged; the commit of the squash result is out.
    Committing,
    /// The squash failed; the `reset --hard` restoring the work tree is out.
    Resetting { stderr: String },
    /// Nothing further will be asked.
    Complete,
}

/// Why a squash merge did not complete.
#[derive(Debug)]
pub enum MergeError {
    /// The merge was not trivial. The work tree has been reset hard;
    /// resolution is deferred to the user and the merge is not retried.
    Conflict { local_branch: String, remote_branch: String, stderr: String },
    /// The squash staged changes but the commit of them failed.
    CommitFailed { stderr: String },
}

/// What the merge asks for next.
pub enum MergeStep {
    Run(GitCommand),
    Finished(Result<String, MergeError>),
}

/// Merges a local branch into the current branch with squash semantics and
/// commits the result when the squash staged anything; a merge that changes
/// nothing (already up to date) succeeds without a commit, and a conflict
/// resets the work tree and is reported, not resolved.
pub struct MergeMachine {
    pub local_branch: String,
    pub remote_branch: String,
    pub state: MergeState,
}

/// Starts a squash merge of `local_branch` into the current branch.
pub fn merge_into_main(local_branch: &str, remote_branch: &str) -> (r: (MergeMachine, GitCommand))
    ensures
        r.0.local_branch@ == local_branch@,
        r.0.remote_branch@ == remote_branch@,
        r.0.state is Squashing,
        r.1@ == git_op_args(GitOp::MergeSquash { branch: local_branch@ }),
{
    let machine = MergeMachine {
        local_branch: String::from_str(local_branch),
        remote_branch: String::from_str(remote_branch),
        state: MergeState::Squashing,
    };
    (machine, git_merge_squash(local_branch))
}

impl MergeMachine {
    /// Feeds the outcome of the last command in, and yields the next step.
    /// A success outcome of the staged-changes query means the squash staged
    /// nothing: the merge was a no-op, which is success without a commit.
    pub fn step(&mut self, outcome: &CmdOutcome) -> (r: MergeStep)
        requires
            !(old(self).state is Complete),
        ensures
            final(self).local_branch@ == old(self).local_branch@,
            final(self).remote_branch@ == old(self).remote_branch@,
            old(self).state is Squashing && outcome.ok ==> ({
                &&& final(self).state is CheckingStaged
                &&& r matches MergeStep::Run(c) && c@ == git_op_args(GitOp::DiffCachedQuiet)
            }),
            old(self).state is Squashing && !outcome.ok ==> ({
                &&& final(self).state matches MergeState::Resetting { stderr } && stderr@
                    == outcome.stderr@
                &&& r matches MergeStep::Run(c) && c@ == git_op_args(GitOp::ResetHard)
            }),
            old(self).state is CheckingStaged && outcome.ok ==> ({
                &&& final(self).state is Complete
                &&& r matches MergeStep::Finished(Ok(m)) && m@ == "Merged "@ + old(
                    self,
                ).remote_branch@ + " successfully"@
            }),
            old(self).state is CheckingStaged && !outcome.ok ==> ({
                &&& final(self).state is Committing
                &&& r matches MergeStep::Run(c) && c@ == git_op_args(
                    GitOp::CommitChange {
                        message: "patchy: Merge "@ + old(self).local_branch@,
                    },
                )
            }),
            old(self).state is Committing && outcome.ok ==> ({
                &&& final(self).state is Complete
                &&& r matches MergeStep::Finished(Ok(m)) && m@ == "Merged "@ + old(
                    self,
                ).remote_branch@ + " successfully"@
            }),
            old(self).state is Committing && !outcome.ok ==> ({
                &&& final(self).state is Complete
                &&& r matches MergeStep::Finished(Err(MergeError::CommitFailed { stderr })) && stderr@
                    == outcome.stderr@
            }),
            old(self).state matches MergeState::Resetting { stderr } ==> ({
                &&& final(self).state is Complete
                &&& r matches MergeStep::Finished(Err(
                    MergeError::Conflict { local_branch, remote_branch, stderr: st },
                )) && local_branch@ == old(self).local_branch@ && remote_branch@ == old(
                    self,
                ).remote_branch@ && st@ == stderr@
            }),
    {
        match &self.state {
            MergeState::Squashing => {
                if outcome.ok {
                    self.state = MergeState::CheckingStaged;
                    MergeStep::Run(git_diff_cached_quiet())
                } else {
                    self.state = MergeState::Resetting { stderr: outcome.stderr.clone() };
                    MergeStep::Run(git_reset_hard())
                }
            },
            MergeState::CheckingStaged => {
                if outcome.ok {
                    let mut m = String::from_str("Merged ");
                    m.append(self.remote_branch.as_str());
                    m.append(" successfully");
                    self.state = MergeState::Complete;
                    MergeStep::Finished(Ok(m))
                } else {
                    let mut message = String::from_str("patchy: Merge ");
                    message.append(self.local_branch.as_str());
                    self.state = MergeState::Committing;
                    MergeStep::Run(git_commit_message(message.as_str()))
                }
            },
            MergeState::Committing => {
                self.state = MergeState::Complete;
                if outcome.ok {
                    let mut m = String::from_str("Merged ");
                    m.append(self.remote_branch.as_str());
                    m.append(" successfully");
                    MergeStep::Finished(Ok(m))
                } else {
                    MergeStep::Finished(
                        Err(MergeError::CommitFailed { stderr: outcome.stderr.clone() }),
                    )
                }
            },
            MergeState::Resetting { stderr } => {
                let err = MergeError::Conflict {
                    local_branch: self.local_branch.clone(),
                    remote_branch: self.remote_branch.clone(),
                    stderr: stderr.clone(),
                };
                self.state = MergeState::Complete;
                MergeStep::Finished(Err(err))
            },
            MergeState::Complete => {
                // Not reachable: the contract admits no call in this state.
                MergeStep::Finished(Err(MergeError::CommitFailed { stderr: String::new() }))
            },
        }
    }
}

/// Where merging one resolved pull request stands.
pub enum MergePrState {
    /// The `merge --squash` of the pull request's branch is out.
    Squashing,
    /// The squash failed; the `reset --hard` is out.
    Resetting { stderr: String },
    /// The squash succeeded; asking whether it staged anything.
    CheckingStaged,
    /// Changes are staged; their commit, naming the pull request, is out.
    CommittingFinal,
    /// The ephemeral branch is being deleted.
    DeletingBranch,
    /// The ephemeral remote is being removed.
    RemovingRemote,
    /// Nothing further will be asked.
    Complete,
}

/// Why merging one pull request did not complete. Whatever the error, the
/// caller owns the cleanup of the pull request's remote and branch.
#[derive(Debug)]
pub enum MergePrError {
    /// The squash merge conflicted; work tree reset, the pull request is
    /// skipped.
    Merge { pull_request: String, title: String, url: String, err: MergeError },
    /// The squash staged changes but the commit of them failed.
    CommitFailed { stderr: String },
}

/// What the pull-request merge asks for next.
pub enum MergePrStep {
    Run(GitCommand),
    Finished(Result<(), MergePrError>),
}

/// Merges one fetched pull request into the current branch: squash, commit
/// the staged result when the squash staged anything (a no-op merge is a
/// success without a commit), then retire the ephemeral branch and remote.
pub struct MergePullRequestMachine {
    pub local_branch: String,
    pub upstream_branch: String,
    pub alias: String,
    pub pull_request: String,
    pub title: String,
    pub url: String,
    pub state: MergePrState,
}

/// Starts merging one fetched pull request.
pub fn merge_pull_request(info: &BranchAndRemote, pull_request: &str, pr_title: &str, pr_url: &str)
    -> (r: (MergePullRequestMachine, GitCommand))
    ensures
        r.0.local_branch@ == info.branch.local_branch_name@,
        r.0.upstream_branch@ == info.branch.upstream_branch_name@,
        r.0.alias@ == info.remote.local_remote_alias@,
        r.0.pull_request@ == pull_request@,
        r.0.title@ == pr_title@,
        r.0.url@ == pr_url@,
        r.0.state is Squashing,
        r.1@ == git_op_args(GitOp::MergeSquash { branch: info.branch.local_branch_name@ }),
{
    let machine = MergePullRequestMachine {
        local_branch: info.branch.local_branch_name.clone(),
        upstream_branch: info.branch.upstream_branch_name.clone(),
        alias: info.remote.local_remote_alias.clone(),
        pull_request: String::from_str(pull_request),
        title: String::from_str(pr_title),
        url: String::from_str(pr_url),
        state: MergePrState::Squashing,
    };
    let cmd = git_merge_squash(info.branch.local_branch_name.as_str());
    (machine, cmd)
}

impl MergePullRequestMachine {
    /// The names this merge was started with never change.
    pub open spec fn same_names(self, other: Self) -> bool {
        &&& self.local_branch@ == other.local_branch@
        &&& self.upstream_branch@ == other.upstream_branch@
        &&& self.alias@ == other.alias@
        &&& self.pull_request@ == other.pull_request@
        &&& self.title@ == other.title@
        &&& self.url@ == other.url@
    }

    /// Feeds the outcome of the last command in, and yields the next step.
    /// A success outcome of the staged-changes query means the squash staged
    /// nothing: the merge was a no-op, which is success without a commit.
    pub fn step(&mut self, outcome: &CmdOutcome) -> (r: MergePrStep)
        requires
            !(old(self).state is Complete),
        ensures
            old(self).same_names(*final(self)),
            old(self).state is Squashing && outcome.ok ==> ({
                &&& final(self).state is CheckingStaged
                &&& r matches MergePrStep::Run(c) && c@ == git_op_args(GitOp::DiffCachedQuiet)
            }),
            old(self).state is Squashing && !outcome.ok ==> ({
                &&& final(self).state matches MergePrState::Resetting { stderr } && stderr@
                    == outcome.stderr@
                &&& r matches MergePrStep::Run(c) && c@ == git_op_args(GitOp::ResetHard)
            }),
            old(self).state matches MergePrState::Resetting { stderr } ==> ({
                &&& final(self).state is Complete
                &&& r matches MergePrStep::Finished(Err(
                    MergePrError::Merge { pull_request, title, url, err },
                ))
                &&& pull_request@ == old(self).pull_request@
                &&& title@ == old(self).title@
                &&& url@ == old(self).url@
                &&& err matches MergeError::Conflict { local_branch, remote_branch, stderr: st }
                &&& local_branch@ == old(self).local_branch@
                &&& remote_branch@ == old(self).upstream_branch@
                &&& st@ == stderr@
            }),
            old(self).state is CheckingStaged && outcome.ok ==> ({
                &&& final(self).state is DeletingBranch
                &&& r matches MergePrStep::Run(c) && c@ == git_op_args(
                    GitOp::BranchDelete { branch: old(self).local_branch@ },
                )
            }),
            old(self).state is CheckingStaged && !outcome.ok ==> ({
                &&& final(self).state is CommittingFinal
                &&& r matches MergePrStep::Run(c) && c@ == git_op_args(
                    GitOp::CommitChange {
                        message: "patchy: auto-merge pull request "@ + replaced(
                            old(self).url@,
                            "github.com"@,
                            "redirect.github.com"@,
                        ),
                    },
                )
            }),
            old(self).state is CommittingFinal && outcome.ok ==> ({
                &&& final(self).state is DeletingBranch
                &&& r matches MergePrStep::Run(c) && c@ == git_op_args(
                    GitOp::BranchDelete { branch: old(self).local_branch@ },
                )
            }),
            old(self).state is CommittingFinal && !outcome.ok ==> ({
                &&& final(self).state is Complete
                &&& r matches MergePrStep::Finished(Err(MergePrError::CommitFailed { stderr }))
                    && stderr@ == outcome.stderr@
            }),
            old(self).state is DeletingBranch ==> ({
                &&& final(self).state is RemovingRemote
                &&& r matches MergePrStep::Run(c) && c@ == git_op_args(
                    GitOp::RemoteRemove { alias: old(self).alias@ },
                )
            }),
            old(self).state is RemovingRemote ==> ({
                &&& final(self).state is Complete
                &&& r == MergePrStep::Finished(Result::<(), MergePrError>::Ok(()))
            }),
    {
        match &self.state {
            MergePrState::Squashing => {
                if outcome.ok {
                    self.state = MergePrState::CheckingStaged;
                    MergePrStep::Run(git_diff_cached_quiet())
                } else {
                    self.state = MergePrState::Resetting { stderr: outcome.stderr.clone() };
                    MergePrStep::Run(git_reset_hard())
                }
            },
            MergePrState::Resetting { stderr } => {
                let err = MergePrError::Merge {
                    pull_request: self.pull_request.clone(),
                    title: self.title.clone(),
                    url: self.url.clone(),
                    err: MergeError::Conflict {
                        local_branch: self.local_branch.clone(),
                        remote_branch: self.upstream_branch.clone(),
                        stderr: stderr.clone(),
                    },
                };
                self.state = MergePrState::Complete;
                MergePrStep::Finished(Err(err))
            },
            MergePrState::CheckingStaged => {
                if outcome.ok {
                    let cmd = git_branch_delete(self.local_branch.as_str());
                    self.state = MergePrState::DeletingBranch;
                    MergePrStep::Run(cmd)
                } else {
                    proof {
                        reveal_strlit("github.com");
                    }
                    let redirected = replace_str(
                        self.url.as_str(),
                        "github.com",
                        "redirect.github.com",
                    );
                    let mut message = String::from_str("patchy: auto-merge pull request ");
                    message.append(redirected.as_str());
                    self.state = MergePrState::CommittingFinal;
                    MergePrStep::Run(git_commit_message(message.as_str()))
                }
            },
            MergePrState::CommittingFinal => {
                if outcome.ok {
                    let cmd = git_branch_delete(self.local_branch.as_str());
                    self.state = MergePrState::DeletingBranch;
                    MergePrStep::Run(cmd)
                } else {
                    self.state = MergePrState::Complete;
                    MergePrStep::Finished(
                        Err(MergePrError::CommitFailed { stderr: outcome.stderr.clone() }),
                    )
                }
            },
            MergePrState::DeletingBranch => {
                let cmd = git_remote_remove(self.alias.as_str());
                self.state = MergePrState::RemovingRemote;
                MergePrStep::Run(cmd)
            },
            MergePrState::RemovingRemote => {
                self.state = MergePrState::Complete;
                MergePrStep::Finished(Ok(()))
            },
            MergePrState::Complete => {
                // Not reachable: the contract admits no call in this state.
                MergePrStep::Finished(Ok(()))
            },
        }
    }
}

/// Where resolving and fetching one pull request stands.
pub enum FetchPrState {
    /// The metadata lookup is out with the external collaborator.
    RequestingMetadata,
    /// Probing for a free local branch name for the pull request's head.
    Probing { probe: BranchProbe, response: GitHubResponse },
    /// Fetching the head branch through an ephemeral remote.
    Materializing { mat: MaterializeMachine, response: GitHubResponse },
    /// Nothing further will be asked.
    Complete,
}

/// What the resolver is answered with: the metadata lookup's result, or the
/// outcome of a command it asked to run.
pub enum FetchPrEvent {
    Metadata(Result<GitHubResponse, String>),
    Cmd(CmdOutcome),
}

/// Why one pull request could not be fetched.
#[derive(Debug)]
pub enum FetchPrError {
    /// The metadata lookup failed; the detail carries the requested URL and
    /// the response body for diagnosis.
    Fetch { pull_request: String, detail: String },
    /// Every numbered candidate for the local branch name was taken.
    NoFreeBranchName { candidate: String },
    /// The ephemeral remote or branch could not be set up. The names are
    /// carried so the caller can retire whatever half survived: after a pin
    /// failure both the remote and the branch still exist.
    AddRemote { pull_request: String, alias: String, local_branch: String, err: MaterializeError },
}

/// What the resolver asks for next.
pub enum FetchPrStep {
    Request(String),
    Run(GitCommand),
    Finished(Result<(GitHubResponse, BranchAndRemote), FetchPrError>),
}

/// Resolves a pull request number to its head branch and fetches it: one
/// metadata lookup, then a free local branch name (the caller's choice, or
/// `<number>/<head-ref>` probed for availability), then the fetch itself
/// through a freshly aliased ephemeral remote.
pub struct FetchPullRequestMachine {
    pub repo: String,
    pub pull_request: String,
    pub custom_branch_name: Option<String>,
    pub commit_hash: Option<String>,
    pub state: FetchPrState,
}

/// The alias is the given base behind a fresh four-character random token
/// and a dash.
pub open spec fn uuid_alias(alias: Seq<char>, base: Seq<char>) -> bool {
    &&& alias.len() == base.len() + 5
    &&& alias.skip(5) == base
    &&& alias[4] == '-'
}

/// The URL the metadata for one pull request is requested from.
pub open spec fn pr_metadata_url(repo: Seq<char>, pull_request: Seq<char>) -> Seq<char> {
    "https://api.github.com/repos/"@ + repo + "/pulls/"@ + pull_request
}

/// Starts resolving one pull request; the first step asks the caller to
/// perform the metadata lookup.
pub fn fetch_pull_request(
    repo: &str,
    pull_request: &str,
    custom_branch_name: Option<&str>,
    commit_hash: &Option<String>,
) -> (r: (FetchPullRequestMachine, String))
    ensures
        r.0.repo@ == repo@,
        r.0.pull_request@ == pull_request@,
        custom_branch_name matches Some(c) ==> (r.0.custom_branch_name matches Some(b) && b@
            == c@),
        custom_branch_name is None ==> r.0.custom_branch_name is None,
        commit_hash matches Some(c) ==> (r.0.commit_hash matches Some(h) && h@ == c@),
        commit_hash is None ==> r.0.commit_hash is None,
        r.0.state is RequestingMetadata,
        r.1@ == pr_metadata_url(repo@, pull_request@),
{
    let machine = FetchPullRequestMachine {
        repo: String::from_str(repo),
        pull_request: String::from_str(pull_request),
        custom_branch_name: match custom_branch_name {
            Some(c) => Some(String::from_str(c)),
            None => None,
        },
        commit_hash: match commit_hash {
            Some(c) => Some(c.clone()),
            None => None,
        },
        state: FetchPrState::RequestingMetadata,
    };
    let mut url = String::from_str("https://api.github.com/repos/");
    url.append(repo);
    url.append("/pulls/");
    url.append(pull_request);
    (machine, url)
}

impl FetchPullRequestMachine {
    /// The base the ephemeral remote's alias is generated from: the
    /// pull request's browsable URL normalized, a dash, and its number.
    pub open spec fn alias_base(self, response: GitHubResponse) -> Seq<char> {
        response.html_url@.map(|i: int, c: char| normalized_char(c)) + "-"@ + self.pull_request@
    }

    /// Builds the ephemeral names for the fetched branch and starts the
    /// fetch itself.
    fn start_materialize(&mut self, response: GitHubResponse, local_branch: String) -> (r:
        FetchPrStep)
        ensures
            final(self).repo@ == old(self).repo@,
            final(self).pull_request@ == old(self).pull_request@,
            final(self).custom_branch_name == old(self).custom_branch_name,
            final(self).commit_hash == old(self).commit_hash,
            final(self).state matches FetchPrState::Materializing { mat, response: rsp } && ({
                &&& rsp == response
                &&& mat.inv()
                &&& mat.state is AddingRemote
                &&& mat.local@ == local_branch@
                &&& mat.upstream@ == response.head.ref_name@
                &&& mat.url@ == response.head.repo.clone_url@
                &&& uuid_alias(mat.alias@, old(self).alias_base(response))
                &&& mat.commit_pin == old(self).commit_hash
            }),
            r matches FetchPrStep::Run(c) && ({
                final(self).state matches FetchPrState::Materializing { mat, .. } && c@
                    == git_op_args(GitOp::RemoteAdd { alias: mat.alias@, url: mat.url@ })
            }),
    {
        let mut base = normalize_commit_msg(response.html_url.as_str());
        base.append("-");
        base.append(self.pull_request.as_str());
        let alias = with_uuid(base.as_str());
        let info = BranchAndRemote::new(
            local_branch.as_str(),
            response.head.ref_name.as_str(),
            alias.as_str(),
            response.head.repo.clone_url.as_str(),
        );
        let (mat, cmd) = add_remote_branch(&info, &self.commit_hash);
        self.state = FetchPrState::Materializing { mat, response };
        FetchPrStep::Run(cmd)
    }

    /// Holds throughout: an inner fetch that is being driven has not
    /// finished yet and keeps its own invariant.
    pub open spec fn inv(self) -> bool {
        self.state matches FetchPrState::Materializing { mat, .. } ==> (mat.inv() && !(mat.state
            is Complete))
    }

    /// Feeds one answer in, and yields the next step.
    pub fn step(&mut self, event: FetchPrEvent) -> (r: FetchPrStep)
        requires
            !(old(self).state is Complete),
            old(self).inv(),
            old(self).state is RequestingMetadata <==> event is Metadata,
        ensures
            final(self).inv(),
            final(self).repo@ == old(self).repo@,
            final(self).pull_request@ == old(self).pull_request@,
            final(self).custom_branch_name == old(self).custom_branch_name,
            final(self).commit_hash == old(self).commit_hash,
            event matches FetchPrEvent::Metadata(Err(d)) ==> ({
                &&& final(self).state is Complete
                &&& r matches FetchPrStep::Finished(Err(
                    FetchPrError::Fetch { pull_request, detail },
                )) && pull_request@ == old(self).pull_request@ && detail@ == d@
            }),
            event matches FetchPrEvent::Metadata(Ok(response)) ==> ({
                &&& old(self).custom_branch_name matches Some(custom) ==> ({
                    &&& final(self).state matches FetchPrState::Materializing { mat, response: rsp }
                    &&& rsp == response
                    &&& mat.state is AddingRemote
                    &&& mat.local@ == custom@
                    &&& mat.upstream@ == response.head.ref_name@
                    &&& mat.url@ == response.head.repo.clone_url@
                    &&& uuid_alias(mat.alias@, old(self).alias_base(response))
                    &&& mat.commit_pin == old(self).commit_hash
                    &&& r matches FetchPrStep::Run(c) && c@ == git_op_args(
                        GitOp::RemoteAdd { alias: mat.alias@, url: mat.url@ },
                    )
                })
                &&& old(self).custom_branch_name is None ==> ({
                    &&& final(self).state matches FetchPrState::Probing { probe, response: rsp }
                    &&& rsp == response
                    &&& probe.candidate@ == old(self).pull_request@ + "/"@
                        + response.head.ref_name@
                    &&& probe.next_number == 2
                    &&& probe.last_queried@ == probe.candidate@
                    &&& r matches FetchPrStep::Run(c) && c@ == git_op_args(
                        GitOp::RevParseVerify { name: probe.candidate@ },
                    )
                })
            }),
            event matches FetchPrEvent::Cmd(outcome) ==> (
            old(self).state matches FetchPrState::Probing { probe, response } ==> ({
                &&& !outcome.ok ==> ({
                    &&& final(self).state matches FetchPrState::Materializing { mat, response: rsp }
                    &&& rsp == response
                    &&& mat.state is AddingRemote
                    &&& mat.local@ == probe.last_queried@
                    &&& mat.upstream@ == response.head.ref_name@
                    &&& mat.url@ == response.head.repo.clone_url@
                    &&& uuid_alias(mat.alias@, old(self).alias_base(response))
                    &&& mat.commit_pin == old(self).commit_hash
                    &&& r matches FetchPrStep::Run(c) && c@ == git_op_args(
                        GitOp::RemoteAdd { alias: mat.alias@, url: mat.url@ },
                    )
                })
                &&& outcome.ok && probe.next_number < MAX_BRANCH_PROBES ==> ({
                    &&& final(self).state matches FetchPrState::Probing { probe: p2, response: rsp }
                    &&& rsp == response
                    &&& p2.candidate@ == probe.candidate@
                    &&& p2.next_number == probe.next_number + 1
                    &&& p2.last_queried@ == dec_rep(probe.next_number as int) + "-"@
                        + probe.candidate@
                    &&& r matches FetchPrStep::Run(c) && c@ == git_op_args(
                        GitOp::RevParseVerify { name: p2.last_queried@ },
                    )
                })
                &&& outcome.ok && probe.next_number >= MAX_BRANCH_PROBES ==> ({
                    &&& final(self).state is Complete
                    &&& r matches FetchPrStep::Finished(Err(
                        FetchPrError::NoFreeBranchName { candidate },
                    )) && candidate@ == probe.candidate@
                })
            })),
            event matches FetchPrEvent::Cmd(outcome) ==> (
            old(self).state matches FetchPrState::Materializing { mat, response } ==> ({
                &&& r matches FetchPrStep::Run(c) ==> ({
                    &&& final(self).state matches FetchPrState::Materializing {
                        mat: m2,
                        response: rsp,
                    }
                    &&& rsp == response
                    &&& materialize_step_rel(mat, m2, outcome, MaterializeStep::Run(c))
                })
                &&& r matches FetchPrStep::Finished(res) ==> ({
                    &&& final(self).state is Complete
                    &&& res matches Ok(pair) ==> ({
                        &&& pair.0 == response
                        &&& pair.1.branch.local_branch_name@ == mat.local@
                        &&& pair.1.branch.upstream_branch_name@ == mat.upstream@
                        &&& pair.1.remote.local_remote_alias@ == mat.alias@
                        &&& pair.1.remote.repository_url@ == mat.url@
                        &&& outcome.ok
                        &&& (mat.state is Fetching && mat.commit_pin is None) || mat.state
                            is Pinning
                    })
                    &&& res matches Err(e) ==> ({
                        &&& e matches FetchPrError::AddRemote {
                            pull_request,
                            alias,
                            local_branch,
                            err,
                        }
                        &&& pull_request@ == old(self).pull_request@
                        &&& alias@ == mat.alias@
                        &&& local_branch@ == mat.local@
                        &&& mat.state is AddingRemote && !outcome.ok
                            ==> err is RemoteAddFailed
                        &&& mat.state is RemovingAfterFetchFailure ==> (err matches
                            MaterializeError::BranchNotFound { upstream, url, .. } && upstream@
                            == mat.upstream@ && url@ == mat.url@)
                        &&& mat.state is Pinning && !outcome.ok ==> (err matches
                            MaterializeError::CommitNotFound { commit, branch, .. } && commit@
                            == mat.commit_pin->Some_0@ && branch@ == mat.local@)
                    })
                })
                &&& (r is Run || r is Finished)
                &&& (r is Run <==> ({
                    ||| mat.state is AddingRemote && outcome.ok
                    ||| mat.state is Fetching && outcome.ok && mat.commit_pin is Some
                    ||| mat.state is Fetching && !outcome.ok
                }))
                &&& r matches FetchPrStep::Finished(res2) ==> (res2 is Ok <==> (outcome.ok && ((
                mat.state is Fetching && mat.commit_pin is None) || mat.state is Pinning)))
            })),
    {
        match event {
            FetchPrEvent::Metadata(res) => {
                match res {
                    Err(detail) => {
                        self.state = FetchPrState::Complete;
                        FetchPrStep::Finished(
                            Err(
                                FetchPrError::Fetch {
                                    pull_request: self.pull_request.clone(),
                                    detail,
                                },
                            ),
                        )
                    },
                    Ok(response) => {
                        match &self.custom_branch_name {
                            Some(custom) => {
                                let local = custom.clone();
                                self.start_materialize(response, local)
                            },
                            None => {
                                let mut candidate = self.pull_request.clone();
                                candidate.append("/");
                                candidate.append(response.head.ref_name.as_str());
                                let (probe, cmd) = first_available_branch(candidate.as_str());
                                self.state = FetchPrState::Probing { probe, response };
                                FetchPrStep::Run(cmd)
                            },
                        }
                    },
                }
            },
            FetchPrEvent::Cmd(outcome) => {
                let state = core::mem::replace(&mut self.state, FetchPrState::Complete);
                match state {
                    FetchPrState::Probing { mut probe, response } => {
                        match probe.step(outcome.ok) {
                            ProbeStep::Run(cmd) => {
                                self.state = FetchPrState::Probing { probe, response };
                                FetchPrStep::Run(cmd)
                            },
                            ProbeStep::Available(name) => {
                                self.start_materialize(response, name)
                            },
                            ProbeStep::Exhausted => {
                                FetchPrStep::Finished(
                                    Err(
                                        FetchPrError::NoFreeBranchName {
                                            candidate: probe.candidate.clone(),
                                        },
                                    ),
                                )
                            },
                        }
                    },
                    FetchPrState::Materializing { mut mat, response } => {
                        // Not reachable: a driven fetch is never complete
                        // between steps, which the invariant demands.
                        if matches!(mat.state, MaterializeState::Complete) {
                            FetchPrStep::Finished(
                                Err(
                                    FetchPrError::AddRemote {
                                        pull_request: self.pull_request.clone(),
                                        alias: mat.alias.clone(),
                                        local_branch: mat.local.clone(),
                                        err: MaterializeError::RemoteAddFailed {
                                            stderr: String::new(),
                                        },
                                    },
                                ),
                            )
                        } else {
                            match mat.step(&outcome) {
                                MaterializeStep::Run(cmd) => {
                                    self.state = FetchPrState::Materializing { mat, response };
                                    FetchPrStep::Run(cmd)
                                },
                                MaterializeStep::Finished(Ok(())) => {
                                    let info = BranchAndRemote::new(
                                        mat.local.as_str(),
                                        mat.upstream.as_str(),
                                        mat.alias.as_str(),
                                        mat.url.as_str(),
                                    );
                                    FetchPrStep::Finished(Ok((response, info)))
                                },
                                MaterializeStep::Finished(Err(err)) => {
                                    FetchPrStep::Finished(
                                        Err(
                                            FetchPrError::AddRemote {
                                                pull_request: self.pull_request.clone(),
                                                alias: mat.alias.clone(),
                                                local_branch: mat.local.clone(),
                                                err,
                                            },
                                        ),
                                    )
                                },
                            }
                        }
                    },
                    _ => {
                        // Not reachable: a command outcome only arrives while
                        // probing or fetching, which the contract demands.
                        FetchPrStep::Finished(
                            Err(
                                FetchPrError::Fetch {
                                    pull_request: self.pull_request.clone(),
                                    detail: String::new(),
                                },
                            ),
                        )
                    },
                }
            },
        }
    }
}


} // verus!
