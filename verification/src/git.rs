use vstd::prelude::*;

verus! {

/// One invocation of the external version-control tool, as structured data.
/// `git_op_args` says which argument vector each operation stands for.
pub enum GitOp {
    RemoteAdd { alias: Seq<char>, url: Seq<char> },
    RemoteRemove { alias: Seq<char> },
    FetchBranch { url: Seq<char>, upstream: Seq<char>, local: Seq<char> },
    BranchForce { branch: Seq<char>, commit: Seq<char> },
    BranchDelete { branch: Seq<char> },
    CheckoutBranch { branch: Seq<char> },
    CheckoutOurs { path: Seq<char> },
    RevParseVerify { name: Seq<char> },
    RemoteGetUrl { name: Seq<char> },
    CurrentBranchName,
    MergeSquash { branch: Seq<char> },
    MergeNoFastForward { branch: Seq<char> },
    MergeAbort,
    CommitChange { message: Seq<char> },
    ResetHard,
    DiffCachedQuiet,
    ListConflictedFiles,
    StagePath { path: Seq<char> },
    SwitchCreate { branch: Seq<char> },
    BranchMoveForce { from: Seq<char>, to: Seq<char> },
    ApplyPatchFile { path: Seq<char> },
    LastCommitMessage,
    RevParseSecondParent { commit: Seq<char> },
    LogMessageOf { commit: Seq<char> },
    FormatPatch { commit: Seq<char>, output: Seq<char> },
}

/// The exact arguments handed to the version-control tool for an operation.
pub open spec fn git_op_args(op: GitOp) -> Seq<Seq<char>> {
    match op {
        GitOp::RemoteAdd { alias, url } => seq!["remote"@, "add"@, alias, url],
        GitOp::RemoteRemove { alias } => seq!["remote"@, "remove"@, alias],
        GitOp::FetchBranch { url, upstream, local } => seq![
            "fetch"@,
            url,
            upstream + ":"@ + local,
        ],
        GitOp::BranchForce { branch, commit } => seq!["branch"@, "--force"@, branch, commit],
        GitOp::BranchDelete { branch } => seq!["branch"@, "--delete"@, "--force"@, branch],
        GitOp::CheckoutBranch { branch } => seq!["checkout"@, branch],
        GitOp::CheckoutOurs { path } => seq!["checkout"@, "--ours"@, path],
        GitOp::RevParseVerify { name } => seq!["rev-parse"@, "--verify"@, name],
        GitOp::RemoteGetUrl { name } => seq!["remote"@, "get-url"@, name],
        GitOp::CurrentBranchName => seq!["rev-parse"@, "--abbrev-ref"@, "HEAD"@],
        GitOp::MergeSquash { branch } => seq!["merge"@, "--squash"@, branch],
        GitOp::MergeNoFastForward { branch } => seq!["merge"@, branch, "--no-commit"@, "--no-ff"@],
        GitOp::MergeAbort => seq!["merge"@, "--abort"@],
        GitOp::CommitChange { message } => seq!["commit"@, "--message"@, message],
        GitOp::ResetHard => seq!["reset"@, "--hard"@],
        GitOp::DiffCachedQuiet => seq!["diff"@, "--cached"@, "--quiet"@],
        GitOp::ListConflictedFiles => seq!["diff"@, "--name-only"@, "--diff-filter=U"@],
        GitOp::StagePath { path } => seq!["add"@, path],
        GitOp::SwitchCreate { branch } => seq!["switch"@, "--create"@, branch],
        GitOp::BranchMoveForce { from, to } => seq!["branch"@, "--move"@, "--force"@, from, to],
        GitOp::ApplyPatchFile { path } => seq!["am"@, "--keep-cr"@, "--signoff"@, path],
        GitOp::LastCommitMessage => seq!["log"@, "-1"@, "--format=%B"@],
        GitOp::RevParseSecondParent { commit } => seq!["rev-parse"@, commit + "^2"@],
        GitOp::LogMessageOf { commit } => seq!["log"@, "--format=%B"@, "--max-count=1"@, commit],
        GitOp::FormatPatch { commit, output } => seq![
            "format-patch"@,
            "-1"@,
            commit,
            "--output"@,
            output,
        ],
    }
}

/// An operation that only reads repository state and changes nothing,
/// whatever its outcome.
pub open spec fn is_query_op(op: GitOp) -> bool {
    match op {
        GitOp::RevParseVerify { .. } => true,
        GitOp::RemoteGetUrl { .. } => true,
        GitOp::RevParseSecondParent { .. } => true,
        GitOp::LogMessageOf { .. } => true,
        GitOp::CurrentBranchName => true,
        GitOp::DiffCachedQuiet => true,
        GitOp::ListConflictedFiles => true,
        GitOp::LastCommitMessage => true,
        _ => false,
    }
}

/// An abstract repository: which remotes and branches exist, and which
/// branch is checked out. Work-tree and index contents are not tracked.
pub struct RepoModel {
    pub remotes: Set<Seq<char>>,
    pub branches: Set<Seq<char>>,
    pub current: Seq<char>,
}

/// How one operation changes the abstract repository, given whether the tool
/// reported success. Removing a remote leaves the alias absent either way:
/// the tool only refuses to remove an absent one. Deleting a branch is
/// refused while that branch is checked out, so it survives in that case;
/// otherwise it is absent afterwards, the only other refusal being absence.
pub open spec fn apply_git_op(st: RepoModel, op: GitOp, ok: bool) -> RepoModel {
    match op {
        GitOp::RemoteAdd { alias, .. } => if ok {
            RepoModel { remotes: st.remotes.insert(alias), ..st }
        } else {
            st
        },
        GitOp::RemoteRemove { alias } => RepoModel { remotes: st.remotes.remove(alias), ..st },
        GitOp::FetchBranch { local, .. } => if ok {
            RepoModel { branches: st.branches.insert(local), ..st }
        } else {
            st
        },
        GitOp::BranchDelete { branch } => if st.current == branch {
            st
        } else {
            RepoModel { branches: st.branches.remove(branch), ..st }
        },
        GitOp::CheckoutBranch { branch } => if ok {
            RepoModel { current: branch, ..st }
        } else {
            st
        },
        GitOp::SwitchCreate { branch } => if ok {
            RepoModel { branches: st.branches.insert(branch), current: branch, ..st }
        } else {
            st
        },
        GitOp::BranchMoveForce { from, to } => if ok {
            RepoModel {
                branches: st.branches.remove(from).insert(to),
                current: if st.current == from {
                    to
                } else {
                    st.current
                },
                ..st
            }
        } else {
            st
        },
        _ => st,
    }
}

/// A run of the tool: the operations in order, each with its outcome.
pub open spec fn apply_git_trace(st: RepoModel, tr: Seq<(GitOp, bool)>) -> RepoModel
    decreases tr.len(),
{
    if tr.len() == 0 {
        st
    } else {
        apply_git_trace(apply_git_op(st, tr[0].0, tr[0].1), tr.skip(1))
    }
}

/// A query changes nothing, whatever it answered.
pub proof fn lemma_query_preserves_repo(st: RepoModel, op: GitOp, ok: bool)
    requires
        is_query_op(op),
    ensures
        apply_git_op(st, op, ok) == st,
{
}

/// Appending one step to a trace applies it after the rest.
pub proof fn lemma_apply_trace_snoc(st: RepoModel, tr: Seq<(GitOp, bool)>, p: (GitOp, bool))
    ensures
        apply_git_trace(st, tr.push(p)) == apply_git_op(apply_git_trace(st, tr), p.0, p.1),
    decreases tr.len(),
{
    if tr.len() == 0 {
        let one = tr.push(p);
        assert(one[0] == p);
        assert(one.skip(1) =~= Seq::<(GitOp, bool)>::empty());
        assert(apply_git_trace(st, one) == apply_git_trace(
            apply_git_op(st, p.0, p.1),
            one.skip(1),
        ));
        assert(apply_git_trace(apply_git_op(st, p.0, p.1), one.skip(1)) == apply_git_op(
            st,
            p.0,
            p.1,
        ));
        assert(apply_git_trace(st, tr) == st);
    } else {
        assert(tr.push(p)[0] == tr[0]);
        assert(tr.push(p).skip(1) =~= tr.skip(1).push(p));
        lemma_apply_trace_snoc(apply_git_op(st, tr[0].0, tr[0].1), tr.skip(1), p);
        assert(apply_git_trace(st, tr.push(p)) == apply_git_trace(
            apply_git_op(st, tr[0].0, tr[0].1),
            tr.skip(1).push(p),
        ));
    }
}

/// Law: whatever a fetch attempt did to the repository, deleting the local
/// branch and removing the remote afterwards leaves no branch and no remote
/// under those names, whether or not either removal reported success — as
/// long as the branch being deleted is not the one checked out, which the
/// tool refuses to delete. Every cleanup the orchestrator issues runs while
/// some other branch is checked out.
pub proof fn lemma_materialize_then_cleanup(
    st: RepoModel,
    tr: Seq<(GitOp, bool)>,
    alias: Seq<char>,
    branch: Seq<char>,
    ok_delete: bool,
    ok_remove: bool,
)
    requires
        apply_git_trace(st, tr).current != branch,
    ensures
        ({
            let cleaned = tr.push((GitOp::BranchDelete { branch }, ok_delete)).push(
                (GitOp::RemoteRemove { alias }, ok_remove),
            );
            let end = apply_git_trace(st, cleaned);
            !end.branches.contains(branch) && !end.remotes.contains(alias)
        }),
{
    let with_delete = tr.push((GitOp::BranchDelete { branch }, ok_delete));
    lemma_apply_trace_snoc(st, tr, (GitOp::BranchDelete { branch }, ok_delete));
    lemma_apply_trace_snoc(st, with_delete, (GitOp::RemoteRemove { alias }, ok_remove));
}

/// One invocation of the external tool, ready to run: its argument vector.
pub struct GitCommand {
    pub args: Vec<String>,
}

impl View for GitCommand {
    type V = Seq<Seq<char>>;

    open spec fn view(&self) -> Seq<Seq<char>> {
        self.args.deep_view()
    }
}

/// What running a command reported back: whether the tool exited cleanly,
/// and what it printed on each stream.
pub struct CmdOutcome {
    pub ok: bool,
    pub stdout: String,
    pub stderr: String,
}

pub fn git_remote_add(alias: &str, url: &str) -> (c: GitCommand)
    ensures
        c@ == git_op_args(GitOp::RemoteAdd { alias: alias@, url: url@ }),
{
    let mut args: Vec<String> = Vec::new();
    args.push(String::from_str("remote"));
    args.push(String::from_str("add"));
    args.push(String::from_str(alias));
    args.push(String::from_str(url));
    let c = GitCommand { args };
    assert(c@ =~~= git_op_args(GitOp::RemoteAdd { alias: alias@, url: url@ }));
    c
}

pub fn git_remote_remove(alias: &str) -> (c: GitCommand)
    ensures
        c@ == git_op_args(GitOp::RemoteRemove { alias: alias@ }),
{
    let mut args: Vec<String> = Vec::new();
    args.push(String::from_str("remote"));
    args.push(String::from_str("remove"));
    args.push(String::from_str(alias));
    let c = GitCommand { args };
    assert(c@ =~~= git_op_args(GitOp::RemoteRemove { alias: alias@ }));
    c
}

pub fn git_fetch_branch(url: &str, upstream: &str, local: &str) -> (c: GitCommand)
    ensures
        c@ == git_op_args(
            GitOp::FetchBranch { url: url@, upstream: upstream@, local: local@ },
        ),
{
    let mut refspec = String::from_str(upstream);
    refspec.append(":");
    refspec.append(local);
    let mut args: Vec<String> = Vec::new();
    args.push(String::from_str("fetch"));
    args.push(String::from_str(url));
    args.push(refspec);
    let c = GitCommand { args };
    assert(c@ =~~= git_op_args(GitOp::FetchBranch { url: url@, upstream: upstream@, local: local@ }));
    c
}

pub fn git_branch_force(branch: &str, commit: &str) -> (c: GitCommand)
    ensures
        c@ == git_op_args(GitOp::BranchForce { branch: branch@, commit: commit@ }),
{
    let mut args: Vec<String> = Vec::new();
    args.push(String::from_str("branch"));
    args.push(String::from_str("--force"));
    args.push(String::from_str(branch));
    args.push(String::from_str(commit));
    let c = GitCommand { args };
    assert(c@ =~~= git_op_args(GitOp::BranchForce { branch: branch@, commit: commit@ }));
    c
}

pub fn git_branch_delete(branch: &str) -> (c: GitCommand)
    ensures
        c@ == git_op_args(GitOp::BranchDelete { branch: branch@ }),
{
    let mut args: Vec<String> = Vec::new();
    args.push(String::from_str("branch"));
    args.push(String::from_str("--delete"));
    args.push(String::from_str("--force"));
    args.push(String::from_str(branch));
    let c = GitCommand { args };
    assert(c@ =~~= git_op_args(GitOp::BranchDelete { branch: branch@ }));
    c
}

pub fn git_checkout(branch: &str) -> (c: GitCommand)
    ensures
        c@ == git_op_args(GitOp::CheckoutBranch { branch: branch@ }),
{
    let mut args: Vec<String> = Vec::new();
    args.push(String::from_str("checkout"));
    args.push(String::from_str(branch));
    let c = GitCommand { args };
    assert(c@ =~~= git_op_args(GitOp::CheckoutBranch { branch: branch@ }));
    c
}

pub fn git_checkout_ours(path: &str) -> (c: GitCommand)
    ensures
        c@ == git_op_args(GitOp::CheckoutOurs { path: path@ }),
{
    let mut args: Vec<String> = Vec::new();
    args.push(String::from_str("checkout"));
    args.push(String::from_str("--ours"));
    args.push(String::from_str(path));
    let c = GitCommand { args };
    assert(c@ =~~= git_op_args(GitOp::CheckoutOurs { path: path@ }));
    c
}

pub fn git_rev_parse_verify(name: &str) -> (c: GitCommand)
    ensures
        c@ == git_op_args(GitOp::RevParseVerify { name: name@ }),
{
    let mut args: Vec<String> = Vec::new();
    args.push(String::from_str("rev-parse"));
    args.push(String::from_str("--verify"));
    args.push(String::from_str(name));
    let c = GitCommand { args };
    assert(c@ =~~= git_op_args(GitOp::RevParseVerify { name: name@ }));
    c
}

pub fn git_remote_get_url(name: &str) -> (c: GitCommand)
    ensures
        c@ == git_op_args(GitOp::RemoteGetUrl { name: name@ }),
{
    let mut args: Vec<String> = Vec::new();
    args.push(String::from_str("remote"));
    args.push(String::from_str("get-url"));
    args.push(String::from_str(name));
    let c = GitCommand { args };
    assert(c@ =~~= git_op_args(GitOp::RemoteGetUrl { name: name@ }));
    c
}

pub fn git_current_branch() -> (c: GitCommand)
    ensures
        c@ == git_op_args(GitOp::CurrentBranchName),
{
    let mut args: Vec<String> = Vec::new();
    args.push(String::from_str("rev-parse"));
    args.push(String::from_str("--abbrev-ref"));
    args.push(String::from_str("HEAD"));
    let c = GitCommand { args };
    assert(c@ =~~= git_op_args(GitOp::CurrentBranchName));
    c
}

pub fn git_merge_squash(branch: &str) -> (c: GitCommand)
    ensures
        c@ == git_op_args(GitOp::MergeSquash { branch: branch@ }),
{
    let mut args: Vec<String> = Vec::new();
    args.push(String::from_str("merge"));
    args.push(String::from_str("--squash"));
    args.push(String::from_str(branch));
    let c = GitCommand { args };
    assert(c@ =~~= git_op_args(GitOp::MergeSquash { branch: branch@ }));
    c
}

pub fn git_merge_no_ff(branch: &str) -> (c: GitCommand)
    ensures
        c@ == git_op_args(GitOp::MergeNoFastForward { branch: branch@ }),
{
    let mut args: Vec<String> = Vec::new();
    args.push(String::from_str("merge"));
    args.push(String::from_str(branch));
    args.push(String::from_str("--no-commit"));
    args.push(String::from_str("--no-ff"));
    let c = GitCommand { args };
    assert(c@ =~~= git_op_args(GitOp::MergeNoFastForward { branch: branch@ }));
    c
}

pub fn git_merge_abort() -> (c: GitCommand)
    ensures
        c@ == git_op_args(GitOp::MergeAbort),
{
    let mut args: Vec<String> = Vec::new();
    args.push(String::from_str("merge"));
    args.push(String::from_str("--abort"));
    let c = GitCommand { args };
    assert(c@ =~~= git_op_args(GitOp::MergeAbort));
    c
}

pub fn git_commit_message(message: &str) -> (c: GitCommand)
    ensures
        c@ == git_op_args(GitOp::CommitChange { message: message@ }),
{
    let mut args: Vec<String> = Vec::new();
    args.push(String::from_str("commit"));
    args.push(String::from_str("--message"));
    args.push(String::from_str(message));
    let c = GitCommand { args };
    assert(c@ =~~= git_op_args(GitOp::CommitChange { message: message@ }));
    c
}

pub fn git_reset_hard() -> (c: GitCommand)
    ensures
        c@ == git_op_args(GitOp::ResetHard),
{
    let mut args: Vec<String> = Vec::new();
    args.push(String::from_str("reset"));
    args.push(String::from_str("--hard"));
    let c = GitCommand { args };
    assert(c@ =~~= git_op_args(GitOp::ResetHard));
    c
}

pub fn git_diff_cached_quiet() -> (c: GitCommand)
    ensures
        c@ == git_op_args(GitOp::DiffCachedQuiet),
{
    let mut args: Vec<String> = Vec::new();
    args.push(String::from_str("diff"));
    args.push(String::from_str("--cached"));
    args.push(String::from_str("--quiet"));
    let c = GitCommand { args };
    assert(c@ =~~= git_op_args(GitOp::DiffCachedQuiet));
    c
}

pub fn git_list_conflicted() -> (c: GitCommand)
    ensures
        c@ == git_op_args(GitOp::ListConflictedFiles),
{
    let mut args: Vec<String> = Vec::new();
    args.push(String::from_str("diff"));
    args.push(String::from_str("--name-only"));
    args.push(String::from_str("--diff-filter=U"));
    let c = GitCommand { args };
    assert(c@ =~~= git_op_args(GitOp::ListConflictedFiles));
    c
}

pub fn git_stage_path(path: &str) -> (c: GitCommand)
    ensures
        c@ == git_op_args(GitOp::StagePath { path: path@ }),
{
    let mut args: Vec<String> = Vec::new();
    args.push(String::from_str("add"));
    args.push(String::from_str(path));
    let c = GitCommand { args };
    assert(c@ =~~= git_op_args(GitOp::StagePath { path: path@ }));
    c
}

pub fn git_switch_create(branch: &str) -> (c: GitCommand)
    ensures
        c@ == git_op_args(GitOp::SwitchCreate { branch: branch@ }),
{
    let mut args: Vec<String> = Vec::new();
    args.push(String::from_str("switch"));
    args.push(String::from_str("--create"));
    args.push(String::from_str(branch));
    let c = GitCommand { args };
    assert(c@ =~~= git_op_args(GitOp::SwitchCreate { branch: branch@ }));
    c
}

pub fn git_branch_move_force(from: &str, to: &str) -> (c: GitCommand)
    ensures
        c@ == git_op_args(GitOp::BranchMoveForce { from: from@, to: to@ }),
{
    let mut args: Vec<String> = Vec::new();
    args.push(String::from_str("branch"));
    args.push(String::from_str("--move"));
    args.push(String::from_str("--force"));
    args.push(String::from_str(from));
    args.push(String::from_str(to));
    let c = GitCommand { args };
    assert(c@ =~~= git_op_args(GitOp::BranchMoveForce { from: from@, to: to@ }));
    c
}

pub fn git_apply_patch(path: &str) -> (c: GitCommand)
    ensures
        c@ == git_op_args(GitOp::ApplyPatchFile { path: path@ }),
{
    let mut args: Vec<String> = Vec::new();
    args.push(String::from_str("am"));
    args.push(String::from_str("--keep-cr"));
    args.push(String::from_str("--signoff"));
    args.push(String::from_str(path));
    let c = GitCommand { args };
    assert(c@ =~~= git_op_args(GitOp::ApplyPatchFile { path: path@ }));
    c
}

pub fn git_last_commit_message() -> (c: GitCommand)
    ensures
        c@ == git_op_args(GitOp::LastCommitMessage),
{
    let mut args: Vec<String> = Vec::new();
    args.push(String::from_str("log"));
    args.push(String::from_str("-1"));
    args.push(String::from_str("--format=%B"));
    let c = GitCommand { args };
    assert(c@ =~~= git_op_args(GitOp::LastCommitMessage));
    c
}


pub fn git_rev_parse_second_parent(commit: &str) -> (c: GitCommand)
    ensures
        c@ == git_op_args(GitOp::RevParseSecondParent { commit: commit@ }),
{
    let mut rev = String::from_str(commit);
    rev.append("^2");
    let mut args: Vec<String> = Vec::new();
    args.push(String::from_str("rev-parse"));
    args.push(rev);
    let c = GitCommand { args };
    assert(c@ =~~= git_op_args(GitOp::RevParseSecondParent { commit: commit@ }));
    c
}

pub fn git_log_message_of(commit: &str) -> (c: GitCommand)
    ensures
        c@ == git_op_args(GitOp::LogMessageOf { commit: commit@ }),
{
    let mut args: Vec<String> = Vec::new();
    args.push(String::from_str("log"));
    args.push(String::from_str("--format=%B"));
    args.push(String::from_str("--max-count=1"));
    args.push(String::from_str(commit));
    let c = GitCommand { args };
    assert(c@ =~~= git_op_args(GitOp::LogMessageOf { commit: commit@ }));
    c
}

pub fn git_format_patch(commit: &str, output: &str) -> (c: GitCommand)
    ensures
        c@ == git_op_args(GitOp::FormatPatch { commit: commit@, output: output@ }),
{
    let mut args: Vec<String> = Vec::new();
    args.push(String::from_str("format-patch"));
    args.push(String::from_str("-1"));
    args.push(String::from_str(commit));
    args.push(String::from_str("--output"));
    args.push(String::from_str(output));
    let c = GitCommand { args };
    assert(c@ =~~= git_op_args(GitOp::FormatPatch { commit: commit@, output: output@ }));
    c
}


} // verus!
