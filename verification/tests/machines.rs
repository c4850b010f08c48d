use patchy::git::CmdOutcome;
use patchy::git_cmd::{
    add_remote_branch as plain_fetch, checkout, merge_into_main as merge_auto, AutoMergeError,
    AutoMergeStep, PlainCheckoutStep, PlainFetchStep,
};
use patchy::git_commands::{
    add_remote_branch, checkout_from_remote, clean_up_remote, first_available_branch,
    merge_into_main, merge_pull_request, CheckoutError, CheckoutStep, MaterializeError,
    MaterializeStep, MergeError, MergePrStep, MergeStep, ProbeStep,
};
use patchy::gen_patch::{gen_patch, GenPatchError, GenPatchStep};
use patchy::git_cmd::auto_merge_resolution_outcome;
use patchy::git_commands::first_available_branch_outcome;
use patchy::types::BranchAndRemote;

fn ok() -> CmdOutcome {
    CmdOutcome { ok: true, stdout: String::new(), stderr: String::new() }
}

fn ok_with(stdout: &str) -> CmdOutcome {
    CmdOutcome { ok: true, stdout: stdout.to_string(), stderr: String::new() }
}

fn fail_with(stderr: &str) -> CmdOutcome {
    CmdOutcome { ok: false, stdout: String::new(), stderr: stderr.to_string() }
}

fn args(c: &patchy::git::GitCommand) -> Vec<&str> {
    c.args.iter().map(|s| s.as_str()).collect()
}

fn demo_info() -> BranchAndRemote {
    BranchAndRemote::new("local-b", "feature-x", "alias-r", "https://github.com/o/r.git")
}

#[test]
fn materialize_runs_add_fetch_pin() {
    let pin = Some("abc123".to_string());
    let (mut m, first) = add_remote_branch(&demo_info(), &pin);
    assert_eq!(args(&first), ["remote", "add", "alias-r", "https://github.com/o/r.git"]);
    let step = m.step(&ok());
    match step {
        MaterializeStep::Run(c) => {
            assert_eq!(args(&c), ["fetch", "https://github.com/o/r.git", "feature-x:local-b"]);
        }
        _ => panic!("expected the fetch command"),
    }
    let step = m.step(&ok());
    match step {
        MaterializeStep::Run(c) => {
            assert_eq!(args(&c), ["branch", "--force", "local-b", "abc123"]);
        }
        _ => panic!("expected the pin command"),
    }
    match m.step(&ok()) {
        MaterializeStep::Finished(Ok(())) => {}
        _ => panic!("expected success"),
    }
}

#[test]
fn materialize_without_pin_skips_the_pin_step() {
    let (mut m, _) = add_remote_branch(&demo_info(), &None);
    m.step(&ok());
    match m.step(&ok()) {
        MaterializeStep::Finished(Ok(())) => {}
        _ => panic!("expected success without a pin step"),
    }
}

#[test]
fn materialize_fetch_failure_removes_the_remote() {
    let (mut m, _) = add_remote_branch(&demo_info(), &None);
    m.step(&ok());
    let step = m.step(&fail_with("no such ref"));
    match step {
        MaterializeStep::Run(c) => {
            assert_eq!(args(&c), ["remote", "remove", "alias-r"]);
        }
        _ => panic!("expected the remote removal"),
    }
    match m.step(&ok()) {
        MaterializeStep::Finished(Err(MaterializeError::BranchNotFound {
            upstream,
            url,
            stderr,
        })) => {
            assert_eq!(upstream, "feature-x");
            assert_eq!(url, "https://github.com/o/r.git");
            assert_eq!(stderr, "no such ref");
        }
        _ => panic!("expected the branch-not-found error"),
    }
}

#[test]
fn materialize_pin_failure_names_commit_and_branch() {
    let pin = Some("abc123".to_string());
    let (mut m, _) = add_remote_branch(&demo_info(), &pin);
    m.step(&ok());
    m.step(&ok());
    match m.step(&fail_with("unknown revision")) {
        MaterializeStep::Finished(Err(MaterializeError::CommitNotFound {
            commit,
            branch,
            ..
        })) => {
            assert_eq!(commit, "abc123");
            assert_eq!(branch, "local-b");
        }
        _ => panic!("expected the commit-not-found error"),
    }
}

#[test]
fn cleanup_issues_delete_then_remove() {
    let (delete, remove) = clean_up_remote("alias-r", "local-b");
    assert_eq!(args(&delete), ["branch", "--delete", "--force", "local-b"]);
    assert_eq!(args(&remove), ["remote", "remove", "alias-r"]);
}

#[test]
fn checkout_keeps_the_previous_branch_name() {
    let (mut m, first) = checkout_from_remote("local-b", "alias-r");
    assert_eq!(args(&first), ["rev-parse", "--abbrev-ref", "HEAD"]);
    let step = m.step(&ok_with("main\n"));
    match step {
        CheckoutStep::Run(c) => assert_eq!(args(&c), ["checkout", "local-b"]),
        _ => panic!("expected the checkout command"),
    }
    match m.step(&ok()) {
        CheckoutStep::Finished(Ok(previous)) => assert_eq!(previous, "main"),
        _ => panic!("expected the previous branch"),
    }
}

#[test]
fn checkout_failure_retires_branch_and_remote() {
    let (mut m, _) = checkout_from_remote("local-b", "alias-r");
    m.step(&ok_with("main"));
    let step = m.step(&fail_with("no worktree"));
    match step {
        CheckoutStep::Run(c) => assert_eq!(args(&c), ["branch", "--delete", "--force", "local-b"]),
        _ => panic!("expected the branch removal"),
    }
    let step = m.step(&ok());
    match step {
        CheckoutStep::Run(c) => assert_eq!(args(&c), ["remote", "remove", "alias-r"]),
        _ => panic!("expected the remote removal"),
    }
    match m.step(&ok()) {
        CheckoutStep::Finished(Err(CheckoutError::CheckoutFailed { branch, remote, .. })) => {
            assert_eq!(branch, "local-b");
            assert_eq!(remote, "alias-r");
        }
        _ => panic!("expected the checkout failure"),
    }
}

#[test]
fn empty_history_is_reported_as_no_commits() {
    let (mut m, _) = checkout_from_remote("local-b", "alias-r");
    m.step(&fail_with("HEAD is unknown"));
    m.step(&ok());
    match m.step(&ok()) {
        CheckoutStep::Finished(Err(CheckoutError::NoCommits { stderr })) => {
            assert_eq!(stderr, "HEAD is unknown");
        }
        _ => panic!("expected the no-commits error"),
    }
}

#[test]
fn squash_merge_commits_with_a_synthesized_message() {
    let (mut m, first) = merge_into_main("local-b", "feature-x");
    assert_eq!(args(&first), ["merge", "--squash", "local-b"]);
    let step = m.step(&ok());
    match step {
        MergeStep::Run(c) => assert_eq!(args(&c), ["diff", "--cached", "--quiet"]),
        _ => panic!("expected the staged-changes query"),
    }
    // A non-zero exit of the quiet diff means the squash staged changes.
    let step = m.step(&fail_with(""));
    match step {
        MergeStep::Run(c) => assert_eq!(args(&c), ["commit", "--message", "patchy: Merge local-b"]),
        _ => panic!("expected the commit"),
    }
    match m.step(&ok()) {
        MergeStep::Finished(Ok(message)) => assert_eq!(message, "Merged feature-x successfully"),
        _ => panic!("expected success"),
    }
}

#[test]
fn a_no_op_squash_succeeds_without_a_commit() {
    // An already-up-to-date branch: the squash succeeds but stages nothing,
    // which is success, not an error, and no commit is made.
    let (mut m, _) = merge_into_main("local-b", "feature-x");
    let step = m.step(&ok());
    match step {
        MergeStep::Run(c) => assert_eq!(args(&c), ["diff", "--cached", "--quiet"]),
        _ => panic!("expected the staged-changes query"),
    }
    match m.step(&ok()) {
        MergeStep::Finished(Ok(message)) => assert_eq!(message, "Merged feature-x successfully"),
        _ => panic!("expected success without a commit"),
    }
}

#[test]
fn squash_conflict_resets_the_work_tree() {
    let (mut m, _) = merge_into_main("local-b", "feature-x");
    let step = m.step(&fail_with("CONFLICT"));
    match step {
        MergeStep::Run(c) => assert_eq!(args(&c), ["reset", "--hard"]),
        _ => panic!("expected the hard reset"),
    }
    match m.step(&ok()) {
        MergeStep::Finished(Err(MergeError::Conflict { local_branch, remote_branch, stderr })) => {
            assert_eq!(local_branch, "local-b");
            assert_eq!(remote_branch, "feature-x");
            assert_eq!(stderr, "CONFLICT");
        }
        _ => panic!("expected the conflict"),
    }
}

#[test]
fn merged_pull_request_is_cleaned_up() {
    let (mut m, first) = merge_pull_request(
        &demo_info(),
        "42",
        "A title",
        "https://github.com/o/r/pull/42",
    );
    assert_eq!(args(&first), ["merge", "--squash", "local-b"]);
    let step = m.step(&ok());
    match step {
        MergePrStep::Run(c) => assert_eq!(args(&c), ["diff", "--cached", "--quiet"]),
        _ => panic!("expected the staged-changes query"),
    }
    // A clean exit means the squash staged nothing: no commit is made and
    // that is still a successful merge.
    let step = m.step(&ok());
    match step {
        MergePrStep::Run(c) => assert_eq!(args(&c), ["branch", "--delete", "--force", "local-b"]),
        _ => panic!("expected the branch removal"),
    }
    let step = m.step(&ok());
    match step {
        MergePrStep::Run(c) => assert_eq!(args(&c), ["remote", "remove", "alias-r"]),
        _ => panic!("expected the remote removal"),
    }
    match m.step(&ok()) {
        MergePrStep::Finished(Ok(())) => {}
        _ => panic!("expected success"),
    }
}

#[test]
fn staged_changes_are_committed_with_a_redirect_link() {
    let (mut m, _) = merge_pull_request(
        &demo_info(),
        "42",
        "A title",
        "https://github.com/o/r/pull/42",
    );
    m.step(&ok());
    // A non-zero exit of the quiet diff means the squash staged changes.
    let step = m.step(&fail_with(""));
    match step {
        MergePrStep::Run(c) => {
            assert_eq!(
                args(&c),
                [
                    "commit",
                    "--message",
                    "patchy: auto-merge pull request https://redirect.github.com/o/r/pull/42"
                ]
            )
        }
        _ => panic!("expected the auto-merge commit"),
    }
    let step = m.step(&ok());
    match step {
        MergePrStep::Run(c) => assert_eq!(args(&c), ["branch", "--delete", "--force", "local-b"]),
        _ => panic!("expected the branch removal"),
    }
    let step = m.step(&ok());
    match step {
        MergePrStep::Run(c) => assert_eq!(args(&c), ["remote", "remove", "alias-r"]),
        _ => panic!("expected the remote removal"),
    }
    match m.step(&ok()) {
        MergePrStep::Finished(Ok(())) => {}
        _ => panic!("expected success"),
    }
}

#[test]
fn first_available_branch_probes_numbered_names() {
    let (mut probe, first) = first_available_branch("42/feature-x");
    assert_eq!(args(&first), ["rev-parse", "--verify", "42/feature-x"]);
    // The name exists, so numbered candidates are probed.
    let step = probe.step(true);
    match step {
        ProbeStep::Run(c) => assert_eq!(args(&c), ["rev-parse", "--verify", "2-42/feature-x"]),
        _ => panic!("expected the second probe"),
    }
    let step = probe.step(true);
    match step {
        ProbeStep::Run(c) => assert_eq!(args(&c), ["rev-parse", "--verify", "3-42/feature-x"]),
        _ => panic!("expected the third probe"),
    }
    // rev-parse fails: the name is free and is returned unchanged.
    match probe.step(false) {
        ProbeStep::Available(name) => assert_eq!(name, "3-42/feature-x"),
        _ => panic!("expected the free name"),
    }
}

#[test]
fn an_unused_candidate_is_kept_as_it_is() {
    let (mut probe, _) = first_available_branch("fresh");
    match probe.step(false) {
        ProbeStep::Available(name) => assert_eq!(name, "fresh"),
        _ => panic!("expected the candidate itself"),
    }
}

#[test]
fn text_document_conflicts_are_resolved_from_ours() {
    let (mut m, first) = merge_auto("local-b", "feature-x");
    assert_eq!(args(&first), ["merge", "local-b", "--no-commit", "--no-ff"]);
    let step = m.step(&fail_with("CONFLICT"));
    match step {
        AutoMergeStep::Run(c) => assert_eq!(args(&c), ["diff", "--name-only", "--diff-filter=U"]),
        _ => panic!("expected the conflict listing"),
    }
    let step = m.step(&ok_with("README.md\ndocs/guide.md\n"));
    match step {
        AutoMergeStep::Run(c) => assert_eq!(args(&c), ["checkout", "--ours", "README.md"]),
        _ => panic!("expected our copy of the first document"),
    }
    let step = m.step(&ok());
    match step {
        AutoMergeStep::Run(c) => assert_eq!(args(&c), ["add", "README.md"]),
        _ => panic!("expected the staging of the first document"),
    }
    let step = m.step(&ok());
    match step {
        AutoMergeStep::Run(c) => assert_eq!(args(&c), ["checkout", "--ours", "docs/guide.md"]),
        _ => panic!("expected our copy of the second document"),
    }
    let step = m.step(&ok());
    match step {
        AutoMergeStep::Run(c) => assert_eq!(args(&c), ["add", "docs/guide.md"]),
        _ => panic!("expected the staging of the second document"),
    }
    match m.step(&ok()) {
        AutoMergeStep::Finished(Ok(_)) => {}
        _ => panic!("expected the merge to complete"),
    }
}

#[test]
fn other_conflicts_abort_the_merge() {
    let (mut m, _) = merge_auto("local-b", "feature-x");
    m.step(&fail_with("CONFLICT"));
    let step = m.step(&ok_with("src/main.rs\n"));
    match step {
        AutoMergeStep::Run(c) => assert_eq!(args(&c), ["merge", "--abort"]),
        _ => panic!("expected the abort"),
    }
    match m.step(&ok()) {
        AutoMergeStep::Finished(Err(AutoMergeError::UnresolvedConflict { file })) => {
            assert_eq!(file, "src/main.rs");
        }
        _ => panic!("expected the unresolved conflict"),
    }
}

#[test]
fn a_clean_auto_merge_succeeds_at_once() {
    let (mut m, _) = merge_auto("local-b", "feature-x");
    match m.step(&ok()) {
        AutoMergeStep::Finished(Ok(message)) => {
            assert_eq!(message, "Merged feature-x successfully")
        }
        _ => panic!("expected immediate success"),
    }
}

#[test]
fn merge_commits_cannot_become_patches() {
    let (mut m, first) = gen_patch("abcd", None, ".patchy");
    assert_eq!(args(&first), ["rev-parse", "abcd^2"]);
    // A second parent exists: the commit is a merge commit.
    match m.step(&ok_with("beef")) {
        GenPatchStep::Finished(Err(GenPatchError::MergeCommit { commit })) => {
            assert_eq!(commit, "abcd");
        }
        _ => panic!("expected the merge-commit refusal"),
    }
}

#[test]
fn patch_files_are_named_after_the_message() {
    let (mut m, _) = gen_patch("abcd", None, ".patchy");
    let step = m.step(&fail_with(""));
    match step {
        GenPatchStep::Run(c) => {
            assert_eq!(args(&c), ["log", "--format=%B", "--max-count=1", "abcd"])
        }
        _ => panic!("expected the message query"),
    }
    let step = m.step(&ok_with("Fix Stuff\n"));
    match step {
        GenPatchStep::Run(c) => {
            assert_eq!(
                args(&c),
                ["format-patch", "-1", "abcd", "--output", ".patchy/fix_stuff.patch"]
            )
        }
        _ => panic!("expected the patch to be written"),
    }
    match m.step(&ok()) {
        GenPatchStep::Finished(Ok(path)) => assert_eq!(path, ".patchy/fix_stuff.patch"),
        _ => panic!("expected the path back"),
    }
}

#[test]
fn custom_patch_names_are_used_as_given() {
    let (mut m, _) = gen_patch("abcd", Some("my-fix"), ".patchy");
    let step = m.step(&fail_with(""));
    match step {
        GenPatchStep::Run(c) => {
            assert_eq!(args(&c), ["format-patch", "-1", "abcd", "--output", ".patchy/my-fix.patch"])
        }
        _ => panic!("expected the patch to be written directly"),
    }
}

#[test]
fn a_rejected_remote_registration_creates_nothing_to_clean() {
    let (mut m, _) = add_remote_branch(&demo_info(), &None);
    match m.step(&fail_with("remote exists")) {
        MaterializeStep::Finished(Err(MaterializeError::RemoteAddFailed { stderr })) => {
            assert_eq!(stderr, "remote exists");
        }
        _ => panic!("expected the registration failure"),
    }
}

#[test]
fn a_failed_squash_commit_is_reported() {
    let (mut m, _) = merge_into_main("local-b", "feature-x");
    m.step(&ok());
    m.step(&fail_with(""));
    match m.step(&fail_with("index locked")) {
        MergeStep::Finished(Err(MergeError::CommitFailed { stderr })) => {
            assert_eq!(stderr, "index locked");
        }
        _ => panic!("expected the commit failure"),
    }
}

#[test]
fn a_conflicting_pull_request_is_skipped_with_context() {
    let (mut m, _) = merge_pull_request(
        &demo_info(),
        "42",
        "A title",
        "https://github.com/o/r/pull/42",
    );
    let step = m.step(&fail_with("CONFLICT"));
    match step {
        MergePrStep::Run(c) => assert_eq!(args(&c), ["reset", "--hard"]),
        _ => panic!("expected the hard reset"),
    }
    match m.step(&ok()) {
        MergePrStep::Finished(Err(patchy::git_commands::MergePrError::Merge {
            pull_request,
            title,
            url,
            err: MergeError::Conflict { local_branch, .. },
        })) => {
            assert_eq!(pull_request, "42");
            assert_eq!(title, "A title");
            assert_eq!(url, "https://github.com/o/r/pull/42");
            assert_eq!(local_branch, "local-b");
        }
        _ => panic!("expected the conflict with its context"),
    }
}

#[test]
fn an_unlistable_conflict_set_is_its_own_error() {
    let (mut m, _) = merge_auto("local-b", "feature-x");
    m.step(&fail_with("CONFLICT"));
    match m.step(&fail_with("broken index")) {
        AutoMergeStep::Finished(Err(AutoMergeError::ListFailed { stderr })) => {
            assert_eq!(stderr, "broken index");
        }
        _ => panic!("expected the listing failure"),
    }
}

#[test]
fn an_unwritable_patch_file_is_reported() {
    let (mut m, _) = gen_patch("abcd", Some("my-fix"), ".patchy");
    m.step(&fail_with(""));
    match m.step(&fail_with("permission denied")) {
        GenPatchStep::Finished(Err(GenPatchError::WriteFailed { commit, stderr })) => {
            assert_eq!(commit, "abcd");
            assert_eq!(stderr, "permission denied");
        }
        _ => panic!("expected the write failure"),
    }
}

#[test]
fn a_plain_fetch_rolls_back_the_failing_half() {
    let (mut m, first) = plain_fetch("alias-r", "local-b", "https://github.com/o/r.git", "main");
    assert_eq!(args(&first), ["remote", "add", "alias-r", "https://github.com/o/r.git"]);
    let step = m.step(&ok());
    match step {
        PlainFetchStep::Run(c) => {
            assert_eq!(args(&c), ["fetch", "https://github.com/o/r.git", "main:local-b"])
        }
        _ => panic!("expected the fetch"),
    }
    let step = m.step(&fail_with("no such ref"));
    match step {
        PlainFetchStep::Run(c) => assert_eq!(args(&c), ["branch", "--delete", "--force", "local-b"]),
        _ => panic!("expected the branch removal"),
    }
    match m.step(&ok()) {
        PlainFetchStep::Finished(Err(detail)) => assert_eq!(detail, "no such ref"),
        _ => panic!("expected the failure to carry the tool's words"),
    }
}

#[test]
fn a_plain_checkout_failure_retires_both_leavings() {
    let (mut m, first) = checkout("local-b", "alias-r");
    assert_eq!(args(&first), ["checkout", "local-b"]);
    let step = m.step(&fail_with("would clobber"));
    match step {
        PlainCheckoutStep::Run(c) => {
            assert_eq!(args(&c), ["branch", "--delete", "--force", "local-b"])
        }
        _ => panic!("expected the branch removal"),
    }
    let step = m.step(&ok());
    match step {
        PlainCheckoutStep::Run(c) => assert_eq!(args(&c), ["remote", "remove", "alias-r"]),
        _ => panic!("expected the remote removal"),
    }
    match m.step(&ok()) {
        PlainCheckoutStep::Finished(Err(detail)) => assert_eq!(detail, "would clobber"),
        _ => panic!("expected the failure"),
    }
}

#[test]
fn the_whole_probe_settles_on_the_smallest_free_number() {
    // The candidate and the next two numbered names are taken; "4-name" is free.
    let answers = vec![true, true, true, false];
    assert_eq!(
        first_available_branch_outcome("name", &answers),
        Some("4-name".to_string())
    );
    // The candidate itself is free.
    assert_eq!(
        first_available_branch_outcome("name", &vec![false]),
        Some("name".to_string())
    );
    // Every answered name is taken: no name is settled on.
    assert_eq!(first_available_branch_outcome("name", &vec![true, true]), None);
}

#[test]
fn the_whole_conflict_list_decides_the_merge() {
    let listing = |stdout: &str| CmdOutcome {
        ok: true,
        stdout: stdout.to_string(),
        stderr: String::new(),
    };
    // Every conflicted path is a text document: the merge completes.
    assert!(auto_merge_resolution_outcome("local-b", "feature-x", &listing("a.md\nb.md\n")).is_ok());
    // One path is not: the merge is aborted, naming that path.
    match auto_merge_resolution_outcome("local-b", "feature-x", &listing("a.md\nsrc/x.rs\nc.md\n")) {
        Err(AutoMergeError::UnresolvedConflict { file }) => assert_eq!(file, "src/x.rs"),
        _ => panic!("expected the abort with the offending path"),
    }
    // No conflicted path at all: the merge completes.
    assert!(auto_merge_resolution_outcome("local-b", "feature-x", &listing("")).is_ok());
}
