use patchy::backup::BackupEntry;
use patchy::git::CmdOutcome;
use patchy::git_commands::{
    fetch_pull_request, CheckoutError, FetchPrError, FetchPrEvent, FetchPrStep, MaterializeError,
};
use patchy::run::{run, RunAction, RunError, RunEvent};
use patchy::types::{BranchAndRemote, Configuration, GitHubResponse, Head, Repo};

fn ok() -> CmdOutcome {
    CmdOutcome { ok: true, stdout: String::new(), stderr: String::new() }
}

fn cmd_ok() -> RunEvent {
    RunEvent::Cmd(ok())
}

fn args(c: &patchy::git::GitCommand) -> Vec<&str> {
    c.args.iter().map(|s| s.as_str()).collect()
}

fn demo_config(pull_requests: Vec<&str>) -> Configuration {
    Configuration {
        local_branch: "patched".to_string(),
        patches: None,
        pull_requests: pull_requests.into_iter().map(|s| s.to_string()).collect(),
        remote_branch: "main".to_string(),
        repo: "octo/demo".to_string(),
    }
}

fn demo_response() -> GitHubResponse {
    GitHubResponse {
        head: Head {
            repo: Repo { clone_url: "https://github.com/fork/demo.git".to_string() },
            ref_name: "feature-x".to_string(),
        },
        title: "A feature".to_string(),
        html_url: "https://github.com/octo/demo/pull/42".to_string(),
    }
}

#[test]
fn an_empty_repo_is_rejected_before_anything_runs() {
    let mut config = demo_config(vec![]);
    config.repo = String::new();
    let (_, action) = run(config, ".patchy".to_string(), false);
    match action {
        RunAction::Finished(Err(RunError::EmptyRepo)) => {}
        _ => panic!("expected the empty-repo refusal"),
    }
}

#[test]
fn a_failed_snapshot_stops_the_run() {
    let (mut m, action) = run(demo_config(vec![]), ".patchy".to_string(), false);
    assert!(matches!(action, RunAction::Snapshot));
    match m.step(RunEvent::SnapshotDone(Err("unreadable".to_string()))) {
        RunAction::Finished(Err(RunError::BackupFailed { detail })) => {
            assert_eq!(detail, "unreadable");
        }
        _ => panic!("expected the backup failure"),
    }
}

#[test]
fn a_full_run_reaches_the_rename_with_consent() {
    // One pull request, no pins, an empty configuration directory.
    let (mut m, action) = run(demo_config(vec!["42"]), ".patchy".to_string(), false);
    assert!(matches!(action, RunAction::Snapshot));

    // The snapshot is empty; the upstream branch is fetched next.
    let action = m.step(RunEvent::SnapshotDone(Ok(vec![])));
    let upstream_alias;
    let upstream_branch;
    match action {
        RunAction::Materialize(mat, c) => {
            let a = args(&c);
            assert_eq!(a[0], "remote");
            assert_eq!(a[1], "add");
            assert_eq!(a[3], "https://github.com/octo/demo.git");
            assert!(a[2].ends_with("-octo/demo"));
            upstream_alias = mat.alias.clone();
            upstream_branch = mat.local.clone();
            assert!(upstream_branch.ends_with("-main"));
            assert_eq!(mat.upstream, "main");
            assert!(mat.commit_pin.is_none());
        }
        _ => panic!("expected the upstream fetch"),
    }

    // Fetched; the fresh branch is checked out.
    let action = m.step(RunEvent::Materialized(Ok(())));
    match action {
        RunAction::Checkout(cm, c) => {
            assert_eq!(args(&c), ["rev-parse", "--abbrev-ref", "HEAD"]);
            assert_eq!(cm.branch, upstream_branch);
            assert_eq!(cm.remote, upstream_alias);
        }
        _ => panic!("expected the checkout"),
    }

    // Checked out; pull request 42 is resolved.
    let action = m.step(RunEvent::CheckedOut(Ok("main".to_string())));
    match action {
        RunAction::FetchPr(fm, url) => {
            assert_eq!(url, "https://api.github.com/repos/octo/demo/pulls/42");
            assert_eq!(fm.pull_request, "42");
            assert!(fm.commit_hash.is_none());
        }
        _ => panic!("expected the pull-request resolution"),
    }

    // Resolved; its branch is merged.
    let pr_info = BranchAndRemote::new(
        "42/feature-x",
        "feature-x",
        "pr-alias",
        "https://github.com/fork/demo.git",
    );
    let action = m.step(RunEvent::PrFetched(Ok((demo_response(), pr_info))));
    match action {
        RunAction::MergePr(mm, c) => {
            assert_eq!(args(&c), ["merge", "--squash", "42/feature-x"]);
            assert_eq!(mm.local_branch, "42/feature-x");
            assert_eq!(mm.alias, "pr-alias");
            assert_eq!(mm.pull_request, "42");
        }
        _ => panic!("expected the merge"),
    }

    // Merged; no pull request is left, so the directory is recreated.
    let action = m.step(RunEvent::PrMerged(Ok(())));
    assert!(matches!(action, RunAction::CreateDir));

    // Nothing was captured, so nothing is written back; stage and commit.
    let action = m.step(RunEvent::DirCreated(true));
    match action {
        RunAction::Git(c) => assert_eq!(args(&c), ["add", ".patchy"]),
        _ => panic!("expected the staging"),
    }
    let action = m.step(cmd_ok());
    match action {
        RunAction::Git(c) => assert_eq!(args(&c), ["diff", "--cached", "--quiet"]),
        _ => panic!("expected the staged-changes query"),
    }
    // A non-zero exit means something is staged, so the restore is committed.
    let staged = CmdOutcome { ok: false, stdout: String::new(), stderr: String::new() };
    let action = m.step(RunEvent::Cmd(staged));
    match action {
        RunAction::Git(c) => {
            assert_eq!(args(&c), ["commit", "--message", "patchy: Restore configuration files"])
        }
        _ => panic!("expected the restore commit"),
    }

    // The temporary branch is created and the upstream ephemera retired.
    let temporary;
    let action = m.step(cmd_ok());
    match action {
        RunAction::Git(c) => {
            let a = args(&c);
            assert_eq!(a[0], "switch");
            assert_eq!(a[1], "--create");
            assert!(a[2].ends_with("-temp-branch"));
            temporary = a[2].to_string();
        }
        _ => panic!("expected the temporary branch"),
    }
    let action = m.step(cmd_ok());
    match action {
        RunAction::Git(c) => {
            assert_eq!(
                args(&c),
                ["branch", "--delete", "--force", upstream_branch.as_str()]
            )
        }
        _ => panic!("expected the upstream branch removal"),
    }
    let action = m.step(cmd_ok());
    match action {
        RunAction::Git(c) => assert_eq!(args(&c), ["remote", "remove", upstream_alias.as_str()]),
        _ => panic!("expected the upstream remote removal"),
    }

    // Consent is asked for, and given.
    let action = m.step(cmd_ok());
    match action {
        RunAction::Confirm { prompt } => {
            assert_eq!(prompt, "Overwrite branch patched? This is irreversible.");
        }
        _ => panic!("expected the confirmation"),
    }
    let action = m.step(RunEvent::Answer(true));
    match action {
        RunAction::Git(c) => {
            assert_eq!(args(&c), ["branch", "--move", "--force", temporary.as_str(), "patched"])
        }
        _ => panic!("expected the rename"),
    }
    match m.step(cmd_ok()) {
        RunAction::Finished(Ok(())) => {}
        _ => panic!("expected the run to succeed"),
    }
}

#[test]
fn a_bad_pin_is_reported_and_the_run_continues() {
    // The pull request pins an unreachable commit: the pin failure names
    // both the commit and the branch, the leftovers are retired, and the
    // run continues to the directory restoration.
    let (mut m, _) = run(demo_config(vec!["42@abc123"]), ".patchy".to_string(), true);
    m.step(RunEvent::SnapshotDone(Ok(vec![])));
    m.step(RunEvent::Materialized(Ok(())));
    let action = m.step(RunEvent::CheckedOut(Ok("main".to_string())));
    match action {
        RunAction::FetchPr(fm, _) => {
            assert_eq!(fm.pull_request, "42");
            assert_eq!(fm.commit_hash, Some("abc123".to_string()));
        }
        _ => panic!("expected the pull-request resolution"),
    }
    let failure = FetchPrError::AddRemote {
        pull_request: "42".to_string(),
        alias: "pr-alias".to_string(),
        local_branch: "42/feature-x".to_string(),
        err: MaterializeError::CommitNotFound {
            commit: "abc123".to_string(),
            branch: "42/feature-x".to_string(),
            stderr: "unknown revision".to_string(),
        },
    };
    let action = m.step(RunEvent::PrFetched(Err(failure)));
    match action {
        RunAction::Git(c) => {
            assert_eq!(args(&c), ["branch", "--delete", "--force", "42/feature-x"])
        }
        _ => panic!("expected the leftover branch removal"),
    }
    let action = m.step(cmd_ok());
    match action {
        RunAction::Git(c) => assert_eq!(args(&c), ["remote", "remove", "pr-alias"]),
        _ => panic!("expected the leftover remote removal"),
    }
    // No pull request is left: the run continues, it does not abort.
    let action = m.step(cmd_ok());
    assert!(matches!(action, RunAction::CreateDir));
}

#[test]
fn captured_files_are_restored_and_named_patches_applied() {
    let mut config = demo_config(vec![]);
    config.patches = Some(vec!["fix".to_string()]);
    let (mut m, _) = run(config, ".patchy".to_string(), true);
    let backups = vec![
        BackupEntry { file_name: "config.toml".to_string(), contents: "a = 1".to_string() },
        BackupEntry { file_name: "fix.patch".to_string(), contents: "diff".to_string() },
    ];
    m.step(RunEvent::SnapshotDone(Ok(backups)));
    m.step(RunEvent::Materialized(Ok(())));
    let action = m.step(RunEvent::CheckedOut(Ok("main".to_string())));
    assert!(matches!(action, RunAction::CreateDir));
    let action = m.step(RunEvent::DirCreated(true));
    match action {
        RunAction::WriteFile { file_name, contents } => {
            assert_eq!(file_name, "config.toml");
            assert_eq!(contents, "a = 1");
        }
        _ => panic!("expected the first file"),
    }
    // "config.toml" is no named patch; "fix.patch" is.
    let action = m.step(RunEvent::FileWritten(true));
    match action {
        RunAction::WriteFile { file_name, .. } => assert_eq!(file_name, "fix.patch"),
        _ => panic!("expected the second file"),
    }
    let action = m.step(RunEvent::FileWritten(true));
    match action {
        RunAction::Git(c) => {
            assert_eq!(args(&c), ["am", "--keep-cr", "--signoff", ".patchy/fix.patch"])
        }
        _ => panic!("expected the patch application"),
    }
    let action = m.step(cmd_ok());
    match action {
        RunAction::Git(c) => assert_eq!(args(&c), ["log", "-1", "--format=%B"]),
        _ => panic!("expected the message of the applied patch"),
    }
    let action = m.step(cmd_ok());
    match action {
        RunAction::Git(c) => assert_eq!(args(&c), ["add", ".patchy"]),
        _ => panic!("expected the staging"),
    }
}

#[test]
fn a_failed_restore_rolls_back_and_is_fatal() {
    let (mut m, _) = run(demo_config(vec![]), ".patchy".to_string(), true);
    let backups = vec![BackupEntry {
        file_name: "config.toml".to_string(),
        contents: String::new(),
    }];
    m.step(RunEvent::SnapshotDone(Ok(backups)));
    m.step(RunEvent::Materialized(Ok(())));
    m.step(RunEvent::CheckedOut(Ok("main".to_string())));
    m.step(RunEvent::DirCreated(true));
    // The write fails: the previous branch comes back and the upstream
    // ephemera are retired before the error is reported.
    let action = m.step(RunEvent::FileWritten(false));
    match action {
        RunAction::Git(c) => assert_eq!(args(&c), ["checkout", "main"]),
        _ => panic!("expected the previous branch to come back"),
    }
    let action = m.step(cmd_ok());
    match action {
        RunAction::Git(c) => assert_eq!(args(&c)[0..3], ["branch", "--delete", "--force"]),
        _ => panic!("expected the upstream branch removal"),
    }
    let action = m.step(cmd_ok());
    match action {
        RunAction::Git(c) => assert_eq!(args(&c)[0..2], ["remote", "remove"]),
        _ => panic!("expected the upstream remote removal"),
    }
    match m.step(cmd_ok()) {
        RunAction::Finished(Err(RunError::RestoreFailed { file_name })) => {
            assert_eq!(file_name, "config.toml");
        }
        _ => panic!("expected the restore failure"),
    }
}

#[test]
fn a_failed_directory_recreation_rolls_everything_back() {
    let (mut m, _) = run(demo_config(vec![]), ".patchy".to_string(), true);
    m.step(RunEvent::SnapshotDone(Ok(vec![])));
    let upstream;
    let alias;
    {
        let action = m.step(RunEvent::Materialized(Ok(())));
        match action {
            RunAction::Checkout(cm, _) => {
                upstream = cm.branch.clone();
                alias = cm.remote.clone();
            }
            _ => panic!("expected the checkout"),
        }
    }
    m.step(RunEvent::CheckedOut(Ok("previous".to_string())));
    let action = m.step(RunEvent::DirCreated(false));
    match action {
        RunAction::Git(c) => assert_eq!(args(&c), ["checkout", "previous"]),
        _ => panic!("expected the previous branch to come back"),
    }
    let action = m.step(cmd_ok());
    match action {
        RunAction::Git(c) => {
            assert_eq!(args(&c), ["branch", "--delete", "--force", upstream.as_str()])
        }
        _ => panic!("expected the upstream branch removal"),
    }
    let action = m.step(cmd_ok());
    match action {
        RunAction::Git(c) => assert_eq!(args(&c), ["remote", "remove", alias.as_str()]),
        _ => panic!("expected the upstream remote removal"),
    }
    match m.step(cmd_ok()) {
        RunAction::Finished(Err(RunError::DirCreateFailed)) => {}
        _ => panic!("expected the fatal abort"),
    }
}

#[test]
fn declining_the_overwrite_keeps_the_temporary_branch() {
    let (mut m, _) = run(demo_config(vec![]), ".patchy".to_string(), false);
    m.step(RunEvent::SnapshotDone(Ok(vec![])));
    m.step(RunEvent::Materialized(Ok(())));
    m.step(RunEvent::CheckedOut(Ok("main".to_string())));
    m.step(RunEvent::DirCreated(true));
    m.step(cmd_ok());
    m.step(cmd_ok());
    m.step(cmd_ok());
    m.step(cmd_ok());
    let action = m.step(cmd_ok());
    assert!(matches!(action, RunAction::Confirm { .. }));
    match m.step(RunEvent::Answer(false)) {
        RunAction::Finished(Err(RunError::Declined { temporary_branch, local_branch })) => {
            // The temporary branch persists under its generated name and the
            // target branch is untouched; the caller exits non-zero.
            assert!(temporary_branch.ends_with("-temp-branch"));
            assert_eq!(local_branch, "patched");
        }
        _ => panic!("expected the decline"),
    }
}

#[test]
fn upstream_fetch_failure_aborts_before_any_pull_request() {
    let (mut m, _) = run(demo_config(vec!["42"]), ".patchy".to_string(), true);
    m.step(RunEvent::SnapshotDone(Ok(vec![])));
    let failure = MaterializeError::BranchNotFound {
        upstream: "main".to_string(),
        url: "https://github.com/octo/demo.git".to_string(),
        stderr: "not found".to_string(),
    };
    // The leftovers are retired, then the run aborts; pull request 42 is
    // never resolved.
    let action = m.step(RunEvent::Materialized(Err(failure)));
    match action {
        RunAction::Git(c) => assert_eq!(args(&c)[0..3], ["branch", "--delete", "--force"]),
        _ => panic!("expected the branch removal"),
    }
    let action = m.step(cmd_ok());
    match action {
        RunAction::Git(c) => assert_eq!(args(&c)[0..2], ["remote", "remove"]),
        _ => panic!("expected the remote removal"),
    }
    match m.step(cmd_ok()) {
        RunAction::Finished(Err(RunError::UpstreamFetch { .. })) => {}
        _ => panic!("expected the fatal upstream failure"),
    }
}

#[test]
fn pull_requests_are_resolved_through_one_metadata_lookup() {
    let (mut m, url) = fetch_pull_request("octo/demo", "42", None, &None);
    assert_eq!(url, "https://api.github.com/repos/octo/demo/pulls/42");
    // The head ref is probed for a free local name first.
    let action = m.step(FetchPrEvent::Metadata(Ok(demo_response())));
    match action {
        FetchPrStep::Run(c) => assert_eq!(args(&c), ["rev-parse", "--verify", "42/feature-x"]),
        _ => panic!("expected the name probe"),
    }
    // The name is free; the ephemeral remote is registered.
    let action = m.step(FetchPrEvent::Cmd(CmdOutcome {
        ok: false,
        stdout: String::new(),
        stderr: String::new(),
    }));
    match action {
        FetchPrStep::Run(c) => {
            let a = args(&c);
            assert_eq!(a[0], "remote");
            assert_eq!(a[1], "add");
            assert_eq!(a[3], "https://github.com/fork/demo.git");
            // The alias carries the normalized browsable URL and the number.
            assert!(a[2].ends_with("-https---github-com-octo-demo-pull-42-42"));
        }
        _ => panic!("expected the remote registration"),
    }
    let action = m.step(FetchPrEvent::Cmd(ok()));
    match action {
        FetchPrStep::Run(c) => {
            assert_eq!(
                args(&c),
                ["fetch", "https://github.com/fork/demo.git", "feature-x:42/feature-x"]
            )
        }
        _ => panic!("expected the fetch"),
    }
    match m.step(FetchPrEvent::Cmd(ok())) {
        FetchPrStep::Finished(Ok((resp, info))) => {
            assert_eq!(resp.title, "A feature");
            assert_eq!(info.branch.local_branch_name, "42/feature-x");
            assert_eq!(info.branch.upstream_branch_name, "feature-x");
            assert_eq!(info.remote.repository_url, "https://github.com/fork/demo.git");
        }
        _ => panic!("expected the resolved pull request"),
    }
}

#[test]
fn a_failed_lookup_names_the_pull_request() {
    let (mut m, _) = fetch_pull_request("octo/demo", "42", None, &None);
    let action = m.step(FetchPrEvent::Metadata(Err("404".to_string())));
    match action {
        FetchPrStep::Finished(Err(FetchPrError::Fetch { pull_request, detail })) => {
            assert_eq!(pull_request, "42");
            assert_eq!(detail, "404");
        }
        _ => panic!("expected the lookup failure"),
    }
}

#[test]
fn a_custom_branch_name_skips_the_probe() {
    let (mut m, _) = fetch_pull_request("octo/demo", "42", Some("mine"), &None);
    let action = m.step(FetchPrEvent::Metadata(Ok(demo_response())));
    match action {
        FetchPrStep::Run(c) => {
            let a = args(&c);
            assert_eq!(a[0], "remote");
            assert_eq!(a[1], "add");
        }
        _ => panic!("expected the remote registration without a probe"),
    }
    let action = m.step(FetchPrEvent::Cmd(ok()));
    match action {
        FetchPrStep::Run(c) => {
            assert_eq!(
                args(&c),
                ["fetch", "https://github.com/fork/demo.git", "feature-x:mine"]
            )
        }
        _ => panic!("expected the fetch into the chosen name"),
    }
}

#[test]
fn a_failed_upstream_checkout_is_fatal() {
    let (mut m, _) = run(demo_config(vec![]), ".patchy".to_string(), true);
    m.step(RunEvent::SnapshotDone(Ok(vec![])));
    m.step(RunEvent::Materialized(Ok(())));
    let failure = CheckoutError::NoCommits { stderr: "HEAD is unknown".to_string() };
    match m.step(RunEvent::CheckedOut(Err(failure))) {
        RunAction::Finished(Err(RunError::UpstreamCheckout { .. })) => {}
        _ => panic!("expected the fatal checkout failure"),
    }
}

#[test]
fn a_failed_restore_commit_rolls_back_and_is_fatal() {
    let (mut m, _) = run(demo_config(vec![]), ".patchy".to_string(), true);
    m.step(RunEvent::SnapshotDone(Ok(vec![])));
    m.step(RunEvent::Materialized(Ok(())));
    m.step(RunEvent::CheckedOut(Ok("main".to_string())));
    m.step(RunEvent::DirCreated(true));
    // Staging worked and changes are staged, but the commit fails: the
    // previous branch comes back and the upstream ephemera are retired
    // before the error is reported.
    m.step(cmd_ok());
    let staged = CmdOutcome { ok: false, stdout: String::new(), stderr: String::new() };
    m.step(RunEvent::Cmd(staged));
    let failed = CmdOutcome { ok: false, stdout: String::new(), stderr: "boom".to_string() };
    let action = m.step(RunEvent::Cmd(failed));
    match action {
        RunAction::Git(c) => assert_eq!(args(&c), ["checkout", "main"]),
        _ => panic!("expected the previous branch to come back"),
    }
    m.step(cmd_ok());
    m.step(cmd_ok());
    match m.step(cmd_ok()) {
        RunAction::Finished(Err(RunError::CommandFailed { stderr })) => {
            assert_eq!(stderr, "boom");
        }
        _ => panic!("expected the fatal command failure"),
    }
}

#[test]
fn both_cleanup_halves_run_even_when_the_first_fails() {
    let (mut m, _) = run(demo_config(vec![]), ".patchy".to_string(), true);
    m.step(RunEvent::SnapshotDone(Ok(vec![])));
    m.step(RunEvent::Materialized(Ok(())));
    m.step(RunEvent::CheckedOut(Ok("main".to_string())));
    m.step(RunEvent::DirCreated(true));
    m.step(cmd_ok());
    m.step(cmd_ok());
    m.step(cmd_ok());
    // The branch deletion fails, yet the remote removal is still issued.
    let failed = CmdOutcome { ok: false, stdout: String::new(), stderr: "in use".to_string() };
    let action = m.step(RunEvent::Cmd(failed));
    match action {
        RunAction::Git(c) => assert_eq!(args(&c)[0..2], ["remote", "remove"]),
        _ => panic!("expected the remote removal to still run"),
    }
    match m.step(cmd_ok()) {
        RunAction::Finished(Err(RunError::CleanupFailed { stderr })) => {
            assert_eq!(stderr, "in use");
        }
        _ => panic!("expected the aggregated cleanup failure"),
    }
}

#[test]
fn an_exhausted_name_probe_gives_the_pull_request_up() {
    let (mut m, _) = fetch_pull_request("octo/demo", "42", None, &None);
    let mut action = m.step(FetchPrEvent::Metadata(Ok(demo_response())));
    // Every candidate is taken; after the cap the pull request is given up.
    loop {
        match action {
            FetchPrStep::Run(_) => {
                action = m.step(FetchPrEvent::Cmd(ok()));
            }
            FetchPrStep::Finished(Err(FetchPrError::NoFreeBranchName { candidate })) => {
                assert_eq!(candidate, "42/feature-x");
                break;
            }
            _ => panic!("expected only probes and the final surrender"),
        }
    }
}

#[test]
fn an_empty_restore_succeeds_without_a_commit() {
    // An empty snapshot restores nothing, so the staging stages nothing and
    // no restore commit is made; the run still goes on to succeed.
    let (mut m, _) = run(demo_config(vec![]), ".patchy".to_string(), true);
    m.step(RunEvent::SnapshotDone(Ok(vec![])));
    m.step(RunEvent::Materialized(Ok(())));
    m.step(RunEvent::CheckedOut(Ok("main".to_string())));
    let action = m.step(RunEvent::DirCreated(true));
    match action {
        RunAction::Git(c) => assert_eq!(args(&c), ["add", ".patchy"]),
        _ => panic!("expected the staging"),
    }
    let action = m.step(cmd_ok());
    match action {
        RunAction::Git(c) => assert_eq!(args(&c), ["diff", "--cached", "--quiet"]),
        _ => panic!("expected the staged-changes query"),
    }
    // A clean exit: nothing is staged, so the temporary branch comes next.
    let action = m.step(cmd_ok());
    match action {
        RunAction::Git(c) => {
            let a = args(&c);
            assert_eq!(a[0], "switch");
            assert_eq!(a[1], "--create");
        }
        _ => panic!("expected the temporary branch, with no commit in between"),
    }
    m.step(cmd_ok());
    m.step(cmd_ok());
    // With the yes flag the rename runs straight away, and the run succeeds.
    let action = m.step(cmd_ok());
    match action {
        RunAction::Git(c) => assert_eq!(args(&c)[0..3], ["branch", "--move", "--force"]),
        _ => panic!("expected the rename"),
    }
    match m.step(cmd_ok()) {
        RunAction::Finished(Ok(())) => {}
        _ => panic!("expected the run to succeed"),
    }
}
