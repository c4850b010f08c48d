use patchy::git_commands::{get_git_output, trim_end_str};
use patchy::git::{CmdOutcome, GitCommand};
use patchy::pr_fetch::{extract_repo_from_origin, ignore_octothorpe, is_numeric_token};
use patchy::run::{parse_if_maybe_hash, patch_stem_exec};
use patchy::utils::{display_link, normalize_commit_msg, replace_str, with_uuid};

#[test]
fn octothorpe_is_stripped() {
    assert_eq!(ignore_octothorpe("#123"), "123");
    assert_eq!(ignore_octothorpe("123"), "123");
    assert_eq!(ignore_octothorpe(""), "");
    assert_eq!(ignore_octothorpe("##5"), "#5");
}

#[test]
fn hash_suffix_is_parsed() {
    let (name, hash) = parse_if_maybe_hash("main @ abc123", " @ ");
    assert_eq!(name, "main");
    assert_eq!(hash, Some("abc123".to_string()));

    let (name, hash) = parse_if_maybe_hash("main", " @ ");
    assert_eq!(name, "main");
    assert_eq!(hash, None);

    let (name, hash) = parse_if_maybe_hash("42@abc", "@");
    assert_eq!(name, "42");
    assert_eq!(hash, Some("abc".to_string()));
}

#[test]
fn repeated_separators_collapse_into_the_name() {
    let (name, hash) = parse_if_maybe_hash("a @ b @ c", " @ ");
    assert_eq!(name, "ab");
    assert_eq!(hash, Some("c".to_string()));
}

#[test]
fn commit_messages_are_normalized() {
    assert_eq!(normalize_commit_msg("Hello World"), "hello_world");
    assert_eq!(normalize_commit_msg("Fix: bug #7!"), "fix-_bug_-7-");
    assert_eq!(normalize_commit_msg("ABCxyz019"), "abcxyz019");
    assert_eq!(normalize_commit_msg(""), "");
}

#[test]
fn links_use_the_terminal_hyperlink_form() {
    assert_eq!(
        display_link("text", "https://example.com"),
        "\u{1b}]8;;https://example.com\u{1b}\\text\u{1b}]8;;\u{1b}\\"
    );
}

#[test]
fn uuid_prefix_has_the_promised_shape() {
    let name = with_uuid("main");
    assert_eq!(name.len(), "main".len() + 5);
    assert_eq!(&name[5..], "main");
    assert_eq!(name.as_bytes()[4], b'-');
    assert!(name[..4].bytes().all(|b| b.is_ascii_alphanumeric()));
}

#[test]
fn two_uuid_names_rarely_collide() {
    // Not a certainty, only a sanity check that the token is not constant.
    let tries: Vec<String> = (0..32).map(|_| with_uuid("x")).collect();
    let first = &tries[0];
    assert!(tries.iter().any(|t| t != first) || first.len() == 6);
}

#[test]
fn url_replacement_redirects_github() {
    assert_eq!(
        replace_str("https://github.com/o/r/pull/1", "github.com", "redirect.github.com"),
        "https://redirect.github.com/o/r/pull/1"
    );
    assert_eq!(replace_str("plain", "github.com", "x"), "plain");
}

#[test]
fn trailing_whitespace_is_trimmed() {
    assert_eq!(trim_end_str("main\n"), "main");
    assert_eq!(trim_end_str("out  \t\n"), "out");
    assert_eq!(trim_end_str(""), "");
    assert_eq!(trim_end_str("  a"), "  a");
}

#[test]
fn command_output_is_interpreted() {
    let cmd = GitCommand { args: vec!["rev-parse".to_string(), "HEAD".to_string()] };
    let ok = CmdOutcome { ok: true, stdout: "main\n".to_string(), stderr: String::new() };
    assert_eq!(get_git_output(&ok, cmd).unwrap(), "main");

    let cmd = GitCommand { args: vec!["status".to_string()] };
    let bad = CmdOutcome { ok: false, stdout: "o".to_string(), stderr: "e".to_string() };
    let err = get_git_output(&bad, cmd).unwrap_err();
    assert_eq!(err.args, vec!["status".to_string()]);
    assert_eq!(err.stdout, "o");
    assert_eq!(err.stderr, "e");
}

#[test]
fn patch_stems_drop_the_ending() {
    assert_eq!(patch_stem_exec("fix.patch"), "fix");
    assert_eq!(patch_stem_exec("a.b.patch"), "a.b");
    assert_eq!(patch_stem_exec("tiny"), "");
}

#[test]
fn numeric_tokens_are_recognized() {
    assert!(is_numeric_token("123"));
    assert!(!is_numeric_token("12a"));
    assert!(!is_numeric_token("1154@0b36296f"));
}

#[test]
fn origin_urls_yield_their_repository() {
    assert_eq!(
        extract_repo_from_origin("git@github.com:helix-editor/helix.git"),
        Some("helix-editor/helix".to_string())
    );
    assert_eq!(extract_repo_from_origin("https://github.com/o/r.git"), None);
    assert_eq!(extract_repo_from_origin("git@github.com:"), None);
}
