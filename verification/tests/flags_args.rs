use patchy::command_args::{args_contain, args_get, args_insert, args_len, args_new};
use patchy::flags::{is_valid_flag, Flag};
use patchy::git_commands::is_valid_branch_name;

#[test]
fn values_are_extracted_after_either_prefix() {
    let my_flag = Flag { short: "-r=", long: "--remote-name=", description: "some flag" };
    assert_eq!(my_flag.extract_from_arg("--remote-name=abc"), Some("abc".to_string()));
    assert_eq!(my_flag.extract_from_arg("-r=abcdefg"), Some("abcdefg".to_string()));
    assert_eq!(my_flag.extract_from_arg("-m=abcdefg"), None);
    assert_eq!(my_flag.extract_from_arg("-r="), Some(String::new()));
}

#[test]
fn flag_validity_means_some_known_prefix() {
    let name = Flag { short: "-b=", long: "--branch-name=", description: "" };
    let checkout = Flag { short: "-c", long: "--checkout", description: "" };
    let flags: Vec<&Flag> = vec![&name, &checkout];
    assert!(is_valid_flag("--branch-name=x", &flags));
    assert!(is_valid_flag("-c", &flags));
    assert!(!is_valid_flag("--unknown", &flags));
}

#[test]
fn argument_sets_keep_order_and_reject_duplicates() {
    let mut args = args_new();
    assert!(args_insert(&mut args, "run".to_string()));
    assert!(args_insert(&mut args, "--yes".to_string()));
    assert!(!args_insert(&mut args, "run".to_string()));
    assert_eq!(args_len(&args), 2);
    assert_eq!(args_get(&args, 0).map(|s| s.as_str()), Some("run"));
    assert_eq!(args_get(&args, 1).map(|s| s.as_str()), Some("--yes"));
    assert_eq!(args_get(&args, 2), None);
    assert!(args_contain(&args, "--yes"));
    assert!(!args_contain(&args, "--no"));
}

#[test]
fn flags_are_found_among_arguments() {
    let yes = Flag { short: "-y", long: "--yes", description: "" };
    let mut args = args_new();
    args_insert(&mut args, "run".to_string());
    assert!(!yes.is_in_args(&args));
    args_insert(&mut args, "--yes".to_string());
    assert!(yes.is_in_args(&args));
}

#[test]
fn branch_names_allow_only_safe_characters() {
    assert!(is_valid_branch_name("feature/x-1.2_ok"));
    assert!(is_valid_branch_name(""));
    assert!(!is_valid_branch_name("bad name"));
    assert!(!is_valid_branch_name("what?"));
}
