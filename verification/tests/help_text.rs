use patchy::help::{format_description, format_subcommand};

#[test]
fn descriptions_carry_the_marker() {
    let d = format_description("words");
    assert!(d.ends_with(" words"));
    assert!(d.contains('\u{bb}'));
}

#[test]
fn subcommands_put_their_description_on_an_indented_line() {
    let s = format_subcommand("init", "Create example config file");
    assert!(s.contains("init"));
    assert!(s.contains("\n    "));
    assert!(s.ends_with(" Create example config file"));
}
