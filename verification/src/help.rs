use colored::Colorize;
use vstd::prelude::*;

verus! {

/// The painted text is the plain text, either bare or between the given
/// style prefix and the style-clearing suffix: which of the two comes out
/// depends on whether the terminal takes colors.
pub open spec fn maybe_styled(painted: Seq<char>, plain: Seq<char>, prefix: Seq<char>) -> bool {
    painted == plain || painted == prefix + plain + "\u{1b}[0m"@
}

/// Relies on colored's `bright_black` and its Display: the text unchanged
/// when colors are off, else between the bright-black style code and the
/// clearing code.
#[verifier::external_body]
fn paint_bright_black(s: &str) -> (r: String)
    requires
        forall|i: int| 0 <= i < s@.len() ==> s@[i] != '\u{1b}',
    ensures
        maybe_styled(r@, s@, "\u{1b}[90m"@),
{
    format!("{}", s.bright_black())
}

/// Relies on colored's `bright_yellow` and its Display: the text unchanged
/// when colors are off, else between the bright-yellow style code and the
/// clearing code.
#[verifier::external_body]
fn paint_bright_yellow(s: &str) -> (r: String)
    requires
        forall|i: int| 0 <= i < s@.len() ==> s@[i] != '\u{1b}',
    ensures
        maybe_styled(r@, s@, "\u{1b}[93m"@),
{
    format!("{}", s.bright_yellow())
}

/// One description line of the help text: a guillemet marker, then the
/// words.
pub fn format_description(description: &str) -> (r: String)
    ensures
        exists|marker: Seq<char>|
            #[trigger] maybe_styled(marker, "\u{bb}"@, "\u{1b}[90m"@) && r@ == marker + " "@
                + description@,
{
    proof {
        reveal_strlit("\u{bb}");
    }
    let mut r = paint_bright_black("\u{bb}");
    let ghost marker = r@;
    r.append(" ");
    r.append(description);
    assert(maybe_styled(marker, "\u{bb}"@, "\u{1b}[90m"@) && r@ == marker + " "@ + description@);
    r
}

/// One subcommand entry of the help text: the highlighted command name, a
/// line break with indentation, and its description line.
pub fn format_subcommand(command: &str, description: &str) -> (r: String)
    requires
        forall|i: int| 0 <= i < command@.len() ==> command@[i] != '\u{1b}',
    ensures
        exists|painted: Seq<char>, marker: Seq<char>|
            {
                &&& #[trigger] maybe_styled(painted, command@, "\u{1b}[93m"@)
                &&& #[trigger] maybe_styled(marker, "\u{bb}"@, "\u{1b}[90m"@)
                &&& r@ == painted + "\n    "@ + marker + " "@ + description@
            },
{
    let mut r = paint_bright_yellow(command);
    let ghost painted = r@;
    r.append("\n    ");
    let rest = format_description(description);
    r.append(rest.as_str());
    proof {
        let marker = choose|marker: Seq<char>|
            #[trigger] maybe_styled(marker, "\u{bb}"@, "\u{1b}[90m"@) && rest@ == marker + " "@
                + description@;
        assert(maybe_styled(painted, command@, "\u{1b}[93m"@) && maybe_styled(
            marker,
            "\u{bb}"@,
            "\u{1b}[90m"@,
        ) && r@ == painted + "\n    "@ + marker + " "@ + description@);
    }
    r
}

} // verus!
