use vstd::prelude::*;

use crate::command_args::{args_contain, args_elems, CommandArgs};
use crate::utils::starts_with_str;

verus! {

/// A command-line flag: a short form, a long form, and the words the help
/// text prints for it. Value-carrying flags end in `=`, so that the value is
/// whatever follows the prefix.
pub struct Flag<'a> {
    pub short: &'a str,
    pub long: &'a str,
    pub description: &'a str,
}

/// What `extract_from_arg` yields: the suffix after the short form when that
/// form is a prefix of the argument, else the suffix after the long form when
/// that one is, else nothing.
pub open spec fn flag_extract(short: Seq<char>, long: Seq<char>, arg: Seq<char>) -> Option<
    Seq<char>,
> {
    if short.is_prefix_of(arg) {
        Some(arg.skip(short.len() as int))
    } else if long.is_prefix_of(arg) {
        Some(arg.skip(long.len() as int))
    } else {
        None
    }
}

impl<'a> Flag<'a> {
    /// Whether either form of the flag was given among the arguments.
    pub fn is_in_args(&self, args: &CommandArgs) -> (r: bool)
        ensures
            r == (args_elems(*args).contains(self.short@) || args_elems(*args).contains(
                self.long@,
            )),
    {
        args_contain(args, self.short) || args_contain(args, self.long)
    }

    /// Extracts the value out of an argument that matches this flag, if the
    /// argument starts with either the short or the long form.
    pub fn extract_from_arg(&self, arg: &str) -> (r: Option<String>)
        ensures
            r is Some <==> flag_extract(self.short@, self.long@, arg@) is Some,
            r is Some ==> r->Some_0@ == flag_extract(self.short@, self.long@, arg@)->Some_0,
    {
        let arg_len = arg.unicode_len();
        if starts_with_str(arg, self.short) {
            let p = self.short.unicode_len();
            Some(String::from_str(arg.substring_char(p, arg_len)))
        } else if starts_with_str(arg, self.long) {
            let p = self.long.unicode_len();
            Some(String::from_str(arg.substring_char(p, arg_len)))
        } else {
            None
        }
    }
}

/// Whether an argument starts with the short or the long form of a flag.
pub open spec fn flag_matches(f: Flag, arg: Seq<char>) -> bool {
    f.short@.is_prefix_of(arg) || f.long@.is_prefix_of(arg)
}

/// Checks whether an input argument matches one of the available flags: some
/// flag's short or long form must be a prefix of it.
pub fn is_valid_flag(arg: &str, available_flags: &[&Flag]) -> (r: bool)
    ensures
        r == exists|i: int|
            0 <= i < available_flags@.len() && #[trigger] flag_matches(*available_flags@[i], arg@),
{
    let n = available_flags.len();
    let mut i: usize = 0;
    while i < n
        invariant
            n == available_flags@.len(),
            0 <= i <= n,
            forall|j: int| 0 <= j < i ==> !#[trigger] flag_matches(*available_flags@[j], arg@),
        decreases n - i,
    {
        let f = available_flags[i];
        if starts_with_str(arg, f.short) || starts_with_str(arg, f.long) {
            assert(flag_matches(*available_flags@[i as int], arg@));
            return true;
        }
        assert(!flag_matches(*available_flags@[i as int], arg@));
        i = i + 1;
    }
    false
}

} // verus!
