use vstd::prelude::*;

use crate::utils::{char_numeric, is_numeric_char, starts_with_str};

verus! {

/// A pull-request token without its optional leading `#`.
pub open spec fn octo_stripped(t: Seq<char>) -> Seq<char> {
    if t.len() > 0 && t[0] == '#' {
        t.skip(1)
    } else {
        t
    }
}

/// Strips one leading `#` from a pull-request token, so that users may write
/// either `#123` or `123`.
pub fn ignore_octothorpe(arg: &str) -> (r: String)
    ensures
        r@ == octo_stripped(arg@),
{
    let n = arg.unicode_len();
    if n > 0 && arg.get_char(0) == '#' {
        String::from_str(arg.substring_char(1, n))
    } else {
        arg.to_owned()
    }
}


/// Whether the whole token is made of numeric characters, as a pull-request
/// number must be; an empty token counts.
pub fn is_numeric_token(s: &str) -> (r: bool)
    ensures
        r == forall|i: int| 0 <= i < s@.len() ==> char_numeric(#[trigger] s@[i]),
{
    let n = s.unicode_len();
    let mut i: usize = 0;
    while i < n
        invariant
            n == s@.len(),
            0 <= i <= n,
            forall|j: int| 0 <= j < i ==> char_numeric(#[trigger] s@[j]),
        decreases n - i,
    {
        if !is_numeric_char(s.get_char(i)) {
            return false;
        }
        i = i + 1;
    }
    true
}

/// The `owner/name` part of an `origin` remote URL of the
/// `git@github.com:owner/name.git` form, when the URL has that form.
pub fn extract_repo_from_origin(remote: &str) -> (r: Option<String>)
    ensures
        ({
            let prefix = "git@github.com:"@;
            let suffix = ".git"@;
            &&& (prefix.is_prefix_of(remote@) && suffix.is_suffix_of(remote@) && remote@.len()
                >= prefix.len() + suffix.len()) <==> r is Some
            &&& r matches Some(repo) ==> repo@ == remote@.subrange(
                prefix.len() as int,
                remote@.len() - suffix.len(),
            )
        }),
{
    proof {
        reveal_strlit("git@github.com:");
        reveal_strlit(".git");
    }
    let prefix = "git@github.com:";
    let suffix = ".git";
    let n = remote.unicode_len();
    let pl = prefix.unicode_len();
    let sl = suffix.unicode_len();
    if n < pl + sl {
        return None;
    }
    if !starts_with_str(remote, prefix) {
        return None;
    }
    let mut i: usize = 0;
    while i < sl
        invariant
            n == remote@.len(),
            sl == suffix@.len(),
            sl <= n,
            0 <= i <= sl,
            suffix@ == ".git"@,
            forall|j: int| 0 <= j < i ==> remote@[n - sl + j] == suffix@[j],
        decreases sl - i,
    {
        if remote.get_char(n - sl + i) != suffix.get_char(i) {
            proof {
                if ".git"@.is_suffix_of(remote@) {
                    assert(remote@.skip(n - sl as int) =~= ".git"@);
                }
            }
            return None;
        }
        i = i + 1;
    }
    assert(remote@.skip(n - sl as int) =~= ".git"@);
    assert(".git"@.is_suffix_of(remote@));
    Some(String::from_str(remote.substring_char(pl, n - sl)))
}


} // verus!
