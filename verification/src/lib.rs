pub mod backup;
pub mod command_args;
pub mod flags;
pub mod gen_patch;
pub mod git;
pub mod git_cmd;
pub mod git_commands;
pub mod help;
pub mod pr_fetch;
pub mod run;
pub mod types;
pub mod utils;

use vstd::prelude::*;

verus! {

/// Name of the directory, at the repository root, that holds the user's
/// configuration and patch files.
pub fn config_root() -> (r: String)
    ensures
        r@ == ".patchy"@,
{
    String::from_str(".patchy")
}

/// Name of the configuration file inside the configuration directory.
pub fn config_file() -> (r: String)
    ensures
        r@ == "config.toml"@,
{
    String::from_str("config.toml")
}

/// Name of the application, used as a prefix in synthesized commit messages.
pub fn app_name() -> (r: String)
    ensures
        r@ == "patchy"@,
{
    String::from_str("patchy")
}

} // verus!
