use vstd::prelude::*;

verus! {

/// The user's configuration, as the configuration file gives it. The
/// `patches` names are kept as a list; their order carries no meaning, only
/// membership is ever asked.
pub struct Configuration {
    pub local_branch: String,
    pub patches: Option<Vec<String>>,
    pub pull_requests: Vec<String>,
    pub remote_branch: String,
    pub repo: String,
}

/// What the pull-request metadata lookup answers: the head ref, the head
/// repository's clone URL, the title and a browsable URL.
pub struct GitHubResponse {
    pub head: Head,
    pub title: String,
    pub html_url: String,
}

/// The head of a pull request: which branch of which repository it is.
pub struct Head {
    pub repo: Repo,
    pub ref_name: String,
}

/// The repository a pull request's head branch lives in.
pub struct Repo {
    pub clone_url: String,
}

/// A fetched branch: the name it has here and the name it has upstream.
pub struct Branch {
    pub local_branch_name: String,
    pub upstream_branch_name: String,
}

/// An ephemeral remote: the alias it is registered under here and the URL it
/// points at.
pub struct Remote {
    pub local_remote_alias: String,
    pub repository_url: String,
}

/// The pair of ephemeral objects one fetch creates.
pub struct BranchAndRemote {
    pub branch: Branch,
    pub remote: Remote,
}

impl BranchAndRemote {
    /// Bundles the four names of one fetch.
    pub fn new(local_branch: &str, remote_branch: &str, local_remote: &str, remote_remote: &str)
        -> (r: Self)
        ensures
            r.branch.local_branch_name@ == local_branch@,
            r.branch.upstream_branch_name@ == remote_branch@,
            r.remote.local_remote_alias@ == local_remote@,
            r.remote.repository_url@ == remote_remote@,
    {
        let branch = Branch {
            local_branch_name: String::from_str(local_branch),
            upstream_branch_name: String::from_str(remote_branch),
        };
        let remote = Remote {
            local_remote_alias: String::from_str(local_remote),
            repository_url: String::from_str(remote_remote),
        };
        Self { branch, remote }
    }
}

} // verus!
