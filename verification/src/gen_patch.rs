use vstd::prelude::*;

use crate::git::{
    git_format_patch, git_log_message_of, git_op_args, git_rev_parse_second_parent, CmdOutcome,
    GitCommand, GitOp,
};
use crate::git_commands::trimmed_end;
use crate::utils::normalized_char;

verus! {

/// Where turning one commit into a patch file stands.
pub enum GenPatchState {
    /// Asking whether the commit has a second parent, which only a merge
    /// commit can have.
    CheckingMergeCommit,
    /// Asking for the commit's message, from which the file name is made.
    QueryingMessage,
    /// The `format-patch` command writing the file is out.
    WritingPatch { path: String },
    /// Nothing further will be asked.
    Complete,
}

/// Why no patch file was written for the commit.
#[derive(Debug)]
pub enum GenPatchError {
    /// The commit is a merge commit, which cannot become a patch file.
    MergeCommit { commit: String },
    /// The tool could not write the patch file.
    WriteFailed { commit: String, stderr: String },
}

/// What the patch generation asks for next; success carries the path the
/// file was written to.
pub enum GenPatchStep {
    Run(GitCommand),
    Finished(Result<String, GenPatchError>),
}

/// Turns one commit into a `.patch` file under the configuration directory.
/// The file is named after the caller's choice if one was given, else after
/// the commit's normalized message, else after the commit hash itself.
pub struct GenPatchMachine {
    pub commit: String,
    pub custom_filename: Option<String>,
    pub config_dir: String,
    pub state: GenPatchState,
}

/// The path a patch file with the given stem is written to.
pub open spec fn patch_path(config_dir: Seq<char>, stem: Seq<char>) -> Seq<char> {
    config_dir + "/"@ + stem + ".patch"@
}

/// Starts turning one commit into a patch file; the first command asks
/// whether the commit is a merge commit.
pub fn gen_patch(commit: &str, custom_filename: Option<&str>, config_dir: &str) -> (r: (
    GenPatchMachine,
    GitCommand,
))
    ensures
        r.0.commit@ == commit@,
        custom_filename matches Some(c) ==> (r.0.custom_filename matches Some(f) && f@ == c@),
        custom_filename is None ==> r.0.custom_filename is None,
        r.0.config_dir@ == config_dir@,
        r.0.state is CheckingMergeCommit,
        r.1@ == git_op_args(GitOp::RevParseSecondParent { commit: commit@ }),
{
    let machine = GenPatchMachine {
        commit: String::from_str(commit),
        custom_filename: match custom_filename {
            Some(c) => Some(String::from_str(c)),
            None => None,
        },
        config_dir: String::from_str(config_dir),
        state: GenPatchState::CheckingMergeCommit,
    };
    (machine, git_rev_parse_second_parent(commit))
}

impl GenPatchMachine {
    /// Builds the patch path for `stem` and asks for the file.
    fn write_patch(&mut self, stem: &str) -> (r: GenPatchStep)
        ensures
            final(self).commit@ == old(self).commit@,
            final(self).custom_filename == old(self).custom_filename,
            final(self).config_dir@ == old(self).config_dir@,
            final(self).state matches GenPatchState::WritingPatch { path } && path@ == patch_path(
                old(self).config_dir@,
                stem@,
            ),
            r matches GenPatchStep::Run(c) && c@ == git_op_args(
                GitOp::FormatPatch {
                    commit: old(self).commit@,
                    output: patch_path(old(self).config_dir@, stem@),
                },
            ),
    {
        let mut path = self.config_dir.clone();
        path.append("/");
        path.append(stem);
        path.append(".patch");
        let cmd = git_format_patch(self.commit.as_str(), path.as_str());
        self.state = GenPatchState::WritingPatch { path };
        GenPatchStep::Run(cmd)
    }

    /// Feeds the outcome of the last command in, and yields the next step.
    /// A success outcome of the merge-commit query means the commit has a
    /// second parent, so it is refused.
    pub fn step(&mut self, outcome: &CmdOutcome) -> (r: GenPatchStep)
        requires
            !(old(self).state is Complete),
        ensures
            final(self).commit@ == old(self).commit@,
            final(self).custom_filename == old(self).custom_filename,
            final(self).config_dir@ == old(self).config_dir@,
            old(self).state is CheckingMergeCommit && outcome.ok ==> ({
                &&& final(self).state is Complete
                &&& r matches GenPatchStep::Finished(Err(GenPatchError::MergeCommit { commit }))
                    && commit@ == old(self).commit@
            }),
            old(self).state is CheckingMergeCommit && !outcome.ok ==> ({
                &&& old(self).custom_filename matches Some(stem) ==> ({
                    &&& final(self).state matches GenPatchState::WritingPatch { path } && path@
                        == patch_path(old(self).config_dir@, stem@)
                    &&& r matches GenPatchStep::Run(c) && c@ == git_op_args(
                        GitOp::FormatPatch {
                            commit: old(self).commit@,
                            output: patch_path(old(self).config_dir@, stem@),
                        },
                    )
                })
                &&& old(self).custom_filename is None ==> ({
                    &&& final(self).state is QueryingMessage
                    &&& r matches GenPatchStep::Run(c) && c@ == git_op_args(
                        GitOp::LogMessageOf { commit: old(self).commit@ },
                    )
                })
            }),
            old(self).state is QueryingMessage ==> ({
                let stem = if outcome.ok {
                    trimmed_end(outcome.stdout@).map(|i: int, c: char| normalized_char(c))
                } else {
                    old(self).commit@
                };
                &&& final(self).state matches GenPatchState::WritingPatch { path } && path@
                    == patch_path(old(self).config_dir@, stem)
                &&& r matches GenPatchStep::Run(c) && c@ == git_op_args(
                    GitOp::FormatPatch {
                        commit: old(self).commit@,
                        output: patch_path(old(self).config_dir@, stem),
                    },
                )
            }),
            old(self).state matches GenPatchState::WritingPatch { path } ==> ({
                &&& final(self).state is Complete
                &&& outcome.ok ==> (r matches GenPatchStep::Finished(Ok(p)) && p@ == path@)
                &&& !outcome.ok ==> (r matches GenPatchStep::Finished(Err(
                    GenPatchError::WriteFailed { commit, stderr },
                )) && commit@ == old(self).commit@ && stderr@ == outcome.stderr@)
            }),
    {
        match core::mem::replace(&mut self.state, GenPatchState::Complete) {
            GenPatchState::CheckingMergeCommit => {
                if outcome.ok {
                    self.state = GenPatchState::Complete;
                    GenPatchStep::Finished(
                        Err(GenPatchError::MergeCommit { commit: self.commit.clone() }),
                    )
                } else {
                    match &self.custom_filename {
                        Some(stem) => {
                            let stem = stem.clone();
                            self.write_patch(stem.as_str())
                        },
                        None => {
                            let cmd = git_log_message_of(self.commit.as_str());
                            self.state = GenPatchState::QueryingMessage;
                            GenPatchStep::Run(cmd)
                        },
                    }
                }
            },
            GenPatchState::QueryingMessage => {
                let stem = if outcome.ok {
                    crate::utils::normalize_commit_msg(
                        crate::git_commands::trim_end_str(outcome.stdout.as_str()).as_str(),
                    )
                } else {
                    self.commit.clone()
                };
                self.write_patch(stem.as_str())
            },
            GenPatchState::WritingPatch { path } => {
                self.state = GenPatchState::Complete;
                if outcome.ok {
                    GenPatchStep::Finished(Ok(path))
                } else {
                    GenPatchStep::Finished(
                        Err(
                            GenPatchError::WriteFailed {
                                commit: self.commit.clone(),
                                stderr: outcome.stderr.clone(),
                            },
                        ),
                    )
                }
            },
            GenPatchState::Complete => {
                // Not reachable: the contract admits no call in this state.
                GenPatchStep::Finished(
                    Err(GenPatchError::MergeCommit { commit: self.commit.clone() }),
                )
            },
        }
    }
}

} // verus!
