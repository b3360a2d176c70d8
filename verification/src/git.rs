//! Data handed over by the version-control collaborators: the three file
//! sequences of a change set, and the located repository directories.
use vstd::prelude::*;

use crate::text::str_eq;

verus! {

/// The hook belongs to the fixed set whose failed actions can be bypassed
/// with the verification-skip flag of the triggering operation.
pub open spec fn spec_noverify(hook: Seq<char>) -> bool {
    ||| hook == ("commit-msg")@
    ||| hook == ("pre-commit")@
    ||| hook == ("pre-rebase")@
    ||| hook == ("pre-push")@
}

/// Whether failed actions of `hook` can be bypassed with the
/// verification-skip flag.
pub fn is_noverify_hook(hook: &str) -> (r: bool)
    ensures
        r == spec_noverify(hook@),
{
    str_eq(hook, "commit-msg") || str_eq(hook, "pre-commit") || str_eq(hook, "pre-rebase")
        || str_eq(hook, "pre-push")
}

/// The hook belongs to the fixed set of stdin-consuming hooks, whose
/// standard input is drained once, up front, and exposed to every child.
pub open spec fn spec_stdin_hook(hook: Seq<char>) -> bool {
    ||| hook == ("pre-push")@
    ||| hook == ("pre-receive")@
    ||| hook == ("post-receive")@
    ||| hook == ("post-rewrite")@
}

/// Whether `hook` consumes standard input.
pub fn is_stdin_hook(hook: &str) -> (r: bool)
    ensures
        r == spec_stdin_hook(hook@),
{
    str_eq(hook, "pre-push") || str_eq(hook, "pre-receive") || str_eq(hook, "post-receive")
        || str_eq(hook, "post-rewrite")
}

/// The three file sequences for the current run: all tracked files, files
/// staged for the next commit, and files differing from the upstream ref.
/// The sequences are independent views that may overlap.
pub struct Files {
    /// all tracked files
    pub ls: Vec<String>,
    /// files staged for the next commit
    pub staged: Vec<String>,
    /// files differing from the upstream-tracking ref
    pub push: Vec<String>,
}

/// Mathematical model of `Files`: each sequence as character sequences.
pub ghost struct FilesModel {
    /// model of `Files::ls`
    pub ls: Seq<Seq<char>>,
    /// model of `Files::staged`
    pub staged: Seq<Seq<char>>,
    /// model of `Files::push`
    pub push: Seq<Seq<char>>,
}

impl View for Files {
    type V = FilesModel;

    open spec fn view(&self) -> FilesModel {
        FilesModel {
            ls: self.ls.deep_view(),
            staged: self.staged.deep_view(),
            push: self.push.deep_view(),
        }
    }
}

/// The top-level directory and the common metadata directory of the
/// version-controlled tree the run happens in.
pub struct Dir {
    /// top-level working directory
    pub top_level: String,
    /// common metadata directory
    pub git_dir: String,
}

impl Dir {
    /// Read a directory pair from the locator's output lines: exactly two
    /// lines name the top-level and the metadata directory, anything else
    /// means no repository was found.
    pub fn from_lines(lines: &Vec<String>) -> (r: Option<Dir>)
        ensures
            match r {
                Some(d) => lines@.len() == 2 && d.top_level@ == lines@[0]@ && d.git_dir@
                    == lines@[1]@,
                None => lines@.len() != 2,
            },
    {
        if lines.len() == 2 {
            Some(Dir { top_level: lines[0].clone(), git_dir: lines[1].clone() })
        } else {
            None
        }
    }
}

} // verus!
