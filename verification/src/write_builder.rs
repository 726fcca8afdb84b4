//! What a table write is set up with.
use vstd::prelude::*;

use crate::ids::{is_random_uuid, random_uuid};
use crate::table::{copy_text, text_of};

verus! {

/// Sets up table writes and commits: the user that they are made by, and the
/// branch that their snapshots go to.
#[derive(Debug)]
pub struct WriteBuilder {
    commit_user: String,
    branch: Option<String>,
}

/// What a [`WriteBuilder`] holds.
#[verifier::ext_equal]
pub struct WriteBuilderView {
    pub commit_user: Seq<char>,
    pub branch: Option<Seq<char>>,
}

impl View for WriteBuilder {
    type V = WriteBuilderView;

    closed spec fn view(&self) -> WriteBuilderView {
        WriteBuilderView { commit_user: self.commit_user@, branch: text_of(self.branch) }
    }
}

/// Where the snapshots of a commit go. Data files and manifests stay in the
/// root of the table in either case.
#[derive(Debug)]
pub enum CommitTarget {
    /// To the table itself.
    Main { commit_user: String },
    /// To a branch, which has to exist.
    Branch { commit_user: String, branch: String },
}

impl WriteBuilder {
    /// Sets up writes to the table itself, by a random user.
    pub fn new() -> (r: Self)
        ensures
            is_random_uuid(r@.commit_user),
            r@.branch is None,
    {
        WriteBuilder { commit_user: random_uuid(), branch: None }
    }

    /// Sets the user.
    pub fn with_commit_user(self, commit_user: String) -> (r: Self)
        ensures
            r@ == (WriteBuilderView { commit_user: commit_user@, ..self@ }),
    {
        WriteBuilder { commit_user, ..self }
    }

    /// Sends the snapshots of commits to a branch.
    pub fn with_branch(self, branch_name: String) -> (r: Self)
        ensures
            r@ == (WriteBuilderView { branch: Some(branch_name@), ..self@ }),
    {
        WriteBuilder { branch: Some(branch_name), ..self }
    }

    /// The user that writes are made by.
    pub fn commit_user(&self) -> (r: &str)
        ensures
            r@ == self@.commit_user,
    {
        self.commit_user.as_str()
    }

    /// Sets up a commit: it goes to the branch, where one was given, and else
    /// to the table itself.
    pub fn new_commit(&self) -> (r: CommitTarget)
        ensures
            match r {
                CommitTarget::Main { commit_user } => {
                    commit_user@ == self@.commit_user && self@.branch is None
                },
                CommitTarget::Branch { commit_user, branch } => {
                    commit_user@ == self@.commit_user && self@.branch == Some(branch@)
                },
            },
    {
        let commit_user = self.commit_user.clone();
        match copy_text(&self.branch) {
            Some(branch) => CommitTarget::Branch { commit_user, branch },
            None => CommitTarget::Main { commit_user },
        }
    }
}

} // verus!
