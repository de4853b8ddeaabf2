//! Repositories of the polled user.

use vstd::prelude::*;

verus! {

/// A repository whose runs are polled. `(owner, name)` identifies it.
#[derive(Debug, PartialEq)]
pub struct Repository {
    pub name: String,
    pub owner: String,
}

/// What a [`Repository`] holds.
pub struct RepositoryView {
    pub name: Seq<char>,
    pub owner: Seq<char>,
}

impl View for Repository {
    type V = RepositoryView;

    open spec fn view(&self) -> RepositoryView {
        RepositoryView { name: self.name@, owner: self.owner@ }
    }
}

impl DeepView for Repository {
    type V = RepositoryView;

    open spec fn deep_view(&self) -> RepositoryView {
        self@
    }
}

impl Clone for Repository {
    fn clone(&self) -> (copy: Repository)
        ensures
            copy@ == self@,
    {
        Repository { name: self.name.clone(), owner: self.owner.clone() }
    }
}

} // verus!
