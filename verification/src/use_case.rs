//! The use case that the engine serves: streaming the runs of a user's
//! repositories as a sequence of snapshots.

use crate::poller::{discovery, Poller, PollerAction, PollerView};
use std::sync::Arc;
use vstd::prelude::*;

verus! {

/// Nothing is asked of the engine when a sequence of snapshots is started.
#[derive(Debug, Clone, Copy, Default)]
pub struct StreamGitHubActionsRunsUseCaseInput {}

/// The use case, bound to the API through which the platform is reached.
/// It keeps nothing else: every sequence that it starts polls on its own.
pub struct StreamGitHubActionsRunsInteractor<G> {
    github_api: Arc<G>,
}

impl<G> StreamGitHubActionsRunsInteractor<G> {
    /// The API that the use case was bound to.
    pub closed spec fn api(&self) -> Arc<G> {
        self.github_api
    }

    /// Binds the use case to the API that its sequences are to poll.
    pub fn new(github_api: Arc<G>) -> (interactor: Self)
        ensures
            interactor.api() == github_api,
    {
        Self { github_api }
    }

    /// The API through which the platform is reached.
    pub fn github_api(&self) -> (api: &Arc<G>)
        ensures
            *api == self.api(),
    {
        &self.github_api
    }

    /// Starts a sequence of snapshots: a poller of its own, and the first
    /// thing it asks for, which is a discovery.
    pub fn start(&self, input: StreamGitHubActionsRunsUseCaseInput) -> (started: (
        Poller,
        PollerAction,
    ))
        ensures
            started.0@ == PollerView::AwaitingRepositories,
            started.1@ == discovery(),
    {
        Poller::start()
    }
}

} // verus!
