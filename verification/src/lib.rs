//! Polling engine for a dashboard of CI runs: what to fetch and when, how a
//! failing call is retried, and how the fetched runs become snapshots.

pub mod github;
pub mod poller;
pub mod relay;
pub mod repository;
pub mod request;
pub mod retry;
pub mod run;
pub mod snapshot;
pub mod text;
pub mod timestamp;
pub mod trace;
pub mod use_case;
