//! Client library for the release-hosting service: endpoint derivation,
//! credential headers, response classification and the ordered join of
//! concurrent operations, each with a verified contract.
pub mod types;
pub mod error;
pub mod outside;
pub mod auth;
pub mod response;
pub mod client;
pub mod plan;

pub use auth::auth_headers;
pub use client::{Gazenot, GazenotInner, Url, API_SERVER, HOSTING_SERVER, REQUEST_TIMEOUT_SECS};
pub use error::{
    AuthKeyReason, GazenotError, GazenotErrorInner, Inconsistency, Result, ResultInner,
    AUTH_KEY_ENV_VAR,
};
pub use plan::{
    join_all, reject_mock, AnnounceReleaseKey, AnnounceReleaseRequest, ArtifactSetResponse,
    CreateReleaseRequest, CreateReleaseTask, ListReleasesResponse, Query, ReleaseResponse,
    TaskOutcome,
};
pub use response::{is_success, process_response, process_response_basic, BasicResponse, Response};
pub use types::{
    AnnouncementKey, ArtifactSet, ArtifactSetId, Owner, PackageName, Release, ReleaseKey,
    ReleaseList, ReleaseTag, SourceHost, UnparsedUrl, UnparsedVersion,
};
