//! The values that callers hand to the client and get back from it.
use vstd::prelude::*;

verus! {

/// Name of a package, as the service knows it.
pub type PackageName = String;

/// Owner (user or organisation) of the packages.
pub type Owner = String;

/// Source host of the packages (for instance `github`).
pub type SourceHost = String;

/// Server-assigned identifier of an artifact set.
pub type ArtifactSetId = String;

/// Tag of a release.
pub type ReleaseTag = String;

/// A URL as the server sent it, not yet parsed.
pub type UnparsedUrl = String;

/// A version as the caller wrote it, not yet parsed.
pub type UnparsedVersion = String;

/// A server-side bucket for one package, into which files are uploaded and
/// from which releases are made. The optional URLs override the endpoints
/// that the client would otherwise derive.
#[derive(Clone, Debug, PartialEq, Eq)]
pub struct ArtifactSet {
    pub package: PackageName,
    pub public_id: ArtifactSetId,
    pub set_download_url: Option<UnparsedUrl>,
    pub upload_url: Option<UnparsedUrl>,
    pub release_url: Option<UnparsedUrl>,
    pub announce_url: Option<UnparsedUrl>,
    /// A placeholder set, never to be used for a network call.
    pub mock: bool,
}

impl ArtifactSet {
    /// A placeholder set for `package`, which every mutating operation rejects.
    pub fn mock(package: PackageName) -> (r: ArtifactSet)
        ensures
            r.mock,
            r.package == package,
            r.set_download_url is None,
            r.upload_url is None,
            r.release_url is None,
            r.announce_url is None,
    {
        ArtifactSet {
            package,
            public_id: String::new(),
            set_download_url: None,
            upload_url: None,
            release_url: None,
            announce_url: None,
            mock: true,
        }
    }

    /// Whether this is a placeholder set.
    pub fn is_mock(&self) -> (r: bool)
        ensures
            r == self.mock,
    {
        self.mock
    }
}

/// What the caller asks for when creating a release.
#[derive(Clone, Debug, PartialEq, Eq)]
pub struct ReleaseKey {
    pub tag: ReleaseTag,
    pub version: UnparsedVersion,
    pub is_prerelease: bool,
}

/// A release that the service created.
#[derive(Clone, Debug, PartialEq, Eq)]
pub struct Release {
    pub package: PackageName,
    pub tag: ReleaseTag,
    pub release_download_url: Option<UnparsedUrl>,
    /// Inherited from the artifact set that the release was made from.
    pub announce_url: Option<UnparsedUrl>,
}

/// The text of an announcement.
#[derive(Clone, Debug, PartialEq, Eq)]
pub struct AnnouncementKey {
    pub body: String,
}

/// The releases of a package (the service sends no details yet).
#[derive(Clone, Debug, PartialEq, Eq)]
pub struct ReleaseList {
    pub package: PackageName,
}

} // verus!
