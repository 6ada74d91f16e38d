//! The client: its configuration, the endpoints it derives, and the plans
//! and joins of its bulk operations.
//!
//! A bulk operation first plans every item (its description and endpoint, or
//! the error that stops the operation before any request), then runs one
//! request per planned item concurrently, then joins the outcomes in
//! submission order: the first failure wins.
use std::sync::Arc;
use vstd::prelude::*;
use vstd::string::*;
use crate::auth::auth_headers;
use crate::error::{GazenotError, GazenotErrorInner, Result, ResultInner};
use crate::outside::{build_http_client, parsed_url, parse_url};
use crate::auth::{bearer_text, identity_text, is_auth_headers};
use crate::error::AuthKeyReason;
use crate::outside::header_value_ok;
use crate::types::{ArtifactSet, Owner, PackageName, Release, SourceHost};

verus! {

/// Domain of the service's API.
pub const API_SERVER: &'static str = "axo-abyss.fly.dev";

/// Domain from which artifact sets are downloaded.
pub const HOSTING_SERVER: &'static str = "artifacts.axodotdev.host";

/// Timeout of each HTTP request, in seconds.
pub const REQUEST_TIMEOUT_SECS: u64 = 10;

/// A parsed endpoint URL, held as its serialization.
#[derive(Clone, Debug, PartialEq, Eq)]
pub struct Url {
    serialization: String,
}

impl View for Url {
    type V = Seq<char>;

    closed spec fn view(&self) -> Seq<char> {
        self.serialization@
    }
}

impl Url {
    /// The serialization of the URL.
    pub fn as_str(&self) -> (r: &str)
        ensures
            r@ == self@,
    {
        self.serialization.as_str()
    }
}

/// `r` is what parsing `text` gives: the URL where it parses, else an error
/// that carries `text`.
pub open spec fn url_outcome(r: ResultInner<Url>, text: Seq<char>) -> bool {
    match r {
        Ok(u) => parsed_url(text) == Some(u@),
        Err(e) => parsed_url(text) is None && (e matches GazenotErrorInner::UrlParse { url } && url@
            == text),
    }
}

/// Parses the endpoint `text`.
fn to_url(text: String) -> (r: ResultInner<Url>)
    ensures
        url_outcome(r, text@),
{
    match parse_url(text.as_str()) {
        Some(serialization) => Ok(Url { serialization }),
        None => Err(GazenotErrorInner::UrlParse { url: text }),
    }
}

/// `https://{api}/{source_host}/{owner}`: the root of the owner's endpoints.
pub open spec fn owner_root(api: Seq<char>, source_host: Seq<char>, owner: Seq<char>) -> Seq<
    char,
> {
    "https://"@ + api + "/"@ + source_host + "/"@ + owner
}

/// The endpoint that creates an artifact set for `package`.
pub open spec fn artifact_sets_text(
    api: Seq<char>,
    source_host: Seq<char>,
    owner: Seq<char>,
    package: Seq<char>,
) -> Seq<char> {
    owner_root(api, source_host, owner) + "/"@ + package + "/artifacts"@
}

/// The default upload endpoint of an artifact set, before the file name.
pub open spec fn default_upload_base(
    api: Seq<char>,
    source_host: Seq<char>,
    owner: Seq<char>,
    package: Seq<char>,
    public_id: Seq<char>,
) -> Seq<char> {
    owner_root(api, source_host, owner) + "/"@ + package + "/artifacts/"@ + public_id + "/upload"@
}

/// The default download location of an artifact set, before the file name.
pub open spec fn default_download_base(
    hosting: Seq<char>,
    owner: Seq<char>,
    package: Seq<char>,
    public_id: Seq<char>,
) -> Seq<char> {
    "https://"@ + owner + "."@ + hosting + "/"@ + package + "/"@ + public_id
}

/// The endpoint of the releases of `package`.
pub open spec fn releases_text(
    api: Seq<char>,
    source_host: Seq<char>,
    owner: Seq<char>,
    package: Seq<char>,
) -> Seq<char> {
    owner_root(api, source_host, owner) + "/"@ + package + "/releases"@
}

/// The default endpoint of announcements.
pub open spec fn announcements_text(api: Seq<char>, source_host: Seq<char>, owner: Seq<char>) -> Seq<
    char,
> {
    owner_root(api, source_host, owner) + "/announcements"@
}

/// `base` with `name` appended as a last path segment.
pub open spec fn with_segment(base: Seq<char>, name: Seq<char>) -> Seq<char> {
    base + "/"@ + name
}

/// The override where the server sent one, else the default.
pub open spec fn override_or(over: Option<String>, default: Seq<char>) -> Seq<char> {
    match over {
        Some(u) => u@,
        None => default,
    }
}

/// `r` is what building an authenticated client for `source_host/owner` with
/// `token` gives: it fails before any request where the token is missing,
/// empty or not a valid header value, or where the identity is not one; else
/// it fails only where the HTTP client cannot be built.
pub open spec fn new_outcome(
    source_host: Seq<char>,
    owner: Seq<char>,
    token: Option<String>,
    r: Result<Gazenot>,
) -> bool {
    match token {
        None => r matches Err(e) && e.cause matches GazenotErrorInner::AuthKey {
            reason: AuthKeyReason::Missing,
        },
        Some(t) => {
            if t@.len() == 0 {
                r matches Err(e) && e.cause matches GazenotErrorInner::AuthKey {
                    reason: AuthKeyReason::Empty,
                }
            } else if !header_value_ok(bearer_text(t@)) {
                r matches Err(e) && e.cause matches GazenotErrorInner::AuthKey {
                    reason: AuthKeyReason::InvalidCharacters,
                }
            } else if !header_value_ok(identity_text(source_host, owner)) {
                r matches Err(e) && e.cause is InvalidIdentity
            } else {
                &&& r matches Ok(g) ==> {
                    &&& g.spec_api_server() == API_SERVER@
                    &&& g.spec_hosting_server() == HOSTING_SERVER@
                    &&& g.spec_source_host() == source_host
                    &&& g.spec_owner() == owner
                    &&& is_auth_headers(g.spec_auth_headers(), source_host, owner, t@)
                }
                &&& r matches Err(e) ==> e.cause is Transport
            }
        },
    }
}

/// The configuration that every operation of a client reads.
///
/// It has no `Debug`: the headers hold the service token.
pub struct GazenotInner {
    api_server: String,
    hosting_server: String,
    auth_headers: Vec<(String, String)>,
    owner: Owner,
    source_host: SourceHost,
    client: reqwest::Client,
}

/// A client of the release-hosting service, cheap to clone and to share
/// between concurrent operations.
pub struct Gazenot(Arc<GazenotInner>);

impl Clone for Gazenot {
    fn clone(&self) -> (r: Gazenot)
        ensures
            r.spec_inner() == self.spec_inner(),
    {
        Gazenot(Arc::clone(&self.0))
    }
}

impl Gazenot {
    /// The configuration.
    pub closed spec fn spec_inner(&self) -> &GazenotInner {
        &*self.0
    }

    /// Domain of the API.
    pub closed spec fn spec_api_server(&self) -> Seq<char> {
        self.0.api_server@
    }

    /// Domain of the downloads.
    pub closed spec fn spec_hosting_server(&self) -> Seq<char> {
        self.0.hosting_server@
    }

    /// Owner of the packages.
    pub closed spec fn spec_owner(&self) -> Seq<char> {
        self.0.owner@
    }

    /// Source host of the packages.
    pub closed spec fn spec_source_host(&self) -> Seq<char> {
        self.0.source_host@
    }

    /// The headers attached to every request.
    pub closed spec fn spec_auth_headers(&self) -> Seq<(String, String)> {
        self.0.auth_headers@
    }

    /// The HTTP client shared by every request.
    pub fn http_client(&self) -> &reqwest::Client {
        &self.0.client
    }

    /// The headers attached to every request.
    pub fn auth_headers(&self) -> (r: &Vec<(String, String)>)
        ensures
            r@ == self.spec_auth_headers(),
    {
        &self.0.auth_headers
    }

    /// Owner of the packages.
    pub fn owner(&self) -> (r: &str)
        ensures
            r@ == self.spec_owner(),
    {
        self.0.owner.as_str()
    }

    /// Source host of the packages.
    pub fn source_host(&self) -> (r: &str)
        ensures
            r@ == self.spec_source_host(),
    {
        self.0.source_host.as_str()
    }

    /// Builds a client that attaches `auth_headers` to every request.
    fn new_with_auth_headers(
        source_host: SourceHost,
        owner: Owner,
        auth_headers: Vec<(String, String)>,
    ) -> (r: Result<Gazenot>)
        ensures
            r matches Ok(g) ==> {
                &&& g.spec_api_server() == API_SERVER@
                &&& g.spec_hosting_server() == HOSTING_SERVER@
                &&& g.spec_source_host() == source_host@
                &&& g.spec_owner() == owner@
                &&& g.spec_auth_headers() == auth_headers@
            },
            r matches Err(e) ==> e.cause is Transport,
    {
        let client = match build_http_client(REQUEST_TIMEOUT_SECS) {
            Ok(c) => c,
            Err(e) => {
                return Err(
                    GazenotError::new(
                        "create http client for axodotdev hosting (abyss)",
                        GazenotErrorInner::Transport(e),
                    ),
                );
            },
        };
        let inner = GazenotInner {
            api_server: API_SERVER.to_owned(),
            hosting_server: HOSTING_SERVER.to_owned(),
            owner,
            source_host,
            auth_headers,
            client,
        };
        Ok(Gazenot(Arc::new(inner)))
    }

    /// Builds an authenticated client from the service token, as read from the
    /// environment variable `AUTH_KEY_ENV_VAR` (`None` where it is not set).
    ///
    /// Fails before any request where the token is missing, empty or not a
    /// valid header value, or where `source_host/owner` is not one; else only
    /// where the HTTP client cannot be built.
    pub fn new(source_host: SourceHost, owner: Owner, token: Option<String>) -> (r: Result<Gazenot>)
        ensures
            new_outcome(source_host@, owner@, token, r),
    {
        let headers = match auth_headers(&source_host, &owner, token) {
            Ok(h) => h,
            Err(e) => return Err(GazenotError::new("initializing Abyss authentication", e)),
        };
        Self::new_with_auth_headers(source_host, owner, headers)
    }

    /// The same as [`Gazenot::new`].
    pub fn into_the_abyss(source_host: SourceHost, owner: Owner, token: Option<String>) -> (r:
        Result<Gazenot>)
        ensures
            new_outcome(source_host@, owner@, token, r),
    {
        Self::new(source_host, owner, token)
    }

    /// Builds a client without credentials, for the endpoints that need none
    /// (listing releases, downloading). No token is read.
    pub fn new_unauthed(source_host: SourceHost, owner: Owner) -> (r: Result<Gazenot>)
        ensures
            r matches Ok(g) ==> {
                &&& g.spec_api_server() == API_SERVER@
                &&& g.spec_hosting_server() == HOSTING_SERVER@
                &&& g.spec_source_host() == source_host@
                &&& g.spec_owner() == owner@
                &&& g.spec_auth_headers().len() == 0
            },
            r matches Err(e) ==> e.cause is Transport,
    {
        Self::new_with_auth_headers(source_host, owner, Vec::new())
    }

    /// Without overrides, every endpoint of a set and of a release is the
    /// default template with the client's identity, the set's package and id
    /// and the file name put in verbatim.
    pub proof fn default_endpoints(&self, set: ArtifactSet, release: Release, filename: Seq<char>)
        requires
            set.set_download_url is None,
            set.upload_url is None,
            set.release_url is None,
            release.announce_url is None,
        ensures
            with_segment(
                override_or(
                    set.upload_url,
                    default_upload_base(
                        self.spec_api_server(),
                        self.spec_source_host(),
                        self.spec_owner(),
                        set.package@,
                        set.public_id@,
                    ),
                ),
                filename,
            ) == "https://"@ + self.spec_api_server() + "/"@ + self.spec_source_host() + "/"@
                + self.spec_owner() + "/"@ + set.package@ + "/artifacts/"@ + set.public_id@
                + "/upload"@ + "/"@ + filename,
            with_segment(
                override_or(
                    set.set_download_url,
                    default_download_base(
                        self.spec_hosting_server(),
                        self.spec_owner(),
                        set.package@,
                        set.public_id@,
                    ),
                ),
                filename,
            ) == "https://"@ + self.spec_owner() + "."@ + self.spec_hosting_server() + "/"@
                + set.package@ + "/"@ + set.public_id@ + "/"@ + filename,
            override_or(
                set.release_url,
                releases_text(
                    self.spec_api_server(),
                    self.spec_source_host(),
                    self.spec_owner(),
                    set.package@,
                ),
            ) == "https://"@ + self.spec_api_server() + "/"@ + self.spec_source_host() + "/"@
                + self.spec_owner() + "/"@ + set.package@ + "/releases"@,
            override_or(
                release.announce_url,
                announcements_text(self.spec_api_server(), self.spec_source_host(), self.spec_owner()),
            ) == "https://"@ + self.spec_api_server() + "/"@ + self.spec_source_host() + "/"@
                + self.spec_owner() + "/announcements"@,
    {
    }

    /// With overrides, every endpoint is the override, with only the file name
    /// appended for uploads and downloads; the default template plays no part.
    pub proof fn override_endpoints(&self, set: ArtifactSet, release: Release, filename: Seq<char>)
        requires
            set.set_download_url is Some,
            set.upload_url is Some,
            set.release_url is Some,
            release.announce_url is Some,
        ensures
            forall|d: Seq<char>|
                #[trigger] with_segment(override_or(set.upload_url, d), filename) == (
                set.upload_url->Some_0)@ + "/"@ + filename,
            forall|d: Seq<char>|
                #[trigger] with_segment(override_or(set.set_download_url, d), filename) == (
                set.set_download_url->Some_0)@ + "/"@ + filename,
            forall|d: Seq<char>|
                #[trigger] override_or(set.release_url, d) == (set.release_url->Some_0)@,
            forall|d: Seq<char>|
                #[trigger] override_or(release.announce_url, d) == (release.announce_url->Some_0)@,
    {
    }

    /// `https://{api}/{source_host}/{owner}`.
    fn owner_root(&self) -> (r: String)
        ensures
            r@ == owner_root(self.spec_api_server(), self.spec_source_host(), self.spec_owner()),
    {
        let mut s = String::from_str("https://");
        s.append(self.0.api_server.as_str());
        s.append("/");
        s.append(self.0.source_host.as_str());
        s.append("/");
        s.append(self.0.owner.as_str());
        s
    }

    /// The endpoint that creates an artifact set for `package`.
    pub fn create_artifact_set_url(&self, package: &PackageName) -> (r: ResultInner<Url>)
        ensures
            url_outcome(
                r,
                artifact_sets_text(
                    self.spec_api_server(),
                    self.spec_source_host(),
                    self.spec_owner(),
                    package@,
                ),
            ),
    {
        let mut s = self.owner_root();
        s.append("/");
        s.append(package.as_str());
        s.append("/artifacts");
        to_url(s)
    }

    /// Where `filename` of the set is downloaded from: under the set's own
    /// download URL where the server sent one, else under the default location.
    pub fn download_artifact_set_url(&self, set: &ArtifactSet, filename: &str) -> (r: ResultInner<
        Url,
    >)
        ensures
            url_outcome(
                r,
                with_segment(
                    override_or(
                        set.set_download_url,
                        default_download_base(
                            self.spec_hosting_server(),
                            self.spec_owner(),
                            set.package@,
                            set.public_id@,
                        ),
                    ),
                    filename@,
                ),
            ),
    {
        let mut s = match &set.set_download_url {
            Some(u) => u.clone(),
            None => {
                let mut d = String::from_str("https://");
                d.append(self.0.owner.as_str());
                d.append(".");
                d.append(self.0.hosting_server.as_str());
                d.append("/");
                d.append(set.package.as_str());
                d.append("/");
                d.append(set.public_id.as_str());
                d
            },
        };
        s.append("/");
        s.append(filename);
        to_url(s)
    }

    /// Where `filename` is uploaded into the set: under the set's own upload
    /// URL where the server sent one, else under the default endpoint.
    pub fn upload_artifact_set_url(&self, set: &ArtifactSet, filename: &str) -> (r: ResultInner<
        Url,
    >)
        ensures
            url_outcome(
                r,
                with_segment(
                    override_or(
                        set.upload_url,
                        default_upload_base(
                            self.spec_api_server(),
                            self.spec_source_host(),
                            self.spec_owner(),
                            set.package@,
                            set.public_id@,
                        ),
                    ),
                    filename@,
                ),
            ),
    {
        let mut s = match &set.upload_url {
            Some(u) => u.clone(),
            None => {
                let mut d = self.owner_root();
                d.append("/");
                d.append(set.package.as_str());
                d.append("/artifacts/");
                d.append(set.public_id.as_str());
                d.append("/upload");
                d
            },
        };
        s.append("/");
        s.append(filename);
        to_url(s)
    }

    /// The endpoint that creates a release from the set: the set's own release
    /// URL where the server sent one, else the package's releases endpoint.
    pub fn create_release_url(&self, set: &ArtifactSet) -> (r: ResultInner<Url>)
        ensures
            url_outcome(
                r,
                override_or(
                    set.release_url,
                    releases_text(
                        self.spec_api_server(),
                        self.spec_source_host(),
                        self.spec_owner(),
                        set.package@,
                    ),
                ),
            ),
    {
        let s = match &set.release_url {
            Some(u) => u.clone(),
            None => {
                let mut d = self.owner_root();
                d.append("/");
                d.append(set.package.as_str());
                d.append("/releases");
                d
            },
        };
        to_url(s)
    }

    /// The endpoint that announces the release: its own announce URL where the
    /// server sent one, else the owner's announcements endpoint.
    pub fn create_announcement_url(&self, release: &Release) -> (r: ResultInner<Url>)
        ensures
            url_outcome(
                r,
                override_or(
                    release.announce_url,
                    announcements_text(
                        self.spec_api_server(),
                        self.spec_source_host(),
                        self.spec_owner(),
                    ),
                ),
            ),
    {
        let s = match &release.announce_url {
            Some(u) => u.clone(),
            None => {
                let mut d = self.owner_root();
                d.append("/announcements");
                d
            },
        };
        to_url(s)
    }

    /// The endpoint that lists the releases of `package`.
    pub fn list_releases_url(&self, package: &PackageName) -> (r: ResultInner<Url>)
        ensures
            url_outcome(
                r,
                releases_text(
                    self.spec_api_server(),
                    self.spec_source_host(),
                    self.spec_owner(),
                    package@,
                ),
            ),
    {
        let mut s = self.owner_root();
        s.append("/");
        s.append(package.as_str());
        s.append("/releases");
        to_url(s)
    }
}

} // verus!
