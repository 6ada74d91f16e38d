//! Bulk operations: the plan of each item before any request, and the
//! ordered join of the outcomes after.
use vstd::prelude::*;
use vstd::string::*;
use crate::client::{
    artifact_sets_text, default_upload_base, override_or, releases_text, with_segment, Gazenot,
    Url,
};
use crate::error::{GazenotError, GazenotErrorInner, Result, ResultInner};
use crate::outside::{file_name_of, parsed_url, path_file_name};
use crate::client::announcements_text;
use crate::types::{ReleaseList, AnnouncementKey, ArtifactSet, PackageName, Release, ReleaseKey, ReleaseTag, UnparsedUrl, UnparsedVersion};

verus! {

/// One planned request of a bulk operation: what it is for, where it goes,
/// and what it needs.
#[derive(Clone, Debug, PartialEq, Eq)]
pub struct Query<I> {
    pub desc: String,
    pub url: Url,
    pub item: I,
}

/// The views of an optional text.
pub open spec fn opt_view(o: Option<String>) -> Option<Seq<char>> {
    match o {
        Some(s) => Some(s@),
        None => None,
    }
}

/// Copies an optional text.
fn clone_opt(o: &Option<String>) -> (r: Option<String>)
    ensures
        opt_view(r) == opt_view(*o),
{
    match o {
        Some(s) => Some(s.clone()),
        None => None,
    }
}

/// What a planned release needs: the request body, and what the release it
/// creates inherits from its artifact set.
#[derive(Clone, Debug, PartialEq, Eq)]
pub struct CreateReleaseTask {
    pub request: CreateReleaseRequest,
    pub package: PackageName,
    pub announce_url: Option<UnparsedUrl>,
}

/// Body of a request that creates a release.
#[derive(Clone, Debug, PartialEq, Eq)]
pub struct CreateReleaseRequest {
    pub artifact_set_id: String,
    pub tag: ReleaseTag,
    pub version: UnparsedVersion,
    pub is_prerelease: bool,
}

/// One release of an announcement.
#[derive(Clone, Debug, PartialEq, Eq)]
pub struct AnnounceReleaseKey {
    pub package: PackageName,
    pub tag: ReleaseTag,
}

/// Body of a request that announces releases.
#[derive(Clone, Debug, PartialEq, Eq)]
pub struct AnnounceReleaseRequest {
    pub releases: Vec<AnnounceReleaseKey>,
    pub body: String,
}

/// `r` is the plan of `items`: where every item plans (`ok`), one query per
/// item in order, each as `query` says; else the failure of the first item
/// that does not plan.
pub open spec fn planned<I, Q>(
    items: Seq<I>,
    r: Result<Vec<Q>>,
    ok: spec_fn(I) -> bool,
    query: spec_fn(I, Q) -> bool,
    failure: spec_fn(I, GazenotError) -> bool,
) -> bool {
    match r {
        Ok(qs) => qs@.len() == items.len() && forall|i: int|
            0 <= i < items.len() ==> #[trigger] query(items[i], qs@[i]),
        Err(e) => exists|k: int|
            0 <= k < items.len() && (forall|j: int| 0 <= j < k ==> #[trigger] ok(items[j]))
                && failure(items[k], e),
    }
}

/// `{prefix}{source_host}/{owner}/{name}`: how an operation describes itself.
pub open spec fn desc_text(
    prefix: Seq<char>,
    source_host: Seq<char>,
    owner: Seq<char>,
    name: Seq<char>,
) -> Seq<char> {
    prefix + source_host + "/"@ + owner + "/"@ + name
}

/// The description of an upload of `filename` into a set of `package`.
pub open spec fn upload_desc(
    source_host: Seq<char>,
    owner: Seq<char>,
    package: Seq<char>,
    filename: Seq<char>,
) -> Seq<char> {
    desc_text("upload "@ + filename + " to hosting for "@, source_host, owner, package)
}

/// `e` is the error that stops a bulk operation at an item whose endpoint
/// `text` did not parse.
pub open spec fn url_failure(e: GazenotError, desc: Seq<char>, text: Seq<char>) -> bool {
    &&& parsed_url(text) is None
    &&& e.operation@ == desc
    &&& e.url is None
    &&& e.cause matches GazenotErrorInner::UrlParse { url } && url@ == text
}

/// `q` is the query for an item described by `desc` whose endpoint is `text`.
pub open spec fn query_for<I>(q: Query<I>, desc: Seq<char>, text: Seq<char>) -> bool {
    q.desc@ == desc && parsed_url(text) == Some(q.url@)
}

impl Gazenot {
    /// `{prefix}{source_host}/{owner}/{name}`.
    fn describe(&self, prefix: &str, name: &str) -> (r: String)
        ensures
            r@ == desc_text(prefix@, self.spec_source_host(), self.spec_owner(), name@),
    {
        let mut s = prefix.to_owned();
        s.append(self.source_host());
        s.append("/");
        s.append(self.owner());
        s.append("/");
        s.append(name);
        s
    }

    /// The endpoint of the artifact set of `package`.
    pub open spec fn set_text(&self, package: String) -> Seq<char> {
        artifact_sets_text(
            self.spec_api_server(),
            self.spec_source_host(),
            self.spec_owner(),
            package@,
        )
    }

    /// The description of the creation of the artifact set of `package`.
    pub open spec fn set_desc(&self, package: String) -> Seq<char> {
        desc_text("create hosting for "@, self.spec_source_host(), self.spec_owner(), package@)
    }

    /// Plans the creation of an artifact set for each package, in order: each
    /// query goes to the package's artifact-set endpoint and carries the
    /// package. Stops at the first package whose endpoint does not parse.
    pub fn plan_artifact_sets(&self, packages: &Vec<PackageName>) -> (r: Result<
        Vec<Query<PackageName>>,
    >)
        ensures
            planned(
                packages@,
                r,
                |p: String| parsed_url(self.set_text(p)) is Some,
                |p: String, q: Query<PackageName>|
                    query_for(q, self.set_desc(p), self.set_text(p)) && q.item@ == p@,
                |p: String, e: GazenotError| url_failure(e, self.set_desc(p), self.set_text(p)),
            ),
    {
        let mut qs: Vec<Query<PackageName>> = Vec::new();
        let mut i: usize = 0;
        while i < packages.len()
            invariant
                i <= packages@.len(),
                qs@.len() == i,
                forall|j: int|
                    0 <= j < i ==> query_for(
                        #[trigger] qs@[j],
                        self.set_desc(packages@[j]),
                        self.set_text(packages@[j]),
                    ) && qs@[j].item@ == packages@[j]@,
            decreases packages@.len() - i,
        {
            let package = &packages[i];
            let desc = self.describe("create hosting for ", package.as_str());
            let url = match self.create_artifact_set_url(package) {
                Ok(u) => u,
                Err(e) => {
                    let err = GazenotError::new(desc.as_str(), e);
                    assert forall|j: int| 0 <= j < i implies parsed_url(
                        self.set_text(#[trigger] packages@[j]),
                    ) is Some by {
                        assert(query_for(
                            qs@[j],
                            self.set_desc(packages@[j]),
                            self.set_text(packages@[j]),
                        ));
                    }
                    return Err(err);
                },
            };
            qs.push(Query { desc, url, item: package.clone() });
            i = i + 1;
        }
        Ok(qs)
    }

    /// The endpoint of the releases of `package`.
    pub open spec fn list_text(&self, package: String) -> Seq<char> {
        releases_text(self.spec_api_server(), self.spec_source_host(), self.spec_owner(), package@)
    }

    /// The description of the listing of the releases of `package`.
    pub open spec fn list_desc(&self, package: String) -> Seq<char> {
        desc_text("get releases for "@, self.spec_source_host(), self.spec_owner(), package@)
    }

    /// Plans the listing of the releases of each package, in order: each query
    /// goes to the package's releases endpoint and carries the package. Stops
    /// at the first package whose endpoint does not parse.
    pub fn plan_list_releases(&self, packages: &Vec<PackageName>) -> (r: Result<
        Vec<Query<PackageName>>,
    >)
        ensures
            planned(
                packages@,
                r,
                |p: String| parsed_url(self.list_text(p)) is Some,
                |p: String, q: Query<PackageName>|
                    query_for(q, self.list_desc(p), self.list_text(p)) && q.item@ == p@,
                |p: String, e: GazenotError| url_failure(e, self.list_desc(p), self.list_text(p)),
            ),
    {
        let mut qs: Vec<Query<PackageName>> = Vec::new();
        let mut i: usize = 0;
        while i < packages.len()
            invariant
                i <= packages@.len(),
                qs@.len() == i,
                forall|j: int|
                    0 <= j < i ==> query_for(
                        #[trigger] qs@[j],
                        self.list_desc(packages@[j]),
                        self.list_text(packages@[j]),
                    ) && qs@[j].item@ == packages@[j]@,
            decreases packages@.len() - i,
        {
            let package = &packages[i];
            let desc = self.describe("get releases for ", package.as_str());
            let url = match self.list_releases_url(package) {
                Ok(u) => u,
                Err(e) => {
                    let err = GazenotError::new(desc.as_str(), e);
                    assert forall|j: int| 0 <= j < i implies parsed_url(
                        self.list_text(#[trigger] packages@[j]),
                    ) is Some by {
                        assert(query_for(
                            qs@[j],
                            self.list_desc(packages@[j]),
                            self.list_text(packages@[j]),
                        ));
                    }
                    return Err(err);
                },
            };
            qs.push(Query { desc, url, item: package.clone() });
            i = i + 1;
        }
        Ok(qs)
    }

    /// The endpoint where `filename` is uploaded into `set`.
    pub open spec fn upload_text(&self, set: ArtifactSet, filename: Seq<char>) -> Seq<char> {
        with_segment(
            override_or(
                set.upload_url,
                default_upload_base(
                    self.spec_api_server(),
                    self.spec_source_host(),
                    self.spec_owner(),
                    set.package@,
                    set.public_id@,
                ),
            ),
            filename,
        )
    }

    /// The file at `path` can be uploaded into `set`: the path has a file
    /// name, the set is no placeholder, and the endpoint parses.
    pub open spec fn upload_ok(&self, set: ArtifactSet, path: String) -> bool {
        &&& path_file_name(path@) is Some
        &&& !set.mock
        &&& parsed_url(self.upload_text(set, path_file_name(path@)->Some_0)) is Some
    }

    /// `q` is the upload of the file at `path` into `set`.
    pub open spec fn upload_query(&self, set: ArtifactSet, path: String, q: Query<String>) -> bool {
        &&& path_file_name(path@) matches Some(f) && !set.mock && query_for(
            q,
            upload_desc(self.spec_source_host(), self.spec_owner(), set.package@, f),
            self.upload_text(set, f),
        )
        &&& q.item@ == path@
    }

    /// `e` stops an upload of the file at `path` into `set`: a path without file
    /// name, a placeholder set, or an endpoint that does not parse, checked in
    /// that order.
    pub open spec fn upload_failure(&self, set: ArtifactSet, path: String, e: GazenotError) -> bool {
        match path_file_name(path@) {
            None => {
                &&& e.operation@ == upload_desc(
                    self.spec_source_host(),
                    self.spec_owner(),
                    set.package@,
                    path@,
                )
                &&& e.url is None
                &&& e.cause matches GazenotErrorInner::NoFileName { path: p } && p@ == path@
            },
            Some(f) => {
                let desc = upload_desc(self.spec_source_host(), self.spec_owner(), set.package@, f);
                if set.mock {
                    e.operation@ == desc && e.url is None && e.cause is IsMocked
                } else {
                    url_failure(e, desc, self.upload_text(set, f))
                }
            },
        }
    }

    /// `upload {filename} to hosting for {source_host}/{owner}/{package}`.
    fn describe_upload(&self, filename: &str, package: &str) -> (r: String)
        ensures
            r@ == upload_desc(self.spec_source_host(), self.spec_owner(), package@, filename@),
    {
        let mut prefix = String::from_str("upload ");
        prefix.append(filename);
        prefix.append(" to hosting for ");
        self.describe(prefix.as_str(), package)
    }

    /// Plans the upload of each file (a set and the path of a file), in order:
    /// each query goes to the upload endpoint of the set for the file's name
    /// and carries the path. Stops at the first file that has no name, is for a
    /// placeholder set, or whose endpoint does not parse; no request is planned
    /// for a placeholder set.
    pub fn plan_uploads(&self, files: &Vec<(ArtifactSet, String)>) -> (r: Result<
        Vec<Query<String>>,
    >)
        ensures
            planned(
                files@,
                r,
                |f: (ArtifactSet, String)| self.upload_ok(f.0, f.1),
                |f: (ArtifactSet, String), q: Query<String>| self.upload_query(f.0, f.1, q),
                |f: (ArtifactSet, String), e: GazenotError| self.upload_failure(f.0, f.1, e),
            ),
    {
        let mut qs: Vec<Query<String>> = Vec::new();
        let mut i: usize = 0;
        while i < files.len()
            invariant
                i <= files@.len(),
                qs@.len() == i,
                forall|j: int|
                    0 <= j < i ==> self.upload_query(files@[j].0, files@[j].1, #[trigger] qs@[j]),
            decreases files@.len() - i,
        {
            let set = &files[i].0;
            let path = &files[i].1;
            proof {
                assert forall|j: int| 0 <= j < i implies self.upload_ok(
                    (#[trigger] files@[j]).0,
                    files@[j].1,
                ) by {
                    assert(self.upload_query(files@[j].0, files@[j].1, qs@[j]));
                }
            }
            let filename = match file_name_of(path.as_str()) {
                Some(f) => f,
                None => {
                    let desc = self.describe_upload(path.as_str(), set.package.as_str());
                    return Err(
                        GazenotError::new(
                            desc.as_str(),
                            GazenotErrorInner::NoFileName { path: path.clone() },
                        ),
                    );
                },
            };
            let desc = self.describe_upload(filename.as_str(), set.package.as_str());
            if let Err(e) = reject_mock(set) {
                return Err(GazenotError::new(desc.as_str(), e));
            }
            let url = match self.upload_artifact_set_url(set, filename.as_str()) {
                Ok(u) => u,
                Err(e) => return Err(GazenotError::new(desc.as_str(), e)),
            };
            qs.push(Query { desc, url, item: path.clone() });
            i = i + 1;
        }
        Ok(qs)
    }
}

impl Gazenot {
    /// The endpoint that creates a release from `set`.
    pub open spec fn release_text(&self, set: ArtifactSet) -> Seq<char> {
        override_or(
            set.release_url,
            releases_text(
                self.spec_api_server(),
                self.spec_source_host(),
                self.spec_owner(),
                set.package@,
            ),
        )
    }

    /// The description of the creation of a release from `set`.
    pub open spec fn release_desc(&self, set: ArtifactSet) -> Seq<char> {
        desc_text("create release for "@, self.spec_source_host(), self.spec_owner(), set.package@)
    }

    /// `task` creates the release `key` from `set`, and the release inherits the
    /// set's package and announce URL.
    pub open spec fn release_task(set: ArtifactSet, key: ReleaseKey, task: CreateReleaseTask) -> bool {
        &&& task.request.artifact_set_id@ == set.public_id@
        &&& task.request.tag@ == key.tag@
        &&& task.request.version@ == key.version@
        &&& task.request.is_prerelease == key.is_prerelease
        &&& task.package@ == set.package@
        &&& opt_view(task.announce_url) == opt_view(set.announce_url)
    }

    /// `e` stops a release from `set`: a placeholder set, or an endpoint that
    /// does not parse, checked in that order.
    pub open spec fn release_failure(&self, set: ArtifactSet, e: GazenotError) -> bool {
        if set.mock {
            e.operation@ == self.release_desc(set) && e.url is None && e.cause is IsMocked
        } else {
            url_failure(e, self.release_desc(set), self.release_text(set))
        }
    }

    /// Plans the creation of each release (a set and what to release from it),
    /// in order: each query goes to the set's release endpoint and carries the
    /// request and what the release inherits. Stops at the first placeholder
    /// set or endpoint that does not parse; no request is planned for a
    /// placeholder set.
    pub fn plan_releases(&self, releases: &Vec<(ArtifactSet, ReleaseKey)>) -> (r: Result<
        Vec<Query<CreateReleaseTask>>,
    >)
        ensures
            planned(
                releases@,
                r,
                |x: (ArtifactSet, ReleaseKey)|
                    !x.0.mock && parsed_url(self.release_text(x.0)) is Some,
                |x: (ArtifactSet, ReleaseKey), q: Query<CreateReleaseTask>|
                    !x.0.mock && query_for(q, self.release_desc(x.0), self.release_text(x.0))
                        && Self::release_task(x.0, x.1, q.item),
                |x: (ArtifactSet, ReleaseKey), e: GazenotError| self.release_failure(x.0, e),
            ),
    {
        let mut qs: Vec<Query<CreateReleaseTask>> = Vec::new();
        let mut i: usize = 0;
        while i < releases.len()
            invariant
                i <= releases@.len(),
                qs@.len() == i,
                forall|j: int|
                    0 <= j < i ==> !releases@[j].0.mock && query_for(
                        #[trigger] qs@[j],
                        self.release_desc(releases@[j].0),
                        self.release_text(releases@[j].0),
                    ) && Self::release_task(releases@[j].0, releases@[j].1, qs@[j].item),
            decreases releases@.len() - i,
        {
            let set = &releases[i].0;
            let key = &releases[i].1;
            proof {
                assert forall|j: int| 0 <= j < i implies !(#[trigger] releases@[j]).0.mock
                    && parsed_url(self.release_text(releases@[j].0)) is Some by {
                    assert(query_for(
                        qs@[j],
                        self.release_desc(releases@[j].0),
                        self.release_text(releases@[j].0),
                    ));
                }
            }
            let desc = self.describe("create release for ", set.package.as_str());
            if let Err(e) = reject_mock(set) {
                return Err(GazenotError::new(desc.as_str(), e));
            }
            let url = match self.create_release_url(set) {
                Ok(u) => u,
                Err(e) => return Err(GazenotError::new(desc.as_str(), e)),
            };
            let task = CreateReleaseTask {
                request: CreateReleaseRequest {
                    artifact_set_id: set.public_id.clone(),
                    tag: key.tag.clone(),
                    version: key.version.clone(),
                    is_prerelease: key.is_prerelease,
                },
                package: set.package.clone(),
                announce_url: clone_opt(&set.announce_url),
            };
            qs.push(Query { desc, url, item: task });
            i = i + 1;
        }
        Ok(qs)
    }

    /// The endpoint of an announcement of `release` and the releases beside it.
    pub open spec fn announce_text(&self, release: Release) -> Seq<char> {
        override_or(
            release.announce_url,
            announcements_text(self.spec_api_server(), self.spec_source_host(), self.spec_owner()),
        )
    }

    /// The description of an announcement whose first release is `release`.
    pub open spec fn announce_desc(&self, release: Release) -> Seq<char> {
        desc_text(
            "create announcement for "@,
            self.spec_source_host(),
            self.spec_owner(),
            release.tag@,
        )
    }

    /// Plans one announcement of all `releases` with `announcement`'s body.
    ///
    /// Without releases there is nothing to announce: `Ok(None)`, and no
    /// request. Otherwise the endpoint and description come from the first
    /// release, and the request names every release (package and tag) in
    /// order; it fails where that endpoint does not parse.
    pub fn plan_announcement(&self, releases: &Vec<Release>, announcement: AnnouncementKey) -> (r:
        Result<Option<Query<AnnounceReleaseRequest>>>)
        ensures
            releases@.len() == 0 ==> r matches Ok(None),
            releases@.len() > 0 ==> {
                let first = releases@[0];
                match r {
                    Ok(Some(q)) => {
                        &&& query_for(q, self.announce_desc(first), self.announce_text(first))
                        &&& q.item.body == announcement.body
                        &&& q.item.releases@.len() == releases@.len()
                        &&& forall|i: int|
                            0 <= i < releases@.len() ==> (#[trigger] q.item.releases@[i]).package@
                                == releases@[i].package@ && q.item.releases@[i].tag@
                                == releases@[i].tag@
                    },
                    Ok(None) => false,
                    Err(e) => url_failure(e, self.announce_desc(first), self.announce_text(first)),
                }
            },
    {
        if releases.len() == 0 {
            return Ok(None);
        }
        let first = &releases[0];
        let desc = self.describe("create announcement for ", first.tag.as_str());
        let url = match self.create_announcement_url(first) {
            Ok(u) => u,
            Err(e) => return Err(GazenotError::new(desc.as_str(), e)),
        };
        let mut keys: Vec<AnnounceReleaseKey> = Vec::new();
        let mut i: usize = 0;
        while i < releases.len()
            invariant
                i <= releases@.len(),
                keys@.len() == i,
                forall|j: int|
                    0 <= j < i ==> (#[trigger] keys@[j]).package@ == releases@[j].package@
                        && keys@[j].tag@ == releases@[j].tag@,
            decreases releases@.len() - i,
        {
            keys.push(
                AnnounceReleaseKey {
                    package: releases[i].package.clone(),
                    tag: releases[i].tag.clone(),
                },
            );
            i = i + 1;
        }
        Ok(Some(Query { desc, url, item: AnnounceReleaseRequest { releases: keys, body: announcement.body } }))
    }
}

/// The outcome of a spawned request: whether the task completed, and if so
/// what the request gave.
pub type TaskOutcome<T> = core::result::Result<ResultInner<T>, tokio::task::JoinError>;

/// `e` reports the failed outcome `outcome` of the request described by
/// `desc` to `url`.
pub open spec fn join_failure<T>(
    desc: String,
    url: Url,
    outcome: TaskOutcome<T>,
    e: GazenotError,
) -> bool {
    &&& e.operation@ == desc@
    &&& e.url matches Some(u) && u@ == url@
    &&& match outcome {
        Err(j) => e.cause == GazenotErrorInner::Join(j),
        Ok(Err(c)) => e.cause == c,
        Ok(Ok(_)) => false,
    }
}

/// Joins the outcomes of the requests of a bulk operation, in submission
/// order: every value where all succeeded, else the first failure, with the
/// description and URL of its request.
pub fn join_all<T>(queries: Vec<(String, Url, TaskOutcome<T>)>) -> (r: Result<Vec<T>>)
    ensures
        match r {
            Ok(v) => v@.len() == queries@.len() && forall|i: int|
                0 <= i < queries@.len() ==> #[trigger] queries@[i].2 == Ok::<
                    ResultInner<T>,
                    tokio::task::JoinError,
                >(Ok(v@[i])),
            Err(e) => exists|k: int|
                0 <= k < queries@.len() && (forall|j: int|
                    0 <= j < k ==> (#[trigger] queries@[j]).2 matches Ok(Ok(_))) && join_failure(
                    queries@[k].0,
                    queries@[k].1,
                    queries@[k].2,
                    e,
                ),
        },
{
    let ghost all = queries@;
    let mut rest = queries;
    let mut results: Vec<T> = Vec::new();
    while rest.len() > 0
        invariant
            all == queries@,
            results@.len() + rest@.len() == all.len(),
            rest@ == all.subrange(results@.len() as int, all.len() as int),
            forall|i: int|
                0 <= i < results@.len() ==> #[trigger] all[i].2 == Ok::<
                    ResultInner<T>,
                    tokio::task::JoinError,
                >(Ok(results@[i])),
        decreases rest@.len(),
    {
        let ghost k = results@.len() as int;
        let (desc, url, outcome) = rest.remove(0);
        assert(all[k] == (desc, url, outcome));
        match outcome {
            Ok(Ok(value)) => {
                results.push(value);
            },
            Ok(Err(cause)) => {
                let err = GazenotError::with_url(desc.as_str(), url.as_str(), cause);
                assert forall|j: int| 0 <= j < k implies (#[trigger] all[j]).2 matches Ok(Ok(_)) by {
                    assert(all[j].2 == Ok::<ResultInner<T>, tokio::task::JoinError>(Ok(results@[j])));
                }
                assert(join_failure(all[k].0, all[k].1, all[k].2, err));
                return Err(err);
            },
            Err(j) => {
                let err = GazenotError::with_url(desc.as_str(), url.as_str(), GazenotErrorInner::Join(j));
                assert forall|i: int| 0 <= i < k implies (#[trigger] all[i]).2 matches Ok(Ok(_)) by {
                    assert(all[i].2 == Ok::<ResultInner<T>, tokio::task::JoinError>(Ok(results@[i])));
                }
                assert(join_failure(all[k].0, all[k].1, all[k].2, err));
                return Err(err);
            },
        }
    }
    Ok(results)
}

/// The payload of an answer to the creation of an artifact set.
#[derive(Clone, Debug, PartialEq, Eq)]
pub struct ArtifactSetResponse {
    pub public_id: String,
    pub set_download_url: Option<UnparsedUrl>,
    pub upload_url: Option<UnparsedUrl>,
    pub release_url: Option<UnparsedUrl>,
    pub announce_url: Option<UnparsedUrl>,
}

impl ArtifactSetResponse {
    /// The artifact set of `package` that the server created.
    pub fn into_artifact_set(self, package: PackageName) -> (r: ArtifactSet)
        ensures
            r.package == package,
            r.public_id == self.public_id,
            r.set_download_url == self.set_download_url,
            r.upload_url == self.upload_url,
            r.release_url == self.release_url,
            r.announce_url == self.announce_url,
            !r.mock,
    {
        ArtifactSet {
            package,
            public_id: self.public_id,
            set_download_url: self.set_download_url,
            upload_url: self.upload_url,
            release_url: self.release_url,
            announce_url: self.announce_url,
            mock: false,
        }
    }
}

/// The payload of an answer to the creation of a release.
#[derive(Clone, Debug, PartialEq, Eq)]
pub struct ReleaseResponse {
    pub release_download_url: Option<UnparsedUrl>,
}

impl CreateReleaseTask {
    /// The release made from this plan, with the server's answer.
    pub fn into_release(self, response: ReleaseResponse) -> (r: Release)
        ensures
            r.package == self.package,
            r.tag == self.request.tag,
            r.release_download_url == response.release_download_url,
            r.announce_url == self.announce_url,
    {
        Release {
            package: self.package,
            tag: self.request.tag,
            release_download_url: response.release_download_url,
            announce_url: self.announce_url,
        }
    }
}

/// The payload of an answer to a listing of releases (empty for now).
#[derive(Clone, Debug, PartialEq, Eq)]
pub struct ListReleasesResponse {}

impl ListReleasesResponse {
    /// The releases of `package`.
    pub fn into_release_list(self, package: PackageName) -> (r: ReleaseList)
        ensures
            r.package == package,
    {
        ReleaseList { package }
    }
}

/// Fails with `IsMocked` for a placeholder set.
pub fn reject_mock(artifact_set: &ArtifactSet) -> (r: ResultInner<()>)
    ensures
        artifact_set.mock <==> r matches Err(GazenotErrorInner::IsMocked),
        !artifact_set.mock <==> r is Ok,
{
    if artifact_set.is_mock() {
        Err(GazenotErrorInner::IsMocked)
    } else {
        Ok(())
    }
}

} // verus!
