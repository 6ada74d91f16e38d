use gazenot::{
    auth_headers, join_all, reject_mock, AnnouncementKey, ArtifactSet, ArtifactSetResponse,
    AuthKeyReason, Gazenot, GazenotErrorInner, ListReleasesResponse, Release, ReleaseKey,
    ReleaseResponse, Url,
};

fn client() -> Gazenot {
    Gazenot::new_unauthed("github".to_owned(), "axodotdev".to_owned()).unwrap()
}

fn set(package: &str, id: &str) -> ArtifactSet {
    ArtifactSet {
        package: package.to_owned(),
        public_id: id.to_owned(),
        set_download_url: None,
        upload_url: None,
        release_url: None,
        announce_url: Some("https://ann.example.com/".to_owned()),
        mock: false,
    }
}

fn key(tag: &str) -> ReleaseKey {
    ReleaseKey { tag: tag.to_owned(), version: "1.0.0".to_owned(), is_prerelease: false }
}

fn url(package: &str) -> Url {
    client().create_artifact_set_url(&package.to_owned()).unwrap()
}

#[test]
fn missing_token_fails() {
    match auth_headers(&"github".to_owned(), &"axodotdev".to_owned(), None) {
        Err(GazenotErrorInner::AuthKey { reason }) => assert_eq!(reason, AuthKeyReason::Missing),
        other => panic!("unexpected {:?}", other),
    }
    let e = Gazenot::new("github".to_owned(), "axodotdev".to_owned(), None).err().unwrap();
    assert!(matches!(e.cause, GazenotErrorInner::AuthKey { reason: AuthKeyReason::Missing }));
    assert_eq!(e.operation, "initializing Abyss authentication");
}

#[test]
fn empty_token_fails() {
    let e = Gazenot::into_the_abyss("github".to_owned(), "axodotdev".to_owned(), Some(String::new()))
        .err()
        .unwrap();
    assert!(matches!(e.cause, GazenotErrorInner::AuthKey { reason: AuthKeyReason::Empty }));
}

#[test]
fn token_with_newline_fails() {
    let r = auth_headers(&"github".to_owned(), &"axodotdev".to_owned(), Some("ab\ncd".to_owned()));
    assert!(matches!(r, Err(GazenotErrorInner::AuthKey { reason: AuthKeyReason::InvalidCharacters })));
}

#[test]
fn identity_with_control_character_fails() {
    let r = auth_headers(&"git\u{7f}hub".to_owned(), &"axodotdev".to_owned(), Some("tok".to_owned()));
    match r {
        Err(GazenotErrorInner::InvalidIdentity { identity }) => assert_eq!(identity, "git\u{7f}hub/axodotdev"),
        other => panic!("unexpected {:?}", other),
    }
}

#[test]
fn valid_token_gives_two_headers() {
    let h = auth_headers(&"github".to_owned(), &"axodotdev".to_owned(), Some("tok\tén".to_owned()))
        .unwrap();
    assert_eq!(
        h,
        vec![
            ("authorization".to_owned(), "Bearer tok\tén".to_owned()),
            ("x-axo-identifier".to_owned(), "github/axodotdev".to_owned()),
        ]
    );
    let c = Gazenot::new("github".to_owned(), "axodotdev".to_owned(), Some("tok".to_owned())).unwrap();
    assert_eq!(c.auth_headers().len(), 2);
    assert_eq!(c.auth_headers()[0].1, "Bearer tok");
}

#[test]
fn reject_mock_only_rejects_mocks() {
    assert!(matches!(reject_mock(&ArtifactSet::mock("p".to_owned())), Err(GazenotErrorInner::IsMocked)));
    assert!(reject_mock(&set("p", "id")).is_ok());
}

#[test]
fn plan_artifact_sets_in_order() {
    let qs = client().plan_artifact_sets(&vec!["a".to_owned(), "b".to_owned()]).unwrap();
    assert_eq!(qs.len(), 2);
    assert_eq!(qs[0].desc, "create hosting for github/axodotdev/a");
    assert_eq!(qs[1].url.as_str(), "https://axo-abyss.fly.dev/github/axodotdev/b/artifacts");
    assert_eq!(qs[1].item, "b");
}

#[test]
fn plan_list_releases_in_order() {
    let qs = client().plan_list_releases(&vec!["a".to_owned()]).unwrap();
    assert_eq!(qs[0].desc, "get releases for github/axodotdev/a");
    assert_eq!(qs[0].url.as_str(), "https://axo-abyss.fly.dev/github/axodotdev/a/releases");
}

#[test]
fn plan_uploads_uses_file_name() {
    let files = vec![(set("oranda", "s1"), "target/dist/app.tar.gz".to_owned())];
    let qs = client().plan_uploads(&files).unwrap();
    assert_eq!(qs[0].desc, "upload app.tar.gz to hosting for github/axodotdev/oranda");
    assert_eq!(
        qs[0].url.as_str(),
        "https://axo-abyss.fly.dev/github/axodotdev/oranda/artifacts/s1/upload/app.tar.gz"
    );
    assert_eq!(qs[0].item, "target/dist/app.tar.gz");
}

#[test]
fn plan_uploads_rejects_mock_before_any_request() {
    let files = vec![
        (set("oranda", "s1"), "a.zip".to_owned()),
        (ArtifactSet::mock("axolotlsay".to_owned()), "b.zip".to_owned()),
        (set("oranda", "s1"), "c.zip".to_owned()),
    ];
    let e = client().plan_uploads(&files).err().unwrap();
    assert!(matches!(e.cause, GazenotErrorInner::IsMocked));
    assert_eq!(e.operation, "upload b.zip to hosting for github/axodotdev/axolotlsay");
    assert_eq!(e.url, None);
}

#[test]
fn plan_uploads_without_file_name() {
    let files = vec![(set("oranda", "s1"), "dist/..".to_owned())];
    let e = client().plan_uploads(&files).err().unwrap();
    match e.cause {
        GazenotErrorInner::NoFileName { path } => assert_eq!(path, "dist/.."),
        other => panic!("unexpected {:?}", other),
    }
}

#[test]
fn plan_releases_carries_request() {
    let qs = client().plan_releases(&vec![(set("oranda", "s9"), key("v1.0.0"))]).unwrap();
    assert_eq!(qs[0].desc, "create release for github/axodotdev/oranda");
    assert_eq!(qs[0].url.as_str(), "https://axo-abyss.fly.dev/github/axodotdev/oranda/releases");
    assert_eq!(qs[0].item.request.artifact_set_id, "s9");
    assert_eq!(qs[0].item.request.tag, "v1.0.0");
    assert_eq!(qs[0].item.announce_url.as_deref(), Some("https://ann.example.com/"));
    let release = qs[0].item.clone().into_release(ReleaseResponse {
        release_download_url: Some("https://dl/".to_owned()),
    });
    assert_eq!(release.package, "oranda");
    assert_eq!(release.tag, "v1.0.0");
    assert_eq!(release.release_download_url.as_deref(), Some("https://dl/"));
}

#[test]
fn plan_releases_rejects_mock() {
    let e = client()
        .plan_releases(&vec![(ArtifactSet::mock("p".to_owned()), key("v1"))])
        .err()
        .unwrap();
    assert!(matches!(e.cause, GazenotErrorInner::IsMocked));
    assert_eq!(e.operation, "create release for github/axodotdev/p");
}

#[test]
fn announcement_of_nothing_is_no_request() {
    let r = client().plan_announcement(&vec![], AnnouncementKey { body: "hi".to_owned() }).unwrap();
    assert!(r.is_none());
}

#[test]
fn announcement_names_every_release() {
    let releases = vec![
        Release { package: "a".to_owned(), tag: "v1".to_owned(), release_download_url: None, announce_url: None },
        Release { package: "b".to_owned(), tag: "v2".to_owned(), release_download_url: None, announce_url: None },
    ];
    let q = client()
        .plan_announcement(&releases, AnnouncementKey { body: "hello".to_owned() })
        .unwrap()
        .unwrap();
    assert_eq!(q.desc, "create announcement for github/axodotdev/v1");
    assert_eq!(q.url.as_str(), "https://axo-abyss.fly.dev/github/axodotdev/announcements");
    assert_eq!(q.item.body, "hello");
    assert_eq!(q.item.releases.len(), 2);
    assert_eq!(q.item.releases[1].package, "b");
    assert_eq!(q.item.releases[1].tag, "v2");
}

#[test]
fn join_all_keeps_order() {
    let qs = vec![
        ("one".to_owned(), url("a"), Ok(Ok(1u32))),
        ("two".to_owned(), url("b"), Ok(Ok(2u32))),
    ];
    assert_eq!(join_all(qs).unwrap(), vec![1, 2]);
}

#[test]
fn join_all_reports_first_failure() {
    let qs = vec![
        ("one".to_owned(), url("a"), Ok(Ok(1u32))),
        ("two".to_owned(), url("b"), Ok(Err(GazenotErrorInner::IsMocked))),
        ("three".to_owned(), url("c"), Ok(Err(GazenotErrorInner::UrlParse { url: "x".to_owned() }))),
    ];
    let e = join_all(qs).err().unwrap();
    assert_eq!(e.operation, "two");
    assert_eq!(e.url.as_deref(), Some("https://axo-abyss.fly.dev/github/axodotdev/b/artifacts"));
    assert!(matches!(e.cause, GazenotErrorInner::IsMocked));
}

#[test]
fn join_all_of_nothing() {
    let qs: Vec<(String, Url, gazenot::TaskOutcome<u8>)> = vec![];
    assert!(join_all(qs).unwrap().is_empty());
}

#[test]
fn responses_become_values() {
    let s = ArtifactSetResponse {
        public_id: "id7".to_owned(),
        set_download_url: None,
        upload_url: Some("https://u/".to_owned()),
        release_url: None,
        announce_url: None,
    }
    .into_artifact_set("oranda".to_owned());
    assert_eq!(s.package, "oranda");
    assert_eq!(s.public_id, "id7");
    assert!(!s.is_mock());
    let l = ListReleasesResponse {}.into_release_list("oranda".to_owned());
    assert_eq!(l.package, "oranda");
}
