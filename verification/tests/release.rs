use ktra::error::{Error, Rejection};
use ktra::json::Json;
use ktra::mirror::Answer;
use ktra::release::{
    asset_url, credential, download_path, release_url, step, ReleaseAction, ReleaseConfig,
    ReleaseEvent, ReleaseState, TextAnswer,
};
use ktra::version::Version;

fn page(status: u16, body: &str) -> ReleaseEvent {
    ReleaseEvent::Metadata(Some(TextAnswer { status, body: body.to_string() }))
}

fn asset(status: u16, body: &[u8]) -> ReleaseEvent {
    ReleaseEvent::Asset(Some(Answer { status, body: body.to_vec() }))
}

fn config() -> ReleaseConfig {
    ReleaseConfig { download_root: "dl".to_string(), token_path: Some("token.txt".to_string()) }
}

const RELEASE: &str = "{\"tag_name\":\"v1.2.3\",\"assets\":[{\"name\":\"notes.txt\",\"url\":\"https://api.github.com/assets/1\"},{\"name\":\"widget-1.2.3.crate\",\"url\":\"https://api.github.com/assets/2\"},{\"name\":\"other.crate\",\"url\":\"https://api.github.com/assets/3\"}]}";

#[test]
fn release_lookup_url_for_a_github_repository() {
    assert_eq!(
        release_url("https://github.com/acme/widget.git", &Version::new(1, 2, 3)),
        "https://api.github.com/repos/acme/widget/releases/tags/v1.2.3"
    );
    assert_eq!(
        release_url("https://github.com/acme/widget", &Version::parse("1.2.3-rc.1").unwrap()),
        "https://api.github.com/repos/acme/widget/releases/tags/v1.2.3-rc.1"
    );
}

#[test]
fn other_hosts_are_left_as_they_are() {
    assert_eq!(
        release_url("https://gitlab.com/acme/widget.git", &Version::new(0, 1, 0)),
        "https://gitlab.com/acme/widget/releases/tags/v0.1.0"
    );
    assert_eq!(release_url(".git", &Version::new(0, 1, 0)), "/releases/tags/v0.1.0");
}

#[test]
fn credential_is_the_file_without_its_last_character() {
    assert_eq!(credential("ghp_abc\n"), "ghp_abc");
    assert_eq!(credential(""), "");
    assert_eq!(credential("x"), "");
}

#[test]
fn download_path_convention() {
    assert_eq!(
        download_path("dl", "widget", &Version::new(1, 2, 3)),
        "dl/widget/1.2.3/widget-1.2.3.crate"
    );
}

#[test]
fn first_crate_asset_is_chosen() {
    let release = Json::parse(RELEASE).unwrap();
    assert_eq!(asset_url(&release), Some("https://api.github.com/assets/2".to_string()));
}

#[test]
fn release_without_crate_asset_has_no_asset_url() {
    let none = Json::parse("{\"assets\":[{\"name\":\"notes.txt\",\"url\":\"u\"},{\"url\":\"v\"}]}").unwrap();
    assert_eq!(asset_url(&none), None);
    assert_eq!(asset_url(&Json::parse("{\"message\":\"Not Found\"}").unwrap()), None);
    assert_eq!(asset_url(&Json::parse("{\"assets\":[]}").unwrap()), None);
    let no_url = Json::parse("{\"assets\":[{\"name\":\"a.crate\"},{\"name\":\"b.crate\",\"url\":\"u\"}]}").unwrap();
    assert_eq!(asset_url(&no_url), None);
    let empty_url = Json::parse("{\"assets\":[{\"name\":\"a.crate\",\"url\":\"\"}]}").unwrap();
    assert_eq!(asset_url(&empty_url), None);
}

#[test]
fn resolution_runs_from_request_to_reply() {
    let c = config();
    let (s, a) = step(&c, ReleaseState::Start, ReleaseEvent::Request { tail: "dl/widget/1.2.3/widget-1.2.3.crate".to_string() });
    assert_eq!(a, ReleaseAction::FindRepository { name: "widget".to_string(), version: Version::new(1, 2, 3) });
    let (s, a) = step(&c, s, ReleaseEvent::Repository(Ok(Some("https://github.com/acme/widget.git".to_string()))));
    assert_eq!(a, ReleaseAction::ReadToken { path: "token.txt".to_string() });
    let (s, a) = step(&c, s, ReleaseEvent::Token(Some("secret\n".to_string())));
    assert_eq!(
        a,
        ReleaseAction::FetchMetadata {
            url: "https://api.github.com/repos/acme/widget/releases/tags/v1.2.3".to_string(),
            authorization: "token secret".to_string(),
            user_agent: "rust web-api-client demo".to_string(),
        }
    );
    let (s, a) = step(&c, s, page(200, RELEASE));
    assert_eq!(
        a,
        ReleaseAction::FetchAsset {
            url: "https://api.github.com/assets/2".to_string(),
            authorization: "Bearer secret".to_string(),
            accept: "application/octet-stream".to_string(),
            user_agent: "rust web-api-client demo".to_string(),
        }
    );
    let (s, a) = step(&c, s, asset(200, &[1, 2, 3]));
    assert_eq!(
        a,
        ReleaseAction::Persist { path: "dl/widget/1.2.3/widget-1.2.3.crate".to_string(), bytes: vec![1, 2, 3] }
    );
    assert_eq!(s, ReleaseState::Persist { bytes: vec![1, 2, 3] });
    let (s, a) = step(&c, s, ReleaseEvent::Persisted(true));
    assert_eq!(a, ReleaseAction::Reply { content_type: "application/x-tar".to_string(), bytes: vec![1, 2, 3] });
    assert_eq!(s, ReleaseState::Done);
}

#[test]
fn no_crate_asset_is_not_found_and_nothing_is_written() {
    let c = config();
    let state = ReleaseState::Metadata {
        name: "widget".to_string(),
        version: Version::new(1, 2, 3),
        credential: "secret".to_string(),
    };
    let (s, a) = step(&c, state, page(200, "{\"assets\":[{\"name\":\"notes.txt\",\"url\":\"u\"}]}"));
    assert_eq!(a, ReleaseAction::Reject(Rejection::NotFound));
    assert_eq!(s, ReleaseState::Done);
    let (s, a) = step(&c, s, asset(200, &[1]));
    assert_eq!(a, ReleaseAction::Reject(Rejection::Custom(Error::HttpResponseBuilding)));
    assert_eq!(s, ReleaseState::Done);
}

#[test]
fn resolution_failures() {
    let c = config();
    let request = |tail: &str| step(&c, ReleaseState::Start, ReleaseEvent::Request { tail: tail.to_string() }).1;
    assert_eq!(request("dl/widget"), ReleaseAction::Reject(Rejection::NotFound));
    assert_eq!(request(""), ReleaseAction::Reject(Rejection::NotFound));
    assert_eq!(request("dl/widget/one"), ReleaseAction::Reject(Rejection::Custom(Error::SemVer)));
    let waiting = || ReleaseState::Repository { name: "widget".to_string(), version: Version::new(1, 2, 3) };
    assert_eq!(
        step(&c, waiting(), ReleaseEvent::Repository(Ok(None))).1,
        ReleaseAction::Reject(Rejection::NotFound)
    );
    assert_eq!(
        step(&c, waiting(), ReleaseEvent::Repository(Err(Error::VersionNotFoundInDb(Version::new(1, 2, 3))))).1,
        ReleaseAction::Reject(Rejection::Custom(Error::VersionNotFoundInDb(Version::new(1, 2, 3))))
    );
    let no_token = ReleaseConfig { download_root: "dl".to_string(), token_path: None };
    assert_eq!(
        step(&no_token, waiting(), ReleaseEvent::Repository(Ok(Some("https://github.com/a/b".to_string())))).1,
        ReleaseAction::Reject(Rejection::NotFound)
    );
    let token = ReleaseState::Token { name: "widget".to_string(), version: Version::new(1, 2, 3), url: "u".to_string() };
    assert_eq!(step(&c, token, ReleaseEvent::Token(None)).1, ReleaseAction::Reject(Rejection::Custom(Error::Io)));
    let metadata = || ReleaseState::Metadata { name: "widget".to_string(), version: Version::new(1, 2, 3), credential: "s".to_string() };
    assert_eq!(step(&c, metadata(), ReleaseEvent::Metadata(None)).1, ReleaseAction::Reject(Rejection::Custom(Error::HttpRequest)));
    assert_eq!(
        step(&c, metadata(), page(200, "<html>")).1,
        ReleaseAction::Reject(Rejection::Custom(Error::HttpRequest))
    );
    let asset = ReleaseState::Asset { name: "widget".to_string(), version: Version::new(1, 2, 3) };
    assert_eq!(step(&c, asset, ReleaseEvent::Asset(None)).1, ReleaseAction::Reject(Rejection::Custom(Error::HttpRequest)));
    let persist = ReleaseState::Persist { bytes: vec![1] };
    assert_eq!(step(&c, persist, ReleaseEvent::Persisted(false)).1, ReleaseAction::Reject(Rejection::Custom(Error::Io)));
}

#[test]
fn answers_without_success_are_upstream_failures_and_nothing_is_written() {
    let c = config();
    let failure = ReleaseAction::Reject(Rejection::Custom(Error::HttpRequest));
    let metadata = || ReleaseState::Metadata { name: "widget".to_string(), version: Version::new(1, 2, 3), credential: "s".to_string() };
    let (s, a) = step(&c, metadata(), page(404, RELEASE));
    assert_eq!(a, failure);
    assert_eq!(s, ReleaseState::Done);
    assert_eq!(step(&c, metadata(), page(199, RELEASE)).1, failure);
    assert_eq!(step(&c, metadata(), page(300, RELEASE)).1, failure);
    assert!(matches!(step(&c, metadata(), page(299, RELEASE)).1, ReleaseAction::FetchAsset { .. }));
    let waiting = || ReleaseState::Asset { name: "widget".to_string(), version: Version::new(1, 2, 3) };
    let (s, a) = step(&c, waiting(), asset(500, &[1, 2]));
    assert_eq!(a, failure);
    assert_eq!(s, ReleaseState::Done);
    assert_eq!(step(&c, waiting(), asset(302, &[1, 2])).1, failure);
    assert!(matches!(step(&c, waiting(), asset(204, &[])).1, ReleaseAction::Persist { .. }));
}
