use ktra::error::{Error, ErrorKind};
use ktra::index::{find_repo_url, parse_entry, Entry, IndexLog};
use ktra::version::Version;

const FOO: &str = "{\"name\":\"foo\",\"vers\":\"1.0.0\",\"cksum\":\"abc\",\"yanked\":false,\"dependencies\":[],\"repository\":\"https://github.com/acme/foo.git\"}\n{\"name\":\"foo\",\"vers\":\"1.1.0\",\"cksum\":\"def\",\"yanked\":true,\"dependencies\":[]}\n";

fn entry(version: Version, yanked: bool) -> Entry {
    Entry {
        name: "foo".to_string(),
        vers: version,
        cksum: "00".to_string(),
        yanked,
        repository: Some("https://github.com/acme/foo".to_string()),
    }
}

#[test]
fn repository_url_of_a_known_version() {
    let r = find_repo_url(FOO, Version::new(1, 0, 0));
    assert_eq!(r, Ok(Some("https://github.com/acme/foo.git".to_string())));
    assert_eq!(find_repo_url(FOO, Version::new(1, 1, 0)), Ok(None));
}

#[test]
fn version_that_the_index_lacks_is_version_not_found() {
    let r = find_repo_url(FOO, Version::new(9, 9, 9));
    assert_eq!(r, Err(Error::VersionNotFoundInDb(Version::new(9, 9, 9))));
    assert_eq!(r.unwrap_err().kind(), ErrorKind::NotFound);
    assert_eq!(
        find_repo_url("", Version::new(1, 0, 0)),
        Err(Error::VersionNotFoundInDb(Version::new(1, 0, 0)))
    );
}

#[test]
fn a_line_that_is_no_record_stops_the_search_only_before_the_match() {
    let text = format!("{}not json\n", FOO);
    assert_eq!(find_repo_url(&text, Version::new(1, 1, 0)), Ok(None));
    assert_eq!(find_repo_url(&text, Version::new(2, 0, 0)), Err(Error::ParsePackage));
    let blank = format!("\n{}", FOO);
    assert_eq!(find_repo_url(&blank, Version::new(1, 0, 0)), Err(Error::ParsePackage));
}

#[test]
fn record_fields_are_read() {
    let e = parse_entry("{\"name\":\"foo\",\"vers\":\"1.1.0\",\"cksum\":\"def\",\"yanked\":true,\"dependencies\":[],\"repository\":null,\"extra\":1}").unwrap();
    assert_eq!(e.name, "foo");
    assert_eq!(e.vers, Version::new(1, 1, 0));
    assert_eq!(e.cksum, "def");
    assert!(e.yanked);
    assert_eq!(e.repository, None);
}

#[test]
fn records_that_lack_a_field_are_refused() {
    assert_eq!(parse_entry("{\"vers\":\"1.1.0\",\"cksum\":\"def\",\"yanked\":true,\"dependencies\":[]}"), None);
    assert_eq!(parse_entry("{\"name\":\"foo\",\"vers\":\"1.1\",\"cksum\":\"def\",\"yanked\":true,\"dependencies\":[]}"), None);
    assert_eq!(parse_entry("{\"name\":\"foo\",\"vers\":\"1.1.0\",\"cksum\":\"def\",\"yanked\":\"no\",\"dependencies\":[]}"), None);
    assert_eq!(parse_entry("{\"name\":\"foo\",\"vers\":\"1.1.0\",\"cksum\":\"def\",\"yanked\":true}"), None);
    assert_eq!(parse_entry("{\"name\":\"foo\",\"vers\":\"1.1.0\",\"cksum\":\"def\",\"yanked\":true,\"dependencies\":[],\"repository\":7}"), None);
    assert_eq!(parse_entry("[]"), None);
}

#[test]
fn inserted_entry_is_found_and_earlier_entries_stay() {
    let mut log = IndexLog::new();
    log.insert_package(entry(Version::new(1, 0, 0), false));
    log.insert_package(entry(Version::new(1, 1, 0), true));
    let before = log.entries.clone();
    let added = entry(Version::new(2, 0, 0), false);
    log.insert_package(added.clone());
    assert_eq!(log.len(), 3);
    assert_eq!(log.find(&Version::new(2, 0, 0)), Some(&added));
    assert_eq!(&log.entries[..2], &before[..]);
    assert_eq!(log.find(&Version::new(1, 1, 0)), Some(&before[1]));
    assert_eq!(log.find(&Version::new(3, 0, 0)), None);
    assert_eq!(log.position(&Version::new(1, 1, 0)), Some(1));
}

#[test]
fn yank_then_unyank_restores_the_log() {
    let mut log = IndexLog::new();
    log.insert_package(entry(Version::new(1, 0, 0), false));
    log.insert_package(entry(Version::new(1, 1, 0), false));
    let before = log.entries.clone();
    assert_eq!(log.yank(Version::new(1, 1, 0)), Ok(()));
    assert!(log.entries[1].yanked);
    assert!(!log.entries[0].yanked);
    assert_eq!(log.unyank(Version::new(1, 1, 0)), Ok(()));
    assert_eq!(log.entries, before);
}

#[test]
fn yank_twice_and_unyank_twice_change_nothing_the_second_time() {
    let mut log = IndexLog::new();
    log.insert_package(entry(Version::new(1, 0, 0), false));
    assert_eq!(log.yank(Version::new(1, 0, 0)), Ok(()));
    let once = log.entries.clone();
    assert_eq!(log.yank(Version::new(1, 0, 0)), Ok(()));
    assert_eq!(log.entries, once);
    assert_eq!(log.unyank(Version::new(1, 0, 0)), Ok(()));
    let once = log.entries.clone();
    assert_eq!(log.unyank(Version::new(1, 0, 0)), Ok(()));
    assert_eq!(log.entries, once);
    assert!(!log.entries[0].yanked);
}

#[test]
fn yank_of_a_version_that_is_not_there_fails_and_changes_nothing() {
    let mut log = IndexLog::new();
    log.insert_package(entry(Version::new(1, 0, 0), false));
    let before = log.entries.clone();
    assert_eq!(
        log.yank(Version::new(5, 0, 0)),
        Err(Error::VersionNotFoundInDb(Version::new(5, 0, 0)))
    );
    assert_eq!(log.entries, before);
    assert_eq!(
        log.get_repo_url(Version::new(5, 0, 0)),
        Err(Error::VersionNotFoundInDb(Version::new(5, 0, 0)))
    );
    assert_eq!(
        log.get_repo_url(Version::new(1, 0, 0)),
        Ok(Some("https://github.com/acme/foo".to_string()))
    );
}

#[test]
fn error_kinds() {
    assert_eq!(Error::CrateNotFoundInDb("x".to_string()).kind(), ErrorKind::NotFound);
    assert_eq!(Error::UserNotFound("x".to_string()).kind(), ErrorKind::NotFound);
    assert_eq!(Error::TokenNotFound.kind(), ErrorKind::NotFound);
    assert_eq!(Error::ParsePackage.kind(), ErrorKind::ParseFailure);
    assert_eq!(Error::SemVer.kind(), ErrorKind::ParseFailure);
    assert_eq!(Error::Io.kind(), ErrorKind::IoFailure);
    assert_eq!(Error::HttpRequest.kind(), ErrorKind::UpstreamFailure);
    assert_eq!(Error::UrlParsing.kind(), ErrorKind::UpstreamFailure);
    assert_eq!(Error::InvalidHttpResponseLength.kind(), ErrorKind::UpstreamFailure);
    assert_eq!(Error::HttpResponseBuilding.kind(), ErrorKind::ResponseBuildFailure);
}
