use ktra::error::{Error, ErrorKind};
use ktra::index::Entry;
use ktra::models::{IndexConfig, Metadata, Query, User};
use ktra::version::Version;
use ktra::NoDbManager;

fn manager() -> NoDbManager {
    NoDbManager::new(&IndexConfig { local_path: "root".to_string(), token_path: None })
}

#[test]
fn sharded_index_path() {
    assert_eq!(manager().index_path("serde"), Some("root/se/rd/serde".to_string()));
    assert_eq!(manager().index_path("toml"), Some("root/to/ml/toml".to_string()));
    assert_eq!(manager().index_path("syn"), None);
    assert_eq!(manager().index_path(""), None);
}

#[test]
fn repository_url_distinguishes_unknown_crate_from_unknown_version() {
    let index = "{\"name\":\"foo\",\"vers\":\"1.0.0\",\"cksum\":\"abc\",\"yanked\":false,\"dependencies\":[],\"repository\":\"https://github.com/acme/foo\"}\n";
    let db = manager();
    assert_eq!(
        db.get_repo_url("foo", Version::new(9, 9, 9), Some(index)),
        Err(Error::VersionNotFoundInDb(Version::new(9, 9, 9)))
    );
    assert_eq!(
        db.get_repo_url("foo", Version::new(1, 0, 0), None),
        Err(Error::CrateNotFoundInDb("foo".to_string()))
    );
    assert_eq!(
        db.get_repo_url("foo", Version::new(1, 0, 0), Some(index)),
        Ok(Some("https://github.com/acme/foo".to_string()))
    );
}

#[test]
fn publishing_is_allowed_and_editing_is_not() {
    let db = manager();
    assert_eq!(db.can_add_metadata(1, "foo", Version::new(1, 0, 0)), Ok(true));
    assert_eq!(db.can_edit_owners(1, "foo"), Ok(false));
    assert_eq!(db.can_edit_package(1, "foo", Version::new(1, 0, 0)), Ok(false));
    assert_eq!(db.verify_password(1, "secret"), Ok(false));
}

#[test]
fn writes_succeed_and_lookups_find_nothing() {
    let db = manager();
    assert_eq!(db.get_login_prefix(), Ok("no-db"));
    assert_eq!(db.owners("foo"), Ok(vec![]));
    assert_eq!(db.add_owners("foo", &["a".to_string()]), Ok(()));
    assert_eq!(db.remove_owners("foo", &["a".to_string()]), Ok(()));
    assert_eq!(db.last_user_id(), Ok(None));
    assert_eq!(db.user_id_for_token("t"), Err(Error::TokenNotFound));
    assert_eq!(db.user_id_for_token("t").unwrap_err().kind(), ErrorKind::NotFound);
    assert_eq!(db.token_by_login("a"), Ok(None));
    assert_eq!(db.token_by_username("a"), Ok(None));
    assert_eq!(db.set_token(1, "t"), Ok(()));
    assert_eq!(db.user_by_username("a"), Err(Error::UserNotFound("a".to_string())));
    assert_eq!(db.user_by_login("b"), Err(Error::UserNotFound("b".to_string())));
    assert_eq!(db.user_by_login("b").unwrap_err().kind(), ErrorKind::NotFound);
    assert_eq!(User::default(), User { id: 0, login: String::new(), name: None });
    assert_eq!(db.add_new_user(User::default(), "pw"), Ok(()));
    assert_eq!(db.change_password(1, "old", "new"), Ok(()));
    let metadata = Metadata {
        name: "foo".to_string(),
        vers: Version::new(1, 0, 0),
        description: None,
        repository: None,
    };
    assert_eq!(db.add_new_metadata(1, metadata), Ok(()));
    assert_eq!(db.yank("foo", Version::new(1, 0, 0)), Ok(()));
    assert_eq!(db.unyank("foo", Version::new(1, 0, 0)), Ok(()));
    let query = Query { string: "foo".to_string(), limit: None };
    assert_eq!(db.search(&query), Err(Error::CrateNotFoundInDb(String::new())));
    let entry = Entry {
        name: "foo".to_string(),
        vers: Version::new(1, 0, 0),
        cksum: String::new(),
        yanked: false,
        repository: None,
    };
    assert_eq!(db.insert_package("foo", entry), Ok(()));
}
