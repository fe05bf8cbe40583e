use ktra::get::{apis, login_hint, segments, tail, Method, Request, Route, RouterConfig};
use ktra::version::Version;

fn config(mirroring: bool) -> RouterConfig {
    RouterConfig {
        download_prefix: vec!["dl".to_string()],
        source_host_mirroring: mirroring,
        upstream_mirroring: mirroring,
        login_hint: true,
    }
}

fn get(path: &str) -> Request {
    Request { method: Method::Get, path: path.to_string(), query: None, authorization: None }
}

#[test]
fn path_segments() {
    assert_eq!(tail("/a/b"), "a/b");
    assert_eq!(tail("a/b"), "a/b");
    assert_eq!(tail(""), "");
    assert_eq!(segments("/a/b/"), vec!["a", "b", ""]);
    assert_eq!(segments("/"), vec![""]);
}

#[test]
fn download_route_takes_the_file_below_the_prefix() {
    assert_eq!(
        apis(&config(false), &get("/dl/foo/1.0.0/foo-1.0.0.crate")),
        vec![Route::Download { tail: "foo/1.0.0/foo-1.0.0.crate".to_string() }]
    );
    assert_eq!(apis(&config(false), &get("/dl")), vec![Route::Download { tail: String::new() }]);
    assert_eq!(apis(&config(false), &get("/dlx/foo")), vec![]);
    let head = Request { method: Method::Head, ..get("/dl/foo") };
    assert_eq!(apis(&config(true), &head), vec![Route::Download { tail: "foo".to_string() }]);
    let post = Request { method: Method::Other, ..get("/dl/foo") };
    assert_eq!(apis(&config(true), &post), vec![]);
}

#[test]
fn release_route_follows_the_download_route() {
    assert_eq!(
        apis(&config(true), &get("/dl/foo/1.0.0/foo-1.0.0.crate")),
        vec![
            Route::Download { tail: "foo/1.0.0/foo-1.0.0.crate".to_string() },
            Route::Release { tail: "dl/foo/1.0.0/foo-1.0.0.crate".to_string() },
        ]
    );
}

#[test]
fn mirror_route() {
    assert_eq!(
        apis(&config(true), &get("/ktra/api/v1/mirror/serde/1.0.0/download")),
        vec![
            Route::Release { tail: "ktra/api/v1/mirror/serde/1.0.0/download".to_string() },
            Route::Mirror { name: "serde".to_string(), version: Version::new(1, 0, 0) },
        ]
    );
    assert_eq!(
        apis(&config(true), &get("/ktra/api/v1/mirror/serde/1.0.0/download/")).len(),
        2
    );
    assert_eq!(apis(&config(true), &get("/ktra/api/v1/mirror/serde/1.0/download")).len(), 1);
    assert_eq!(apis(&config(true), &get("/ktra/api/v1/mirror//1.0.0/download")).len(), 1);
    assert_eq!(apis(&config(true), &get("/ktra/api/v1/mirror/serde/1.0.0/download/x")).len(), 1);
    assert_eq!(apis(&config(false), &get("/ktra/api/v1/mirror/serde/1.0.0/download")), vec![]);
}

#[test]
fn owners_route_requires_an_authorization() {
    assert_eq!(apis(&config(false), &get("/api/v1/crates/foo/owners")), vec![]);
    let request = Request { authorization: Some("token".to_string()), ..get("/api/v1/crates/foo/owners") };
    assert_eq!(
        apis(&config(false), &request),
        vec![Route::Owners { name: "foo".to_string(), token: "token".to_string() }]
    );
}

#[test]
fn search_and_login_hint() {
    let request = Request { query: Some("q=serde&per_page=10".to_string()), ..get("/api/v1/crates") };
    assert_eq!(
        apis(&config(false), &request),
        vec![Route::Search { query: "q=serde&per_page=10".to_string() }]
    );
    assert_eq!(apis(&config(false), &get("/api/v1/crates")), vec![Route::Search { query: String::new() }]);
    assert_eq!(apis(&config(false), &get("/me")), vec![Route::Me]);
    let quiet = RouterConfig { login_hint: false, ..config(false) };
    assert_eq!(apis(&quiet, &get("/me")), vec![]);
    assert!(login_hint().starts_with("$ curl -X POST"));
    assert!(login_hint().ends_with("/ktra/api/v1/login/<YOUR USERNAME>"));
}
