//! The router for requests that read: which of the registry's routes a
//! request may take, and in which order they are tried.
//!
//! A route that turns a request away hands it to the next one, so the router
//! gives every route that applies, first to last.

use crate::text::{chars_of, owned, same_text, split, split_on, text_of, text_view};
use crate::version::{semver_parse, Version, VersionView};
use vstd::prelude::*;
use vstd::string::StringExecFns;

verus! {

/// The method of a request, as far as the router tells methods apart.
#[derive(Clone, Copy, Debug, PartialEq, Eq, Structural)]
pub enum Method {
    Get,
    Head,
    Other,
}

/// What the router reads of a request.
#[derive(Debug, PartialEq, Eq)]
pub struct Request {
    pub method: Method,
    /// The path, with the slash it begins with.
    pub path: String,
    /// What follows the question mark, if there is one.
    pub query: Option<String>,
    /// The value of the authorization header, if there is one.
    pub authorization: Option<String>,
}

pub ghost struct RequestView {
    pub method: Method,
    pub path: Seq<char>,
    pub query: Option<Seq<char>>,
    pub authorization: Option<Seq<char>>,
}

impl View for Request {
    type V = RequestView;

    open spec fn view(&self) -> RequestView {
        RequestView {
            method: self.method,
            path: self.path@,
            query: text_view(self.query),
            authorization: text_view(self.authorization),
        }
    }
}

/// Which routes the registry offers.
#[derive(Debug, PartialEq, Eq)]
pub struct RouterConfig {
    /// The path segments below which crate files are served.
    pub download_prefix: Vec<String>,
    /// Whether crate files are also taken from the repositories' releases.
    pub source_host_mirroring: bool,
    /// Whether the upstream registry is mirrored.
    pub upstream_mirroring: bool,
    /// Whether `/me` tells how to log in. It does not where another way of
    /// logging in is set up.
    pub login_hint: bool,
}

pub ghost struct RouterConfigView {
    pub download_prefix: Seq<Seq<char>>,
    pub source_host_mirroring: bool,
    pub upstream_mirroring: bool,
    pub login_hint: bool,
}

impl View for RouterConfig {
    type V = RouterConfigView;

    open spec fn view(&self) -> RouterConfigView {
        RouterConfigView {
            download_prefix: self.download_prefix.deep_view(),
            source_host_mirroring: self.source_host_mirroring,
            upstream_mirroring: self.upstream_mirroring,
            login_hint: self.login_hint,
        }
    }
}

/// A route that a request may take.
#[derive(Debug, PartialEq, Eq)]
pub enum Route {
    /// Serve the file `tail` of the download directory as it is.
    Download { tail: String },
    /// Resolve the crate file from a release; `tail` is the whole path
    /// without the slash it begins with.
    Release { tail: String },
    /// Serve the crate file from the mirror cache.
    Mirror { name: String, version: Version },
    /// List the owners of a crate. `token` is what the request gave as its
    /// authorization; it is required and not looked into.
    Owners { name: String, token: String },
    /// Search the crates; `query` is the request's query as it came.
    Search { query: String },
    /// Tell how to log in.
    Me,
}

pub ghost enum RouteView {
    Download { tail: Seq<char> },
    Release { tail: Seq<char> },
    Mirror { name: Seq<char>, version: VersionView },
    Owners { name: Seq<char>, token: Seq<char> },
    Search { query: Seq<char> },
    Me,
}

impl View for Route {
    type V = RouteView;

    open spec fn view(&self) -> RouteView {
        match self {
            Route::Download { tail } => RouteView::Download { tail: tail@ },
            Route::Release { tail } => RouteView::Release { tail: tail@ },
            Route::Mirror { name, version } => RouteView::Mirror { name: name@, version: version@ },
            Route::Owners { name, token } => RouteView::Owners { name: name@, token: token@ },
            Route::Search { query } => RouteView::Search { query: query@ },
            Route::Me => RouteView::Me,
        }
    }
}

impl DeepView for Route {
    type V = RouteView;

    open spec fn deep_view(&self) -> RouteView {
        self@
    }
}

/// A path without the slash it begins with.
pub open spec fn tail_of(path: Seq<char>) -> Seq<char> {
    if path.len() > 0 && path[0] == '/' {
        path.skip(1)
    } else {
        path
    }
}

/// The segments of a path: the pieces of its tail between slashes.
pub open spec fn segments_of(path: Seq<char>) -> Seq<Seq<char>> {
    split_on(tail_of(path), '/')
}

/// Whether a path of these segments ends after `n` of them: there are no
/// more, or one more that is empty, which a slash at the end of the path
/// leaves.
pub open spec fn ends_at(segments: Seq<Seq<char>>, n: int) -> bool {
    segments.len() == n || (segments.len() == n + 1 && segments[n].len() == 0)
}

/// Pieces joined by a separator.
pub open spec fn join_with(parts: Seq<Seq<char>>, sep: char) -> Seq<char>
    decreases parts.len(),
{
    if parts.len() == 0 {
        Seq::<char>::empty()
    } else if parts.len() == 1 {
        parts[0]
    } else {
        join_with(parts.drop_last(), sep).push(sep) + parts.last()
    }
}

/// The download route applies to a `GET` or `HEAD` whose path begins with
/// the segments of the download prefix; what follows them names the file.
pub open spec fn download_route(config: RouterConfigView, request: RequestView) -> Option<RouteView> {
    let segments = segments_of(request.path);
    if (request.method == Method::Get || request.method == Method::Head)
        && config.download_prefix.is_prefix_of(segments) {
        Some(
            RouteView::Download {
                tail: join_with(segments.skip(config.download_prefix.len() as int), '/'),
            },
        )
    } else {
        None
    }
}

/// The release route applies to every `GET`, where it is switched on.
pub open spec fn release_route(config: RouterConfigView, request: RequestView) -> Option<RouteView> {
    if request.method == Method::Get && config.source_host_mirroring {
        Some(RouteView::Release { tail: tail_of(request.path) })
    } else {
        None
    }
}

/// The mirror route applies, where it is switched on, to a `GET` of
/// `/ktra/api/v1/mirror/<name>/<version>/download` with a name that is not
/// empty and a version that is a semantic version.
pub open spec fn mirror_route(config: RouterConfigView, request: RequestView) -> Option<RouteView> {
    let s = segments_of(request.path);
    if request.method == Method::Get && config.upstream_mirroring && ends_at(s, 7) && s[0]
        == "ktra"@ && s[1] == "api"@ && s[2] == "v1"@ && s[3] == "mirror"@ && s[4].len() > 0
        && s[5].len() > 0 && s[6] == "download"@ {
        match semver_parse(s[5]) {
            Some(version) => Some(RouteView::Mirror { name: s[4], version }),
            None => None,
        }
    } else {
        None
    }
}

/// The owners route applies to a `GET` of `/api/v1/crates/<name>/owners`
/// with a name that is not empty, if the request gives an authorization.
pub open spec fn owners_route(request: RequestView) -> Option<RouteView> {
    let s = segments_of(request.path);
    if request.method == Method::Get && ends_at(s, 5) && s[0] == "api"@ && s[1] == "v1"@ && s[2]
        == "crates"@ && s[3].len() > 0 && s[4] == "owners"@ {
        match request.authorization {
            Some(token) => Some(RouteView::Owners { name: s[3], token }),
            None => None,
        }
    } else {
        None
    }
}

/// The search route applies to a `GET` of `/api/v1/crates`.
pub open spec fn search_route(request: RequestView) -> Option<RouteView> {
    let s = segments_of(request.path);
    if request.method == Method::Get && ends_at(s, 3) && s[0] == "api"@ && s[1] == "v1"@ && s[2]
        == "crates"@ {
        Some(
            RouteView::Search {
                query: match request.query {
                    Some(q) => q,
                    None => Seq::<char>::empty(),
                },
            },
        )
    } else {
        None
    }
}

/// The login hint applies to a `GET` of `/me`, where it is switched on.
pub open spec fn me_route(config: RouterConfigView, request: RequestView) -> Option<RouteView> {
    let s = segments_of(request.path);
    if request.method == Method::Get && config.login_hint && ends_at(s, 1) && s[0] == "me"@ {
        Some(RouteView::Me)
    } else {
        None
    }
}

/// `routes` with one more route at its end, if there is one.
pub open spec fn with_route(routes: Seq<RouteView>, route: Option<RouteView>) -> Seq<RouteView> {
    match route {
        Some(r) => routes.push(r),
        None => routes,
    }
}

/// The routes that apply to a request, in the order in which they are tried:
/// download, release, mirror, owners, search, login hint.
pub open spec fn routes_of(config: RouterConfigView, request: RequestView) -> Seq<RouteView> {
    with_route(
        with_route(
            with_route(
                with_route(
                    with_route(
                        with_route(Seq::<RouteView>::empty(), download_route(config, request)),
                        release_route(config, request),
                    ),
                    mirror_route(config, request),
                ),
                owners_route(request),
            ),
            search_route(request),
        ),
        me_route(config, request),
    )
}

/// The view of a route that may not be there.
pub open spec fn route_view(route: Option<Route>) -> Option<RouteView> {
    match route {
        Some(r) => Some(r@),
        None => None,
    }
}

/// A request that is no `GET` takes no route but, for a `HEAD`, the download
/// route.
pub proof fn lemma_only_get(config: RouterConfigView, request: RequestView)
    requires
        request.method != Method::Get,
    ensures
        routes_of(config, request) == with_route(
            Seq::<RouteView>::empty(),
            download_route(config, request),
        ),
        request.method != Method::Head ==> routes_of(config, request).len() == 0,
{
}

/// A path without the slash it begins with.
pub fn tail(path: &str) -> (r: String)
    ensures
        r@ == tail_of(path@),
{
    let chars = chars_of(path);
    if chars.len() > 0 && chars[0] == '/' {
        text_of(&chars, 1, chars.len())
    } else {
        owned(path)
    }
}

/// The segments of a path.
pub fn segments(path: &str) -> (r: Vec<String>)
    ensures
        r.deep_view() == segments_of(path@),
{
    let rest = tail(path);
    split(rest.as_str(), '/')
}

/// Whether a path of these segments ends after `n` of them.
fn path_ends_at(segments: &Vec<String>, n: usize) -> (r: bool)
    requires
        n < usize::MAX,
    ensures
        r == ends_at(segments.deep_view(), n as int),
{
    if segments.len() == n {
        true
    } else if segments.len() == n + 1 {
        assert(segments.deep_view()[n as int] == segments@[n as int]@);
        segments[n].as_str().is_empty()
    } else {
        false
    }
}

/// Whether the segment at `i` is `text`.
fn segment_is(segments: &Vec<String>, i: usize, text: &str) -> (r: bool)
    requires
        i < segments.len(),
    ensures
        r == (segments.deep_view()[i as int] == text@),
{
    assert(segments.deep_view()[i as int] == segments@[i as int]@);
    same_text(segments[i].as_str(), text)
}

/// Whether the segment at `i` is not empty.
fn segment_is_filled(segments: &Vec<String>, i: usize) -> (r: bool)
    requires
        i < segments.len(),
    ensures
        r == (segments.deep_view()[i as int].len() > 0),
{
    assert(segments.deep_view()[i as int] == segments@[i as int]@);
    !segments[i].as_str().is_empty()
}

/// The segments from `from` on, joined by slashes.
fn join_from(segments: &Vec<String>, from: usize) -> (r: String)
    requires
        from <= segments.len(),
    ensures
        r@ == join_with(segments.deep_view().skip(from as int), '/'),
{
    let mut r = String::new();
    let ghost rest = segments.deep_view().skip(from as int);
    let mut i: usize = from;
    while i < segments.len()
        invariant
            from <= i <= segments.len(),
            rest == segments.deep_view().skip(from as int),
            r@ == join_with(rest.take(i - from), '/'),
        decreases segments.len() - i,
    {
        proof {
            let k = i - from;
            assert(rest.take(k + 1).drop_last() =~= rest.take(k));
            assert(rest.take(k + 1).last() == segments@[i as int]@);
            reveal_strlit("/");
            assert("/"@ =~= seq!['/']);
            if k > 0 {
                assert(r@ + "/"@ + segments@[i as int]@ =~= r@.push('/') + segments@[i as int]@);
            } else {
                assert(r@ =~= Seq::<char>::empty());
                assert(r@ + segments@[i as int]@ =~= segments@[i as int]@);
                assert(rest.take(1)[0] == segments@[i as int]@);
            }
        }
        if i > from {
            r.append("/");
        }
        r.append(segments[i].as_str());
        i = i + 1;
    }
    assert(rest.take(segments.len() - from) =~= rest);
    r
}

/// Whether `segments` begins with `prefix`.
fn begins_with(segments: &Vec<String>, prefix: &Vec<String>) -> (r: bool)
    ensures
        r == prefix.deep_view().is_prefix_of(segments.deep_view()),
{
    if prefix.len() > segments.len() {
        return false;
    }
    let mut i: usize = 0;
    while i < prefix.len()
        invariant
            i <= prefix.len() <= segments.len(),
            forall|j: int| 0 <= j < i ==> segments.deep_view()[j] == prefix.deep_view()[j],
        decreases prefix.len() - i,
    {
        assert(segments.deep_view()[i as int] == segments@[i as int]@);
        assert(prefix.deep_view()[i as int] == prefix@[i as int]@);
        if !same_text(segments[i].as_str(), prefix[i].as_str()) {
            assert(segments.deep_view().subrange(0, prefix.deep_view().len() as int)[i as int]
                != prefix.deep_view()[i as int]);
            return false;
        }
        i = i + 1;
    }
    assert(prefix.deep_view() =~= segments.deep_view().subrange(
        0,
        prefix.deep_view().len() as int,
    ));
    true
}

/// The download route, if it applies.
fn download(config: &RouterConfig, request: &Request, segments: &Vec<String>) -> (r: Option<Route>)
    requires
        segments.deep_view() == segments_of(request@.path),
    ensures
        route_view(r) == download_route(config@, request@),
{
    let reads = match request.method {
        Method::Get => true,
        Method::Head => true,
        Method::Other => false,
    };
    if reads && begins_with(segments, &config.download_prefix) {
        Some(Route::Download { tail: join_from(segments, config.download_prefix.len()) })
    } else {
        None
    }
}

/// Whether the request is a `GET`.
fn is_get(request: &Request) -> (r: bool)
    ensures
        r == (request@.method == Method::Get),
{
    match request.method {
        Method::Get => true,
        _ => false,
    }
}

/// The release route, if it applies.
fn download_github(config: &RouterConfig, request: &Request) -> (r: Option<Route>)
    ensures
        route_view(r) == release_route(config@, request@),
{
    if is_get(request) && config.source_host_mirroring {
        Some(Route::Release { tail: tail(request.path.as_str()) })
    } else {
        None
    }
}

/// The mirror route, if it applies.
fn download_crates_io(config: &RouterConfig, request: &Request, segments: &Vec<String>) -> (r:
    Option<Route>)
    requires
        segments.deep_view() == segments_of(request@.path),
    ensures
        route_view(r) == mirror_route(config@, request@),
{
    if is_get(request) && config.upstream_mirroring && path_ends_at(segments, 7) && segment_is(
        segments,
        0,
        "ktra",
    ) && segment_is(segments, 1, "api") && segment_is(segments, 2, "v1") && segment_is(
        segments,
        3,
        "mirror",
    ) && segment_is_filled(segments, 4) && segment_is_filled(segments, 5) && segment_is(
        segments,
        6,
        "download",
    ) {
        assert(segments.deep_view()[4] == segments@[4]@);
        assert(segments.deep_view()[5] == segments@[5]@);
        match Version::parse(segments[5].as_str()) {
            Ok(version) => Some(Route::Mirror { name: segments[4].clone(), version }),
            Err(_) => None,
        }
    } else {
        None
    }
}

/// The owners route, if it applies.
fn owners(request: &Request, segments: &Vec<String>) -> (r: Option<Route>)
    requires
        segments.deep_view() == segments_of(request@.path),
    ensures
        route_view(r) == owners_route(request@),
{
    if is_get(request) && path_ends_at(segments, 5) && segment_is(segments, 0, "api")
        && segment_is(segments, 1, "v1") && segment_is(segments, 2, "crates") && segment_is_filled(
        segments,
        3,
    ) && segment_is(segments, 4, "owners") {
        assert(segments.deep_view()[3] == segments@[3]@);
        match &request.authorization {
            Some(token) => Some(
                Route::Owners { name: segments[3].clone(), token: token.clone() },
            ),
            None => None,
        }
    } else {
        None
    }
}

/// The search route, if it applies.
fn search(request: &Request, segments: &Vec<String>) -> (r: Option<Route>)
    requires
        segments.deep_view() == segments_of(request@.path),
    ensures
        route_view(r) == search_route(request@),
{
    if is_get(request) && path_ends_at(segments, 3) && segment_is(segments, 0, "api")
        && segment_is(segments, 1, "v1") && segment_is(segments, 2, "crates") {
        Some(
            Route::Search {
                query: match &request.query {
                    Some(q) => q.clone(),
                    None => String::new(),
                },
            },
        )
    } else {
        None
    }
}

/// The login hint, if it applies.
fn me(config: &RouterConfig, request: &Request, segments: &Vec<String>) -> (r: Option<Route>)
    requires
        segments.deep_view() == segments_of(request@.path),
    ensures
        route_view(r) == me_route(config@, request@),
{
    if is_get(request) && config.login_hint && path_ends_at(segments, 1) && segment_is(
        segments,
        0,
        "me",
    ) {
        Some(Route::Me)
    } else {
        None
    }
}

/// Puts a route at the end of `routes`, if there is one.
fn push_route(routes: &mut Vec<Route>, route: Option<Route>)
    ensures
        final(routes).deep_view() == with_route(old(routes).deep_view(), route_view(route)),
{
    match route {
        Some(r) => {
            let ghost before = routes.deep_view();
            routes.push(r);
            assert(routes.deep_view() =~= before.push(r@));
        },
        None => {},
    }
}

/// The routes that apply to a request, in the order in which they are to be
/// tried: a request goes to the first, and on to the next where a route
/// turns it away.
pub fn apis(config: &RouterConfig, request: &Request) -> (routes: Vec<Route>)
    ensures
        routes.deep_view() == routes_of(config@, request@),
{
    let parts = segments(request.path.as_str());
    let mut routes: Vec<Route> = Vec::new();
    assert(routes.deep_view() =~= Seq::<RouteView>::empty());
    push_route(&mut routes, download(config, request, &parts));
    push_route(&mut routes, download_github(config, request));
    push_route(&mut routes, download_crates_io(config, request, &parts));
    push_route(&mut routes, owners(request, &parts));
    push_route(&mut routes, search(request, &parts));
    push_route(&mut routes, me(config, request, &parts));
    routes
}

/// What `/me` answers: how to log in.
pub fn login_hint() -> (r: &'static str)
    ensures
        r@ == "$ curl -X POST -H 'Content-Type: application/json' -d '{\"password\":\"YOUR PASSWORD\"}' https://<YOURDOMAIN>/ktra/api/v1/login/<YOUR USERNAME>"@,
{
    "$ curl -X POST -H 'Content-Type: application/json' -d '{\"password\":\"YOUR PASSWORD\"}' https://<YOURDOMAIN>/ktra/api/v1/login/<YOUR USERNAME>"
}

} // verus!
