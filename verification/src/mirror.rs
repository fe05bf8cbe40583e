//! The mirror cache: crate files of the upstream registry, fetched on first
//! request and served from disk afterwards.
//!
//! The cache decides; it does not read, fetch or write. Its caller does what
//! an action asks for and reports the outcome as the next event.

use crate::error::{Error, ErrorView, Rejection, RejectionView};
use crate::text::{owned, text_view};
use crate::version::{version_text, Version, VersionView};
use vstd::prelude::*;
use vstd::string::StringExecFns;

verus! {

/// The directory of a cached crate file.
pub open spec fn cache_dir_of(root: Seq<char>, name: Seq<char>, version: VersionView) -> Seq<char> {
    root + "/"@ + name + "/"@ + version_text(version)
}

/// The file of a cached crate file.
pub open spec fn cache_path_of(root: Seq<char>, name: Seq<char>, version: VersionView) -> Seq<
    char,
> {
    cache_dir_of(root, name, version) + "/download"@
}

/// What is asked of the upstream registry for a crate file, relative to the
/// address of its crates.
pub open spec fn upstream_reference(name: Seq<char>, version: VersionView) -> Seq<char> {
    name + "/"@ + version_text(version) + "/download"@
}

/// The text of the address that a reference denotes relative to a base
/// address, or `None` where the base is no address or the reference cannot be
/// resolved against it.
pub uninterp spec fn url_join(base: Seq<char>, reference: Seq<char>) -> Option<Seq<char>>;

/// The address from which the upstream registry serves a crate file.
pub open spec fn upstream_url_of(name: Seq<char>, version: VersionView) -> Option<Seq<char>> {
    url_join("https://crates.io/api/v1/crates/"@, upstream_reference(name, version))
}

/// Whether a status stands for success.
pub open spec fn is_success(status: int) -> bool {
    200 <= status < 300
}

/// Resolves `reference` against `base`: `url::Url::parse` reads the base,
/// `url::Url::join` resolves the reference, and the text of the result is
/// handed back. The contract only names the outcome: it is `url_join` of the
/// two texts, and `None` stands for the error of either call.
#[verifier::external_body]
fn join_url(base: &str, reference: &str) -> (r: Option<String>)
    ensures
        text_view(r) == url_join(base@, reference@),
{
    url::Url::parse(base).ok()?.join(reference).ok().map(String::from)
}

/// The answer of the upstream registry.
#[derive(Debug, PartialEq, Eq)]
pub struct Answer {
    pub status: u16,
    pub body: Vec<u8>,
}

pub ghost struct AnswerView {
    pub status: int,
    pub body: Seq<u8>,
}

impl View for Answer {
    type V = AnswerView;

    open spec fn view(&self) -> AnswerView {
        AnswerView { status: self.status as int, body: self.body@ }
    }
}

/// Where a fetch stands: what it waits for, and what it has to remember.
#[derive(Debug, PartialEq, Eq)]
pub enum CacheState {
    Start,
    Probe { name: String, version: Version },
    Read,
    Prepare { name: String, version: Version },
    Fetch { path: String },
    Write { body: Vec<u8> },
    Done,
}

pub ghost enum CacheStateView {
    Start,
    Probe { name: Seq<char>, version: VersionView },
    Read,
    Prepare { name: Seq<char>, version: VersionView },
    Fetch { path: Seq<char> },
    Write { body: Seq<u8> },
    Done,
}

impl View for CacheState {
    type V = CacheStateView;

    open spec fn view(&self) -> CacheStateView {
        match self {
            CacheState::Start => CacheStateView::Start,
            CacheState::Probe { name, version } => CacheStateView::Probe {
                name: name@,
                version: version@,
            },
            CacheState::Read => CacheStateView::Read,
            CacheState::Prepare { name, version } => CacheStateView::Prepare {
                name: name@,
                version: version@,
            },
            CacheState::Fetch { path } => CacheStateView::Fetch { path: path@ },
            CacheState::Write { body } => CacheStateView::Write { body: body@ },
            CacheState::Done => CacheStateView::Done,
        }
    }
}

/// What happened: the request itself, or the outcome of the last action.
#[derive(Debug, PartialEq, Eq)]
pub enum CacheEvent {
    /// A crate file is asked for.
    Request { name: String, version: Version },
    /// Whether the cache file exists and is not empty.
    Probed(bool),
    /// The cache file was read: its bytes, or `None` if it could not be.
    Read(Option<Vec<u8>>),
    /// Whether the directory was made and the cache file opened for writing.
    Prepared(bool),
    /// The upstream registry answered, or `None` if the request failed.
    Fetched(Option<Answer>),
    /// Whether the bytes were written and flushed.
    Written(bool),
}

pub ghost enum CacheEventView {
    Request { name: Seq<char>, version: VersionView },
    Probed(bool),
    Read(Option<Seq<u8>>),
    Prepared(bool),
    Fetched(Option<AnswerView>),
    Written(bool),
}

impl View for CacheEvent {
    type V = CacheEventView;

    open spec fn view(&self) -> CacheEventView {
        match self {
            CacheEvent::Request { name, version } => CacheEventView::Request {
                name: name@,
                version: version@,
            },
            CacheEvent::Probed(found) => CacheEventView::Probed(*found),
            CacheEvent::Read(bytes) => CacheEventView::Read(
                match bytes {
                    Some(b) => Some(b@),
                    None => None,
                },
            ),
            CacheEvent::Prepared(done) => CacheEventView::Prepared(*done),
            CacheEvent::Fetched(answer) => CacheEventView::Fetched(
                match answer {
                    Some(a) => Some(a@),
                    None => None,
                },
            ),
            CacheEvent::Written(done) => CacheEventView::Written(*done),
        }
    }
}

/// What is to be done next.
#[derive(Debug, PartialEq, Eq)]
pub enum CacheAction {
    /// Find out whether the file `path` exists and is not empty.
    Probe { path: String },
    /// Read the file `path`.
    Read { path: String },
    /// Make the directory `dir` and open the file `path` for writing,
    /// creating it if it is not there.
    Prepare { dir: String, path: String },
    /// Get `url`.
    Fetch { url: String },
    /// Write `body` to the file `path` and flush it.
    Write { path: String, body: Vec<u8> },
    /// Answer the request with `bytes`.
    Reply { content_type: String, bytes: Vec<u8> },
    /// Turn the request away.
    Reject(Rejection),
}

pub ghost enum CacheActionView {
    Probe { path: Seq<char> },
    Read { path: Seq<char> },
    Prepare { dir: Seq<char>, path: Seq<char> },
    Fetch { url: Seq<char> },
    Write { path: Seq<char>, body: Seq<u8> },
    Reply { content_type: Seq<char>, bytes: Seq<u8> },
    Reject(RejectionView),
}

impl View for CacheAction {
    type V = CacheActionView;

    open spec fn view(&self) -> CacheActionView {
        match self {
            CacheAction::Probe { path } => CacheActionView::Probe { path: path@ },
            CacheAction::Read { path } => CacheActionView::Read { path: path@ },
            CacheAction::Prepare { dir, path } => CacheActionView::Prepare {
                dir: dir@,
                path: path@,
            },
            CacheAction::Fetch { url } => CacheActionView::Fetch { url: url@ },
            CacheAction::Write { path, body } => CacheActionView::Write {
                path: path@,
                body: body@,
            },
            CacheAction::Reply { content_type, bytes } => CacheActionView::Reply {
                content_type: content_type@,
                bytes: bytes@,
            },
            CacheAction::Reject(rejection) => CacheActionView::Reject(rejection@),
        }
    }
}

/// The end of a fetch that failed.
pub open spec fn failed(error: ErrorView) -> (CacheStateView, CacheActionView) {
    (CacheStateView::Done, CacheActionView::Reject(RejectionView::Custom(error)))
}

/// The end of a fetch that has the bytes.
pub open spec fn replied(bytes: Seq<u8>) -> (CacheStateView, CacheActionView) {
    (CacheStateView::Done, CacheActionView::Reply { content_type: "application/x-tar"@, bytes })
}

/// The step after the upstream registry answered, for the address that was
/// asked: only an answer of success with a body that is not empty is
/// written to `path`.
pub open spec fn on_answer(path: Seq<char>, answer: AnswerView) -> (
    CacheStateView,
    CacheActionView,
) {
    if !is_success(answer.status) {
        failed(ErrorView::HttpRequest)
    } else if answer.body.len() == 0 {
        failed(ErrorView::InvalidHttpResponseLength)
    } else {
        (
            CacheStateView::Write { body: answer.body },
            CacheActionView::Write { path, body: answer.body },
        )
    }
}

/// The step after the cache file was made ready, for the address that the
/// crate file has upstream, if one could be formed.
pub open spec fn on_prepared(path: Seq<char>, url: Option<Seq<char>>) -> (
    CacheStateView,
    CacheActionView,
) {
    match url {
        None => failed(ErrorView::UrlParsing),
        Some(url) => (CacheStateView::Fetch { path }, CacheActionView::Fetch { url }),
    }
}

/// One step of a fetch: the state and the action that follow from a state
/// and an event. `root` is the cache directory. An event that the state does
/// not wait for ends the fetch with `HttpResponseBuilding`.
pub open spec fn next(root: Seq<char>, state: CacheStateView, event: CacheEventView) -> (
    CacheStateView,
    CacheActionView,
) {
    match (state, event) {
        (CacheStateView::Start, CacheEventView::Request { name, version }) => (
            CacheStateView::Probe { name, version },
            CacheActionView::Probe { path: cache_path_of(root, name, version) },
        ),
        (CacheStateView::Probe { name, version }, CacheEventView::Probed(found)) => if found {
            (CacheStateView::Read, CacheActionView::Read { path: cache_path_of(root, name, version) })
        } else {
            (
                CacheStateView::Prepare { name, version },
                CacheActionView::Prepare {
                    dir: cache_dir_of(root, name, version),
                    path: cache_path_of(root, name, version),
                },
            )
        },
        (CacheStateView::Read, CacheEventView::Read(bytes)) => match bytes {
            Some(b) => replied(b),
            None => failed(ErrorView::Io),
        },
        (CacheStateView::Prepare { name, version }, CacheEventView::Prepared(done)) => if done {
            on_prepared(cache_path_of(root, name, version), upstream_url_of(name, version))
        } else {
            failed(ErrorView::Io)
        },
        (CacheStateView::Fetch { path }, CacheEventView::Fetched(answer)) => match answer {
            Some(a) => on_answer(path, a),
            None => failed(ErrorView::HttpRequest),
        },
        (CacheStateView::Write { body }, CacheEventView::Written(done)) => if done {
            replied(body)
        } else {
            failed(ErrorView::Io)
        },
        _ => failed(ErrorView::HttpResponseBuilding),
    }
}

/// The directory of a cached crate file.
pub fn cache_dir(root: &str, name: &str, version: &Version) -> (r: String)
    ensures
        r@ == cache_dir_of(root@, name@, version@),
{
    let mut path = owned(root);
    path.append("/");
    path.append(name);
    path.append("/");
    version.append_to(&mut path);
    path
}

/// The file of a cached crate file.
pub fn cache_path(root: &str, name: &str, version: &Version) -> (r: String)
    ensures
        r@ == cache_path_of(root@, name@, version@),
{
    let mut path = cache_dir(root, name, version);
    path.append("/download");
    path
}

/// The address from which the upstream registry serves a crate file.
pub fn upstream_url(name: &str, version: &Version) -> (r: Result<String, Error>)
    ensures
        match upstream_url_of(name@, version@) {
            Some(url) => r matches Ok(u) && u@ == url,
            None => r matches Err(e) && e@ == ErrorView::UrlParsing,
        },
{
    let mut reference = owned(name);
    reference.append("/");
    version.append_to(&mut reference);
    reference.append("/download");
    match join_url("https://crates.io/api/v1/crates/", reference.as_str()) {
        Some(url) => Ok(url),
        None => Err(Error::UrlParsing),
    }
}

/// The end of a fetch that failed.
fn fail(error: Error) -> (r: (CacheState, CacheAction))
    ensures
        (r.0@, r.1@) == failed(error@),
{
    (CacheState::Done, CacheAction::Reject(Rejection::Custom(error)))
}

/// The end of a fetch that has the bytes.
fn reply(bytes: Vec<u8>) -> (r: (CacheState, CacheAction))
    ensures
        (r.0@, r.1@) == replied(bytes@),
{
    (CacheState::Done, CacheAction::Reply { content_type: owned("application/x-tar"), bytes })
}

/// The step after the upstream registry answered.
pub fn answer_step(path: String, answer: Answer) -> (r: (CacheState, CacheAction))
    ensures
        (r.0@, r.1@) == on_answer(path@, answer@),
{
    if answer.status < 200 || answer.status >= 300 {
        fail(Error::HttpRequest)
    } else if answer.body.len() == 0 {
        fail(Error::InvalidHttpResponseLength)
    } else {
        let body = answer.body;
        let copy = body.clone();
        (CacheState::Write { body: copy }, CacheAction::Write { path, body })
    }
}

/// The step after the cache file was made ready.
pub fn prepared_step(path: String, url: Option<String>) -> (r: (CacheState, CacheAction))
    ensures
        (r.0@, r.1@) == on_prepared(path@, text_view(url)),
{
    match url {
        None => fail(Error::UrlParsing),
        Some(url) => (CacheState::Fetch { path }, CacheAction::Fetch { url }),
    }
}

/// One step of a fetch: takes the state and what happened, and gives the
/// state to go on with and what to do next. `root` is the cache directory.
pub fn step(root: &str, state: CacheState, event: CacheEvent) -> (r: (CacheState, CacheAction))
    ensures
        (r.0@, r.1@) == next(root@, state@, event@),
{
    match (state, event) {
        (CacheState::Start, CacheEvent::Request { name, version }) => {
            let path = cache_path(root, name.as_str(), &version);
            (CacheState::Probe { name, version }, CacheAction::Probe { path })
        },
        (CacheState::Probe { name, version }, CacheEvent::Probed(found)) => {
            let path = cache_path(root, name.as_str(), &version);
            if found {
                (CacheState::Read, CacheAction::Read { path })
            } else {
                let dir = cache_dir(root, name.as_str(), &version);
                (CacheState::Prepare { name, version }, CacheAction::Prepare { dir, path })
            }
        },
        (CacheState::Read, CacheEvent::Read(bytes)) => match bytes {
            Some(b) => reply(b),
            None => fail(Error::Io),
        },
        (CacheState::Prepare { name, version }, CacheEvent::Prepared(done)) => {
            if done {
                let path = cache_path(root, name.as_str(), &version);
                let url = match upstream_url(name.as_str(), &version) {
                    Ok(u) => Some(u),
                    Err(_) => None,
                };
                prepared_step(path, url)
            } else {
                fail(Error::Io)
            }
        },
        (CacheState::Fetch { path }, CacheEvent::Fetched(answer)) => match answer {
            Some(a) => answer_step(path, a),
            None => fail(Error::HttpRequest),
        },
        (CacheState::Write { body }, CacheEvent::Written(done)) => {
            if done {
                reply(body)
            } else {
                fail(Error::Io)
            }
        },
        _ => fail(Error::HttpResponseBuilding),
    }
}

/// What a fetch acts upon, for the sake of stating what a fetch achieves: the
/// files on disk, what the upstream registry answers at each address (no
/// answer where the request fails), and the requests made to it so far.
/// Every action takes effect at once and as a whole, and none fails but the
/// request to the upstream registry.
pub ghost struct World {
    pub files: Map<Seq<char>, Seq<u8>>,
    pub upstream: Map<Seq<char>, AnswerView>,
    pub fetches: nat,
}

/// Whether the file `path` exists and is not empty.
pub open spec fn is_cached(world: World, path: Seq<char>) -> bool {
    world.files.contains_key(path) && world.files[path].len() > 0
}

/// The world after an action, and the event that reports its outcome; no
/// event after an action that ends the fetch.
pub open spec fn perform(world: World, action: CacheActionView) -> (World, Option<CacheEventView>) {
    match action {
        CacheActionView::Probe { path } => (
            world,
            Some(CacheEventView::Probed(is_cached(world, path))),
        ),
        CacheActionView::Read { path } => (
            world,
            Some(
                CacheEventView::Read(
                    if world.files.contains_key(path) {
                        Some(world.files[path])
                    } else {
                        None
                    },
                ),
            ),
        ),
        CacheActionView::Prepare { dir, path } => (
            if world.files.contains_key(path) {
                world
            } else {
                World { files: world.files.insert(path, Seq::<u8>::empty()), ..world }
            },
            Some(CacheEventView::Prepared(true)),
        ),
        CacheActionView::Fetch { url } => (
            World { fetches: world.fetches + 1, ..world },
            Some(
                CacheEventView::Fetched(
                    if world.upstream.contains_key(url) {
                        Some(world.upstream[url])
                    } else {
                        None
                    },
                ),
            ),
        ),
        CacheActionView::Write { path, body } => (
            World { files: world.files.insert(path, body), ..world },
            Some(CacheEventView::Written(true)),
        ),
        CacheActionView::Reply { .. } => (world, None),
        CacheActionView::Reject(_) => (world, None),
    }
}

/// A fetch that is run from `state` and `event` to its end, or for
/// `fuel + 1` steps: the world it leaves and its last action.
pub open spec fn run(
    root: Seq<char>,
    world: World,
    state: CacheStateView,
    event: CacheEventView,
    fuel: nat,
) -> (World, CacheActionView)
    decreases fuel,
{
    let (state, action) = next(root, state, event);
    let (world, event) = perform(world, action);
    match event {
        Some(e) => if fuel > 0 {
            run(root, world, state, e, (fuel - 1) as nat)
        } else {
            (world, action)
        },
        None => (world, action),
    }
}

/// A whole fetch of one crate file: the world it leaves and how it ends. No
/// fetch takes more than five steps.
pub open spec fn fetch(root: Seq<char>, world: World, name: Seq<char>, version: VersionView) -> (
    World,
    CacheActionView,
) {
    run(root, world, CacheStateView::Start, CacheEventView::Request { name, version }, 5)
}

/// A fetch ends: its last action is a reply or a rejection.
pub proof fn lemma_fetch_ends(root: Seq<char>, world: World, name: Seq<char>, version: VersionView)
    ensures
        fetch(root, world, name, version).1 is Reply || fetch(root, world, name, version).1
            is Reject,
{
    reveal_with_fuel(run, 7);
}

/// After a fetch that gave the bytes of a crate file, a second fetch of the
/// same crate file gives the same bytes, and leaves the world as it found
/// it: no file is changed and no request is made to the upstream registry.
pub proof fn lemma_second_fetch_from_disk(
    root: Seq<char>,
    world: World,
    name: Seq<char>,
    version: VersionView,
)
    requires
        fetch(root, world, name, version).1 is Reply,
    ensures
        fetch(root, fetch(root, world, name, version).0, name, version) == fetch(
            root,
            world,
            name,
            version,
        ),
{
    reveal_with_fuel(run, 7);
}

/// A fetch under way: its state, the event that waits to be handed to it,
/// and, once it has ended, its last action.
pub ghost struct Task {
    pub state: CacheStateView,
    pub event: Option<CacheEventView>,
    pub outcome: Option<CacheActionView>,
}

/// A fetch that has not begun.
pub open spec fn begin(name: Seq<char>, version: VersionView) -> Task {
    Task {
        state: CacheStateView::Start,
        event: Some(CacheEventView::Request { name, version }),
        outcome: None,
    }
}

/// One step of a fetch under way: the event that waits is handed over, and
/// the action that follows is performed. A fetch that has ended stays as it
/// is.
pub open spec fn advance(root: Seq<char>, world: World, task: Task) -> (World, Task) {
    match task.event {
        None => (world, task),
        Some(e) => {
            let (state, action) = next(root, task.state, e);
            let (world, event) = perform(world, action);
            (
                world,
                Task {
                    state,
                    event,
                    outcome: if event is None {
                        Some(action)
                    } else {
                        None
                    },
                },
            )
        },
    }
}

/// Two fetches that take their steps in the order that `schedule` gives:
/// `true` for a step of the first, `false` for a step of the second.
pub open spec fn race(root: Seq<char>, world: World, a: Task, b: Task, schedule: Seq<bool>) -> (
    World,
    Task,
    Task,
)
    decreases schedule.len(),
{
    if schedule.len() == 0 {
        (world, a, b)
    } else {
        let (w, x, y) = race(root, world, a, b, schedule.drop_last());
        if schedule.last() {
            let (w2, x2) = advance(root, w, x);
            (w2, x2, y)
        } else {
            let (w2, y2) = advance(root, w, y);
            (w2, x, y2)
        }
    }
}

/// What the upstream registry answers when asked for the crate file.
pub open spec fn upstream_answer(world: World, name: Seq<char>, version: VersionView) -> Option<
    AnswerView,
> {
    match upstream_url_of(name, version) {
        Some(url) => if world.upstream.contains_key(url) {
            Some(world.upstream[url])
        } else {
            None
        },
        None => None,
    }
}

/// Whether the upstream registry serves the crate file: it answers with
/// success and a body that is not empty.
pub open spec fn serves(world: World, name: Seq<char>, version: VersionView) -> bool {
    upstream_answer(world, name, version) matches Some(answer) && is_success(answer.status)
        && answer.body.len() > 0
}

/// Whether the cache file is the crate file that the upstream registry
/// serves.
pub open spec fn holds_crate(
    root: Seq<char>,
    world: World,
    name: Seq<char>,
    version: VersionView,
) -> bool {
    let path = cache_path_of(root, name, version);
    &&& upstream_answer(world, name, version) matches Some(answer)
    &&& is_success(answer.status)
    &&& answer.body.len() > 0
    &&& world.files.contains_key(path)
    &&& world.files[path] == answer.body
}

/// What holds of the world while fetches of one crate file race, from a
/// world in which that file was not cached: the cache file is absent, empty,
/// or the crate file as a whole.
pub open spec fn world_ok(
    root: Seq<char>,
    first: World,
    world: World,
    name: Seq<char>,
    version: VersionView,
) -> bool {
    let path = cache_path_of(root, name, version);
    &&& world.upstream == first.upstream
    &&& (!is_cached(world, path) || holds_crate(root, world, name, version))
}

/// What holds of each of the racing fetches.
pub open spec fn task_ok(
    root: Seq<char>,
    world: World,
    task: Task,
    name: Seq<char>,
    version: VersionView,
) -> bool {
    let path = cache_path_of(root, name, version);
    let full = holds_crate(root, world, name, version);
    match (task.state, task.event, task.outcome) {
        (CacheStateView::Start, Some(CacheEventView::Request { name: n, version: v }), None) => n
            == name && v == version,
        (
            CacheStateView::Probe { name: n, version: v },
            Some(CacheEventView::Probed(found)),
            None,
        ) => n == name && v == version && (found ==> full),
        (CacheStateView::Read, Some(CacheEventView::Read(bytes)), None) => full && bytes == Some(
            world.files[path],
        ),
        (
            CacheStateView::Prepare { name: n, version: v },
            Some(CacheEventView::Prepared(done)),
            None,
        ) => n == name && v == version && done,
        (CacheStateView::Fetch { path: p }, Some(CacheEventView::Fetched(answer)), None) => p
            == path && answer == upstream_answer(world, name, version),
        (CacheStateView::Write { body }, Some(CacheEventView::Written(done)), None) => full
            && body == world.files[path] && done,
        (CacheStateView::Done, None, Some(CacheActionView::Reply { content_type, bytes })) => full
            && bytes == world.files[path],
        (CacheStateView::Done, None, Some(CacheActionView::Reject(_))) => !serves(
            world,
            name,
            version,
        ),
        _ => false,
    }
}

/// A step of one fetch keeps what holds of the world, of that fetch and of
/// the other.
pub proof fn lemma_advance_keeps(
    root: Seq<char>,
    first: World,
    world: World,
    task: Task,
    other: Task,
    name: Seq<char>,
    version: VersionView,
)
    requires
        world_ok(root, first, world, name, version),
        task_ok(root, world, task, name, version),
        task_ok(root, world, other, name, version),
    ensures
        world_ok(root, first, advance(root, world, task).0, name, version),
        task_ok(root, advance(root, world, task).0, advance(root, world, task).1, name, version),
        task_ok(root, advance(root, world, task).0, other, name, version),
{
}

/// However the steps of two fetches of one crate file fall, what holds of
/// the world and of both fetches at the start holds at the end.
pub proof fn lemma_race_keeps(
    root: Seq<char>,
    world: World,
    name: Seq<char>,
    version: VersionView,
    schedule: Seq<bool>,
)
    requires
        !is_cached(world, cache_path_of(root, name, version)),
    ensures
        ({
            let (w, x, y) = race(root, world, begin(name, version), begin(name, version), schedule);
            &&& world_ok(root, world, w, name, version)
            &&& task_ok(root, w, x, name, version)
            &&& task_ok(root, w, y, name, version)
        }),
    decreases schedule.len(),
{
    if schedule.len() > 0 {
        lemma_race_keeps(root, world, name, version, schedule.drop_last());
        let (w, x, y) = race(
            root,
            world,
            begin(name, version),
            begin(name, version),
            schedule.drop_last(),
        );
        if schedule.last() {
            lemma_advance_keeps(root, world, w, x, y, name, version);
        } else {
            lemma_advance_keeps(root, world, w, y, x, name, version);
        }
    }
}

/// The bytes that a fetch gave, if it has ended and gave any.
pub open spec fn bytes_of(task: Task) -> Option<Seq<u8>> {
    match task.outcome {
        Some(CacheActionView::Reply { content_type, bytes }) => Some(bytes),
        _ => None,
    }
}

/// Two fetches of one crate file that was not cached, whose steps fall in
/// any order: where both give bytes, they give the same bytes; and once
/// either has given bytes, the cache file holds exactly those bytes, which
/// are the whole body that the upstream registry served, and is not empty.
pub proof fn lemma_racing_fetches(
    root: Seq<char>,
    world: World,
    name: Seq<char>,
    version: VersionView,
    schedule: Seq<bool>,
)
    requires
        !is_cached(world, cache_path_of(root, name, version)),
    ensures
        ({
            let (w, x, y) = race(root, world, begin(name, version), begin(name, version), schedule);
            let path = cache_path_of(root, name, version);
            &&& bytes_of(x) is Some && bytes_of(y) is Some ==> bytes_of(x) == bytes_of(y)
            &&& bytes_of(x) is Some || bytes_of(y) is Some ==> {
                &&& is_cached(w, path)
                &&& upstream_answer(world, name, version) is Some
                &&& w.files[path] == upstream_answer(world, name, version)->0.body
            }
            &&& bytes_of(x) is Some ==> bytes_of(x) == Some(w.files[path])
            &&& bytes_of(y) is Some ==> bytes_of(y) == Some(w.files[path])
        }),
{
    lemma_race_keeps(root, world, name, version, schedule);
    let (w, x, y) = race(root, world, begin(name, version), begin(name, version), schedule);
    assert(upstream_answer(w, name, version) == upstream_answer(world, name, version));
}

/// Two fetches of one crate file that was not cached, whose steps fall in
/// any order, while the upstream registry serves the crate file: each fetch
/// that has ended gave exactly the body that the upstream registry serves.
pub proof fn lemma_racing_fetches_give_the_body(
    root: Seq<char>,
    world: World,
    name: Seq<char>,
    version: VersionView,
    schedule: Seq<bool>,
)
    requires
        !is_cached(world, cache_path_of(root, name, version)),
        serves(world, name, version),
    ensures
        ({
            let (w, x, y) = race(root, world, begin(name, version), begin(name, version), schedule);
            let body = upstream_answer(world, name, version)->0.body;
            &&& x.outcome is Some ==> bytes_of(x) == Some(body)
            &&& y.outcome is Some ==> bytes_of(y) == Some(body)
        }),
{
    lemma_race_keeps(root, world, name, version, schedule);
    let (w, x, y) = race(root, world, begin(name, version), begin(name, version), schedule);
    assert(upstream_answer(w, name, version) == upstream_answer(world, name, version));
}

} // verus!
