//! The release resolver: where a crate file is not in the download
//! directory, it is taken from the release that the crate's repository
//! publishes for the version, and stored for the next request.
//!
//! The resolver decides; it does not read, fetch or write. Its caller does
//! what an action asks for and reports the outcome as the next event.

use crate::error::{Error, ErrorView, Rejection, RejectionView};
use crate::json::{json_parse, member_of, text_member, Json, JsonValue};
use crate::mirror::{is_success, Answer, AnswerView};
use crate::text::{drop_chars, ends_with, owned, skip_chars, split, split_on, starts_with};
use crate::version::{semver_parse, version_text, Version, VersionView};
use vstd::prelude::*;
use vstd::string::{StrSliceExecFns, StringExecFns};

verus! {

/// A repository address without the `.git` that may end it.
pub open spec fn strip_git(url: Seq<char>) -> Seq<char> {
    if ".git"@.is_suffix_of(url) {
        url.take(url.len() - ".git"@.len())
    } else {
        url
    }
}

/// The address of a repository at the source host's interface: an address
/// that begins with `https://github.com/` has that beginning replaced, any
/// other is left as it is.
pub open spec fn api_url(url: Seq<char>) -> Seq<char> {
    if "https://github.com/"@.is_prefix_of(url) {
        "https://api.github.com/repos/"@ + url.skip("https://github.com/"@.len() as int)
    } else {
        url
    }
}

/// The address at which the release of `version` is looked up, for a crate
/// whose recorded repository is `repository`. The release's tag is the
/// version's text after a `v`.
pub open spec fn release_url_of(repository: Seq<char>, version: VersionView) -> Seq<char> {
    api_url(strip_git(repository)) + "/releases/tags/v"@ + version_text(version)
}

/// The credential that a token file holds: its content without the last
/// character, which is the line break that ends the file.
pub open spec fn credential_of(content: Seq<char>) -> Seq<char> {
    if content.len() > 0 {
        content.drop_last()
    } else {
        content
    }
}

/// The file in which a crate file is stored below the download directory.
pub open spec fn download_path_of(root: Seq<char>, name: Seq<char>, version: VersionView) -> Seq<
    char,
> {
    root + "/"@ + name + "/"@ + version_text(version) + "/"@ + name + "-"@ + version_text(version)
        + ".crate"@
}

/// Whether a release asset is a crate file: its name ends in `.crate`.
pub open spec fn is_crate_asset(asset: JsonValue) -> bool {
    match text_member(asset, "name"@) {
        Some(name) => ".crate"@.is_suffix_of(name),
        None => false,
    }
}

/// The first crate file among `assets[from..]`.
pub open spec fn crate_asset_from(assets: Seq<JsonValue>, from: int) -> Option<JsonValue>
    decreases assets.len() - from,
{
    if from < 0 || from >= assets.len() {
        None
    } else if is_crate_asset(assets[from]) {
        Some(assets[from])
    } else {
        crate_asset_from(assets, from + 1)
    }
}

/// The address of the crate file of a release: the `url` of the first of its
/// `assets` whose name ends in `.crate`. There is none where the release has
/// no such asset, or no assets at all, or where that asset has no address.
pub open spec fn asset_url_of(release: JsonValue) -> Option<Seq<char>> {
    match member_of(release, "assets"@) {
        Some(JsonValue::Array(assets)) => match crate_asset_from(assets, 0) {
            Some(asset) => match text_member(asset, "url"@) {
                Some(url) => if url.len() > 0 {
                    Some(url)
                } else {
                    None
                },
                None => None,
            },
            None => None,
        },
        _ => None,
    }
}

/// What the resolver is set up with.
#[derive(Debug, PartialEq, Eq)]
pub struct ReleaseConfig {
    /// The download directory.
    pub download_root: String,
    /// The file that holds the credential for the source host.
    pub token_path: Option<String>,
}

pub ghost struct ReleaseConfigView {
    pub download_root: Seq<char>,
    pub token_path: Option<Seq<char>>,
}

impl View for ReleaseConfig {
    type V = ReleaseConfigView;

    open spec fn view(&self) -> ReleaseConfigView {
        ReleaseConfigView {
            download_root: self.download_root@,
            token_path: match self.token_path {
                Some(path) => Some(path@),
                None => None,
            },
        }
    }
}

/// Where a resolution stands: what it waits for, and what it has to remember.
#[derive(Debug, PartialEq, Eq)]
pub enum ReleaseState {
    Start,
    Repository { name: String, version: Version },
    Token { name: String, version: Version, url: String },
    Metadata { name: String, version: Version, credential: String },
    Asset { name: String, version: Version },
    Persist { bytes: Vec<u8> },
    Done,
}

pub ghost enum ReleaseStateView {
    Start,
    Repository { name: Seq<char>, version: VersionView },
    Token { name: Seq<char>, version: VersionView, url: Seq<char> },
    Metadata { name: Seq<char>, version: VersionView, credential: Seq<char> },
    Asset { name: Seq<char>, version: VersionView },
    Persist { bytes: Seq<u8> },
    Done,
}

impl View for ReleaseState {
    type V = ReleaseStateView;

    open spec fn view(&self) -> ReleaseStateView {
        match self {
            ReleaseState::Start => ReleaseStateView::Start,
            ReleaseState::Repository { name, version } => ReleaseStateView::Repository {
                name: name@,
                version: version@,
            },
            ReleaseState::Token { name, version, url } => ReleaseStateView::Token {
                name: name@,
                version: version@,
                url: url@,
            },
            ReleaseState::Metadata { name, version, credential } => ReleaseStateView::Metadata {
                name: name@,
                version: version@,
                credential: credential@,
            },
            ReleaseState::Asset { name, version } => ReleaseStateView::Asset {
                name: name@,
                version: version@,
            },
            ReleaseState::Persist { bytes } => ReleaseStateView::Persist { bytes: bytes@ },
            ReleaseState::Done => ReleaseStateView::Done,
        }
    }
}

/// An answer of the source host whose body is text.
#[derive(Debug, PartialEq, Eq)]
pub struct TextAnswer {
    pub status: u16,
    pub body: String,
}

pub ghost struct TextAnswerView {
    pub status: int,
    pub body: Seq<char>,
}

impl View for TextAnswer {
    type V = TextAnswerView;

    open spec fn view(&self) -> TextAnswerView {
        TextAnswerView { status: self.status as int, body: self.body@ }
    }
}

/// What happened: the request itself, or the outcome of the last action.
#[derive(Debug, PartialEq, Eq)]
pub enum ReleaseEvent {
    /// A request came in; `tail` is its path without the first slash.
    Request { tail: String },
    /// The storage back end answered the lookup of the repository.
    Repository(Result<Option<String>, Error>),
    /// The token file was read: its content, or `None` if it could not be.
    Token(Option<String>),
    /// The source host answered the request for the release, or `None` if
    /// the request failed or the answer is no text.
    Metadata(Option<TextAnswer>),
    /// The source host answered the request for the asset, or `None` if the
    /// request failed.
    Asset(Option<Answer>),
    /// The file was written, or not.
    Persisted(bool),
}

pub ghost enum ReleaseEventView {
    Request { tail: Seq<char> },
    Repository(Result<Option<Seq<char>>, ErrorView>),
    Token(Option<Seq<char>>),
    Metadata(Option<TextAnswerView>),
    Asset(Option<AnswerView>),
    Persisted(bool),
}

impl View for ReleaseEvent {
    type V = ReleaseEventView;

    open spec fn view(&self) -> ReleaseEventView {
        match self {
            ReleaseEvent::Request { tail } => ReleaseEventView::Request { tail: tail@ },
            ReleaseEvent::Repository(found) => ReleaseEventView::Repository(
                crate::index::found_view(*found),
            ),
            ReleaseEvent::Token(content) => ReleaseEventView::Token(
                crate::text::text_view(*content),
            ),
            ReleaseEvent::Metadata(answer) => ReleaseEventView::Metadata(
                match answer {
                    Some(a) => Some(a@),
                    None => None,
                },
            ),
            ReleaseEvent::Asset(answer) => ReleaseEventView::Asset(
                match answer {
                    Some(a) => Some(a@),
                    None => None,
                },
            ),
            ReleaseEvent::Persisted(done) => ReleaseEventView::Persisted(*done),
        }
    }
}

/// What is to be done next.
#[derive(Debug, PartialEq, Eq)]
pub enum ReleaseAction {
    /// Ask the storage back end for the repository of this version.
    FindRepository { name: String, version: Version },
    /// Read the token file.
    ReadToken { path: String },
    /// Get the release from `url`, with these two headers.
    FetchMetadata { url: String, authorization: String, user_agent: String },
    /// Get the asset from `url`, with these three headers.
    FetchAsset { url: String, authorization: String, accept: String, user_agent: String },
    /// Write `bytes` to the file `path`, making its directories first.
    Persist { path: String, bytes: Vec<u8> },
    /// Answer the request with `bytes`.
    Reply { content_type: String, bytes: Vec<u8> },
    /// Turn the request away.
    Reject(Rejection),
}

pub ghost enum ReleaseActionView {
    FindRepository { name: Seq<char>, version: VersionView },
    ReadToken { path: Seq<char> },
    FetchMetadata { url: Seq<char>, authorization: Seq<char>, user_agent: Seq<char> },
    FetchAsset { url: Seq<char>, authorization: Seq<char>, accept: Seq<char>, user_agent: Seq<char> },
    Persist { path: Seq<char>, bytes: Seq<u8> },
    Reply { content_type: Seq<char>, bytes: Seq<u8> },
    Reject(RejectionView),
}

impl View for ReleaseAction {
    type V = ReleaseActionView;

    open spec fn view(&self) -> ReleaseActionView {
        match self {
            ReleaseAction::FindRepository { name, version } => ReleaseActionView::FindRepository {
                name: name@,
                version: version@,
            },
            ReleaseAction::ReadToken { path } => ReleaseActionView::ReadToken { path: path@ },
            ReleaseAction::FetchMetadata {
                url,
                authorization,
                user_agent,
            } => ReleaseActionView::FetchMetadata {
                url: url@,
                authorization: authorization@,
                user_agent: user_agent@,
            },
            ReleaseAction::FetchAsset {
                url,
                authorization,
                accept,
                user_agent,
            } => ReleaseActionView::FetchAsset {
                url: url@,
                authorization: authorization@,
                accept: accept@,
                user_agent: user_agent@,
            },
            ReleaseAction::Persist { path, bytes } => ReleaseActionView::Persist {
                path: path@,
                bytes: bytes@,
            },
            ReleaseAction::Reply { content_type, bytes } => ReleaseActionView::Reply {
                content_type: content_type@,
                bytes: bytes@,
            },
            ReleaseAction::Reject(rejection) => ReleaseActionView::Reject(rejection@),
        }
    }
}

/// The end of a resolution that is turned away.
pub open spec fn rejected(rejection: RejectionView) -> (ReleaseStateView, ReleaseActionView) {
    (ReleaseStateView::Done, ReleaseActionView::Reject(rejection))
}

/// The end of a resolution that failed.
pub open spec fn failed(error: ErrorView) -> (ReleaseStateView, ReleaseActionView) {
    rejected(RejectionView::Custom(error))
}

/// The first step: the crate's name and the version are the second and the
/// third piece of the request's path, and the version must be a semantic
/// version.
pub open spec fn on_request(tail: Seq<char>) -> (ReleaseStateView, ReleaseActionView) {
    let pieces = split_on(tail, '/');
    if pieces.len() < 3 {
        rejected(RejectionView::NotFound)
    } else {
        match semver_parse(pieces[2]) {
            None => failed(ErrorView::SemVer),
            Some(version) => (
                ReleaseStateView::Repository { name: pieces[1], version },
                ReleaseActionView::FindRepository { name: pieces[1], version },
            ),
        }
    }
}

/// The step after the release was fetched, for a body that is the document
/// `release`.
pub open spec fn on_release(
    name: Seq<char>,
    version: VersionView,
    credential: Seq<char>,
    release: JsonValue,
) -> (ReleaseStateView, ReleaseActionView) {
    match asset_url_of(release) {
        None => rejected(RejectionView::NotFound),
        Some(url) => (
            ReleaseStateView::Asset { name, version },
            ReleaseActionView::FetchAsset {
                url,
                authorization: "Bearer "@ + credential,
                accept: "application/octet-stream"@,
                user_agent: "rust web-api-client demo"@,
            },
        ),
    }
}

/// One step of a resolution: the state and the action that follow from a
/// state and an event. An answer of the source host counts only if its status
/// stands for success; any other ends the resolution with `HttpRequest`, as a
/// request that failed does. An event that the state does not wait for ends
/// the resolution with `HttpResponseBuilding`.
pub open spec fn next(config: ReleaseConfigView, state: ReleaseStateView, event: ReleaseEventView) -> (
    ReleaseStateView,
    ReleaseActionView,
) {
    match (state, event) {
        (ReleaseStateView::Start, ReleaseEventView::Request { tail }) => on_request(tail),
        (
            ReleaseStateView::Repository { name, version },
            ReleaseEventView::Repository(found),
        ) => match found {
            Err(e) => failed(e),
            Ok(None) => rejected(RejectionView::NotFound),
            Ok(Some(repository)) => match config.token_path {
                None => rejected(RejectionView::NotFound),
                Some(path) => (
                    ReleaseStateView::Token {
                        name,
                        version,
                        url: release_url_of(repository, version),
                    },
                    ReleaseActionView::ReadToken { path },
                ),
            },
        },
        (ReleaseStateView::Token { name, version, url }, ReleaseEventView::Token(content)) => match content {
            None => failed(ErrorView::Io),
            Some(text) => (
                ReleaseStateView::Metadata { name, version, credential: credential_of(text) },
                ReleaseActionView::FetchMetadata {
                    url,
                    authorization: "token "@ + credential_of(text),
                    user_agent: "rust web-api-client demo"@,
                },
            ),
        },
        (
            ReleaseStateView::Metadata { name, version, credential },
            ReleaseEventView::Metadata(answer),
        ) => match answer {
            None => failed(ErrorView::HttpRequest),
            Some(a) => if !is_success(a.status) {
                failed(ErrorView::HttpRequest)
            } else {
                match json_parse(a.body) {
                    None => failed(ErrorView::HttpRequest),
                    Some(release) => on_release(name, version, credential, release),
                }
            },
        },
        (ReleaseStateView::Asset { name, version }, ReleaseEventView::Asset(answer)) => match answer {
            None => failed(ErrorView::HttpRequest),
            Some(a) => if !is_success(a.status) {
                failed(ErrorView::HttpRequest)
            } else {
                (
                    ReleaseStateView::Persist { bytes: a.body },
                    ReleaseActionView::Persist {
                        path: download_path_of(config.download_root, name, version),
                        bytes: a.body,
                    },
                )
            },
        },
        (ReleaseStateView::Persist { bytes }, ReleaseEventView::Persisted(done)) => if done {
            (
                ReleaseStateView::Done,
                ReleaseActionView::Reply { content_type: "application/x-tar"@, bytes },
            )
        } else {
            failed(ErrorView::Io)
        },
        _ => failed(ErrorView::HttpResponseBuilding),
    }
}

/// A file is written only with the bytes of an asset that was fetched in
/// full and with a status of success, and only as the step that follows that
/// fetch.
pub proof fn lemma_persist_only_after_asset(
    config: ReleaseConfigView,
    state: ReleaseStateView,
    event: ReleaseEventView,
)
    requires
        next(config, state, event).1 is Persist,
    ensures
        state is Asset,
        event matches ReleaseEventView::Asset(Some(answer)) && is_success(answer.status)
            && answer.body == next(config, state, event).1->Persist_bytes,
{
}

/// An answer of the source host whose status does not stand for success
/// ends the resolution with `HttpRequest`: nothing is fetched after it and no
/// file is written.
pub proof fn lemma_bad_status_fails(
    config: ReleaseConfigView,
    name: Seq<char>,
    version: VersionView,
    credential: Seq<char>,
    status: int,
    text: Seq<char>,
    bytes: Seq<u8>,
)
    requires
        !is_success(status),
    ensures
        next(
            config,
            ReleaseStateView::Metadata { name, version, credential },
            ReleaseEventView::Metadata(Some(TextAnswerView { status, body: text })),
        ) == failed(ErrorView::HttpRequest),
        next(
            config,
            ReleaseStateView::Asset { name, version },
            ReleaseEventView::Asset(Some(AnswerView { status, body: bytes })),
        ) == failed(ErrorView::HttpRequest),
{
}

/// Where no asset of the release has a name that ends in `.crate`, the
/// resolution ends as not found, and so without a file being written.
pub proof fn lemma_no_crate_asset(
    config: ReleaseConfigView,
    name: Seq<char>,
    version: VersionView,
    credential: Seq<char>,
    status: int,
    body: Seq<char>,
)
    requires
        is_success(status),
        json_parse(body) matches Some(release) && (member_of(release, "assets"@) matches Some(
            JsonValue::Array(assets),
        ) ==> forall|i: int| 0 <= i < assets.len() ==> !is_crate_asset(assets[i])),
    ensures
        next(
            config,
            ReleaseStateView::Metadata { name, version, credential },
            ReleaseEventView::Metadata(Some(TextAnswerView { status, body })),
        ) == rejected(RejectionView::NotFound),
{
    let release = json_parse(body)->0;
    match member_of(release, "assets"@) {
        Some(JsonValue::Array(assets)) => {
            lemma_crate_asset_from(assets, 0);
        },
        _ => {},
    }
}

/// `crate_asset_from` finds a crate file, and the first one.
pub proof fn lemma_crate_asset_from(assets: Seq<JsonValue>, from: int)
    requires
        0 <= from,
    ensures
        match crate_asset_from(assets, from) {
            Some(asset) => exists|i: int|
                from <= i < assets.len() && assets[i] == asset && is_crate_asset(asset) && forall|
                    j: int,
                | from <= j < i ==> !is_crate_asset(assets[j]),
            None => forall|j: int| from <= j < assets.len() ==> !is_crate_asset(assets[j]),
        },
    decreases assets.len() - from,
{
    if from < assets.len() {
        if is_crate_asset(assets[from]) {
            assert(from <= from < assets.len() && assets[from] == assets[from]);
        } else {
            lemma_crate_asset_from(assets, from + 1);
            match crate_asset_from(assets, from + 1) {
                Some(asset) => {
                    let i = choose|i: int|
                        from + 1 <= i < assets.len() && assets[i] == asset && is_crate_asset(asset)
                            && forall|j: int| from + 1 <= j < i ==> !is_crate_asset(assets[j]);
                    assert(from <= i < assets.len() && assets[i] == asset && is_crate_asset(asset)
                        && forall|j: int| from <= j < i ==> !is_crate_asset(assets[j]));
                },
                None => {},
            }
        }
    }
}

/// The address at which the release of `version` is looked up.
pub fn release_url(repository: &str, version: &Version) -> (r: String)
    ensures
        r@ == release_url_of(repository@, version@),
{
    let stripped = if ends_with(repository, ".git") {
        drop_chars(repository, ".git".unicode_len())
    } else {
        owned(repository)
    };
    let mut url = if starts_with(stripped.as_str(), "https://github.com/") {
        let rest = skip_chars(stripped.as_str(), "https://github.com/".unicode_len());
        let mut api = owned("https://api.github.com/repos/");
        api.append(rest.as_str());
        api
    } else {
        stripped
    };
    url.append("/releases/tags/v");
    version.append_to(&mut url);
    url
}

/// The credential that a token file holds.
pub fn credential(content: &str) -> (r: String)
    ensures
        r@ == credential_of(content@),
{
    let n = content.unicode_len();
    if n > 0 {
        drop_chars(content, 1)
    } else {
        owned(content)
    }
}

/// The file in which a crate file is stored below the download directory.
pub fn download_path(root: &str, name: &str, version: &Version) -> (r: String)
    ensures
        r@ == download_path_of(root@, name@, version@),
{
    let mut path = owned(root);
    path.append("/");
    path.append(name);
    path.append("/");
    version.append_to(&mut path);
    path.append("/");
    path.append(name);
    path.append("-");
    version.append_to(&mut path);
    path.append(".crate");
    path
}

/// The address of the crate file of a release.
pub fn asset_url(release: &Json) -> (r: Option<String>)
    ensures
        crate::text::text_view(r) == asset_url_of(release@),
{
    let assets = match release.member("assets") {
        Some(value) => match value.as_array() {
            Some(items) => items,
            None => {
                return None;
            },
        },
        None => {
            return None;
        },
    };
    let ghost items = assets.deep_view();
    let mut i: usize = 0;
    while i < assets.len()
        invariant
            i <= assets.len(),
            assets.deep_view() == items,
            member_of(release@, "assets"@) == Some(JsonValue::Array(items)),
            crate_asset_from(items, 0) == crate_asset_from(items, i as int),
        decreases assets.len() - i,
    {
        assert(items[i as int] == assets@[i as int]@);
        let is_crate = match assets[i].member("name") {
            Some(value) => match value.as_text() {
                Some(name) => ends_with(name, ".crate"),
                None => false,
            },
            None => false,
        };
        if is_crate {
            return match assets[i].member("url") {
                Some(value) => match value.as_text() {
                    Some(url) => if url.unicode_len() > 0 {
                        Some(owned(url))
                    } else {
                        None
                    },
                    None => None,
                },
                None => None,
            };
        }
        i = i + 1;
    }
    None
}

/// The end of a resolution that is turned away.
fn reject(rejection: Rejection) -> (r: (ReleaseState, ReleaseAction))
    ensures
        (r.0@, r.1@) == rejected(rejection@),
{
    (ReleaseState::Done, ReleaseAction::Reject(rejection))
}

/// The end of a resolution that failed.
fn fail(error: Error) -> (r: (ReleaseState, ReleaseAction))
    ensures
        (r.0@, r.1@) == failed(error@),
{
    reject(Rejection::Custom(error))
}

/// The first step of a resolution.
fn start(tail: &str) -> (r: (ReleaseState, ReleaseAction))
    ensures
        (r.0@, r.1@) == on_request(tail@),
{
    let pieces = split(tail, '/');
    if pieces.len() < 3 {
        return reject(Rejection::NotFound);
    }
    assert(pieces.deep_view()[1] == pieces@[1]@);
    assert(pieces.deep_view()[2] == pieces@[2]@);
    match Version::parse(pieces[2].as_str()) {
        Err(_) => fail(Error::SemVer),
        Ok(version) => {
            let name = pieces[1].clone();
            (
                ReleaseState::Repository { name: name.clone(), version: version.clone() },
                ReleaseAction::FindRepository { name, version },
            )
        },
    }
}

/// One step of a resolution: takes the state and what happened, and gives the
/// state to go on with and what to do next.
pub fn step(config: &ReleaseConfig, state: ReleaseState, event: ReleaseEvent) -> (r: (
    ReleaseState,
    ReleaseAction,
))
    ensures
        (r.0@, r.1@) == next(config@, state@, event@),
{
    match (state, event) {
        (ReleaseState::Start, ReleaseEvent::Request { tail }) => start(tail.as_str()),
        (ReleaseState::Repository { name, version }, ReleaseEvent::Repository(found)) => {
            match found {
                Err(e) => fail(e),
                Ok(None) => reject(Rejection::NotFound),
                Ok(Some(repository)) => match &config.token_path {
                    None => reject(Rejection::NotFound),
                    Some(path) => {
                        let url = release_url(repository.as_str(), &version);
                        (
                            ReleaseState::Token { name, version, url },
                            ReleaseAction::ReadToken { path: path.clone() },
                        )
                    },
                },
            }
        },
        (ReleaseState::Token { name, version, url }, ReleaseEvent::Token(content)) => {
            match content {
                None => fail(Error::Io),
                Some(text) => {
                    let secret = credential(text.as_str());
                    let mut authorization = owned("token ");
                    authorization.append(secret.as_str());
                    (
                        ReleaseState::Metadata { name, version, credential: secret },
                        ReleaseAction::FetchMetadata {
                            url,
                            authorization,
                            user_agent: owned("rust web-api-client demo"),
                        },
                    )
                },
            }
        },
        (
            ReleaseState::Metadata { name, version, credential },
            ReleaseEvent::Metadata(answer),
        ) => {
            match answer {
                None => fail(Error::HttpRequest),
                Some(a) => {
                    if a.status < 200 || a.status >= 300 {
                        return fail(Error::HttpRequest);
                    }
                    match Json::parse(a.body.as_str()) {
                        None => fail(Error::HttpRequest),
                        Some(release) => match asset_url(&release) {
                            None => reject(Rejection::NotFound),
                            Some(url) => {
                                let mut authorization = owned("Bearer ");
                                authorization.append(credential.as_str());
                                (
                                    ReleaseState::Asset { name, version },
                                    ReleaseAction::FetchAsset {
                                        url,
                                        authorization,
                                        accept: owned("application/octet-stream"),
                                        user_agent: owned("rust web-api-client demo"),
                                    },
                                )
                            },
                        },
                    }
                },
            }
        },
        (ReleaseState::Asset { name, version }, ReleaseEvent::Asset(answer)) => {
            match answer {
                None => fail(Error::HttpRequest),
                Some(a) => {
                    if a.status < 200 || a.status >= 300 {
                        return fail(Error::HttpRequest);
                    }
                    let path = download_path(config.download_root.as_str(), name.as_str(), &version);
                    let bytes = a.body;
                    let copy = bytes.clone();
                    (ReleaseState::Persist { bytes: copy }, ReleaseAction::Persist { path, bytes })
                },
            }
        },
        (ReleaseState::Persist { bytes }, ReleaseEvent::Persisted(done)) => {
            if done {
                (
                    ReleaseState::Done,
                    ReleaseAction::Reply { content_type: owned("application/x-tar"), bytes },
                )
            } else {
                fail(Error::Io)
            }
        },
        _ => fail(Error::HttpResponseBuilding),
    }
}

} // verus!
