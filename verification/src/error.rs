//! What can go wrong in the registry, and how a failed request is turned away.

use crate::version::{Version, VersionView};
use vstd::prelude::*;

verus! {

/// A failure of one of the registry's operations.
#[derive(Debug, PartialEq, Eq)]
pub enum Error {
    /// No crate of this name is known.
    CrateNotFoundInDb(String),
    /// The crate is known, but not in this version.
    VersionNotFoundInDb(Version),
    /// No user of this name or login is known.
    UserNotFound(String),
    /// No user is bound to the token.
    TokenNotFound,
    /// A line of an index log is not a package record.
    ParsePackage,
    /// A text is not a semantic version.
    SemVer,
    /// The file system refused an operation.
    Io,
    /// A request to another server failed, or its answer was not usable.
    HttpRequest,
    /// An address could not be formed.
    UrlParsing,
    /// Another server answered with an empty body.
    InvalidHttpResponseLength,
    /// The answer to the client could not be put together.
    HttpResponseBuilding,
}

/// What an `Error` stands for.
pub ghost enum ErrorView {
    CrateNotFoundInDb(Seq<char>),
    VersionNotFoundInDb(VersionView),
    UserNotFound(Seq<char>),
    TokenNotFound,
    ParsePackage,
    SemVer,
    Io,
    HttpRequest,
    UrlParsing,
    InvalidHttpResponseLength,
    HttpResponseBuilding,
}

impl View for Error {
    type V = ErrorView;

    open spec fn view(&self) -> ErrorView {
        match self {
            Error::CrateNotFoundInDb(name) => ErrorView::CrateNotFoundInDb(name@),
            Error::VersionNotFoundInDb(version) => ErrorView::VersionNotFoundInDb(version@),
            Error::UserNotFound(name) => ErrorView::UserNotFound(name@),
            Error::TokenNotFound => ErrorView::TokenNotFound,
            Error::ParsePackage => ErrorView::ParsePackage,
            Error::SemVer => ErrorView::SemVer,
            Error::Io => ErrorView::Io,
            Error::HttpRequest => ErrorView::HttpRequest,
            Error::UrlParsing => ErrorView::UrlParsing,
            Error::InvalidHttpResponseLength => ErrorView::InvalidHttpResponseLength,
            Error::HttpResponseBuilding => ErrorView::HttpResponseBuilding,
        }
    }
}

impl DeepView for Error {
    type V = ErrorView;

    open spec fn deep_view(&self) -> ErrorView {
        self@
    }
}

/// The classes into which failures fall.
#[derive(Clone, Copy, Debug, PartialEq, Eq, Structural)]
pub enum ErrorKind {
    NotFound,
    ParseFailure,
    PermissionDenied,
    AuthFailure,
    UpstreamFailure,
    IoFailure,
    ResponseBuildFailure,
}

/// The class of a failure.
pub open spec fn kind_of(e: ErrorView) -> ErrorKind {
    match e {
        ErrorView::CrateNotFoundInDb(_) => ErrorKind::NotFound,
        ErrorView::VersionNotFoundInDb(_) => ErrorKind::NotFound,
        ErrorView::UserNotFound(_) => ErrorKind::NotFound,
        ErrorView::TokenNotFound => ErrorKind::NotFound,
        ErrorView::ParsePackage => ErrorKind::ParseFailure,
        ErrorView::SemVer => ErrorKind::ParseFailure,
        ErrorView::Io => ErrorKind::IoFailure,
        ErrorView::HttpRequest => ErrorKind::UpstreamFailure,
        ErrorView::UrlParsing => ErrorKind::UpstreamFailure,
        ErrorView::InvalidHttpResponseLength => ErrorKind::UpstreamFailure,
        ErrorView::HttpResponseBuilding => ErrorKind::ResponseBuildFailure,
    }
}

impl Error {
    /// The class of this failure.
    pub fn kind(&self) -> (k: ErrorKind)
        ensures
            k == kind_of(self@),
    {
        match self {
            Error::CrateNotFoundInDb(_) => ErrorKind::NotFound,
            Error::VersionNotFoundInDb(_) => ErrorKind::NotFound,
            Error::UserNotFound(_) => ErrorKind::NotFound,
            Error::TokenNotFound => ErrorKind::NotFound,
            Error::ParsePackage => ErrorKind::ParseFailure,
            Error::SemVer => ErrorKind::ParseFailure,
            Error::Io => ErrorKind::IoFailure,
            Error::HttpRequest => ErrorKind::UpstreamFailure,
            Error::UrlParsing => ErrorKind::UpstreamFailure,
            Error::InvalidHttpResponseLength => ErrorKind::UpstreamFailure,
            Error::HttpResponseBuilding => ErrorKind::ResponseBuildFailure,
        }
    }
}

impl Clone for Error {
    fn clone(&self) -> (r: Self)
        ensures
            r@ == self@,
    {
        match self {
            Error::CrateNotFoundInDb(name) => Error::CrateNotFoundInDb(name.clone()),
            Error::VersionNotFoundInDb(version) => Error::VersionNotFoundInDb(version.clone()),
            Error::UserNotFound(name) => Error::UserNotFound(name.clone()),
            Error::TokenNotFound => Error::TokenNotFound,
            Error::ParsePackage => Error::ParsePackage,
            Error::SemVer => Error::SemVer,
            Error::Io => Error::Io,
            Error::HttpRequest => Error::HttpRequest,
            Error::UrlParsing => Error::UrlParsing,
            Error::InvalidHttpResponseLength => Error::InvalidHttpResponseLength,
            Error::HttpResponseBuilding => Error::HttpResponseBuilding,
        }
    }
}

/// How a handler turns a request away: the route does not apply or the thing
/// asked for does not exist, or an operation failed.
#[derive(Debug, PartialEq, Eq)]
pub enum Rejection {
    NotFound,
    Custom(Error),
}

/// What a `Rejection` stands for.
pub ghost enum RejectionView {
    NotFound,
    Custom(ErrorView),
}

impl View for Rejection {
    type V = RejectionView;

    open spec fn view(&self) -> RejectionView {
        match self {
            Rejection::NotFound => RejectionView::NotFound,
            Rejection::Custom(e) => RejectionView::Custom(e@),
        }
    }
}

impl DeepView for Rejection {
    type V = RejectionView;

    open spec fn deep_view(&self) -> RejectionView {
        self@
    }
}

impl Clone for Rejection {
    fn clone(&self) -> (r: Self)
        ensures
            r@ == self@,
    {
        match self {
            Rejection::NotFound => Rejection::NotFound,
            Rejection::Custom(e) => Rejection::Custom(e.clone()),
        }
    }
}

} // verus!
