//! Semantic versions: the five parts of a version, its text, and parsing.

use crate::error::Error;
use crate::text::{decimal, push_decimal, same_text};
use vstd::prelude::*;
use vstd::string::StringExecFns;

verus! {

/// A semantic version: three numbers, and the pre-release and build tags,
/// each empty where the version has none.
#[derive(Debug, PartialEq, Eq)]
pub struct Version {
    pub major: u64,
    pub minor: u64,
    pub patch: u64,
    pub pre: String,
    pub build: String,
}

/// What a `Version` stands for.
pub ghost struct VersionView {
    pub major: nat,
    pub minor: nat,
    pub patch: nat,
    pub pre: Seq<char>,
    pub build: Seq<char>,
}

impl View for Version {
    type V = VersionView;

    open spec fn view(&self) -> VersionView {
        VersionView {
            major: self.major as nat,
            minor: self.minor as nat,
            patch: self.patch as nat,
            pre: self.pre@,
            build: self.build@,
        }
    }
}

impl DeepView for Version {
    type V = VersionView;

    open spec fn deep_view(&self) -> VersionView {
        self@
    }
}

/// The text of a version: `major.minor.patch`, then `-` and the pre-release
/// tag if there is one, then `+` and the build tag if there is one.
pub open spec fn version_text(v: VersionView) -> Seq<char> {
    decimal(v.major) + seq!['.'] + decimal(v.minor) + seq!['.'] + decimal(v.patch) + (if v.pre.len()
        > 0 {
        seq!['-'] + v.pre
    } else {
        Seq::<char>::empty()
    }) + (if v.build.len() > 0 {
        seq!['+'] + v.build
    } else {
        Seq::<char>::empty()
    })
}

/// The version that a text denotes under the strict semantic-version grammar,
/// or `None` where the text is not a version.
pub uninterp spec fn semver_parse(text: Seq<char>) -> Option<VersionView>;

/// Parses by `semver::Version::parse` and copies the five parts of the result.
/// The contract only names the outcome: it is `semver_parse` of the text, and
/// `None` stands for the crate's error.
#[verifier::external_body]
fn parse_semver(text: &str) -> (r: Option<Version>)
    ensures
        match r {
            Some(v) => semver_parse(text@) == Some(v@),
            None => semver_parse(text@) is None,
        },
{
    semver::Version::parse(text).ok().map(
        |v| Version {
            major: v.major,
            minor: v.minor,
            patch: v.patch,
            pre: v.pre.as_str().to_string(),
            build: v.build.as_str().to_string(),
        },
    )
}

impl Clone for Version {
    fn clone(&self) -> (r: Self)
        ensures
            r@ == self@,
    {
        Version {
            major: self.major,
            minor: self.minor,
            patch: self.patch,
            pre: self.pre.clone(),
            build: self.build.clone(),
        }
    }
}

impl Version {
    /// The version `major.minor.patch`, without tags.
    pub fn new(major: u64, minor: u64, patch: u64) -> (r: Version)
        ensures
            r@ == (VersionView {
                major: major as nat,
                minor: minor as nat,
                patch: patch as nat,
                pre: Seq::<char>::empty(),
                build: Seq::<char>::empty(),
            }),
    {
        Version { major, minor, patch, pre: String::new(), build: String::new() }
    }

    /// Reads a version from its text. Anything the grammar does not accept is
    /// rejected with `Error::SemVer`.
    pub fn parse(text: &str) -> (r: Result<Version, Error>)
        ensures
            match semver_parse(text@) {
                Some(v) => r matches Ok(x) && x@ == v,
                None => r matches Err(e) && e@ == crate::error::ErrorView::SemVer,
            },
    {
        match parse_semver(text) {
            Some(v) => Ok(v),
            None => Err(Error::SemVer),
        }
    }

    /// Whether two versions agree in all five parts.
    pub fn equals(&self, other: &Version) -> (r: bool)
        ensures
            r == (self@ == other@),
    {
        self.major == other.major && self.minor == other.minor && self.patch == other.patch
            && same_text(self.pre.as_str(), other.pre.as_str()) && same_text(
            self.build.as_str(),
            other.build.as_str(),
        )
    }

    /// Appends the text of the version to `out`.
    pub fn append_to(&self, out: &mut String)
        ensures
            final(out)@ == old(out)@ + version_text(self@),
    {
        push_decimal(out, self.major);
        out.append(".");
        push_decimal(out, self.minor);
        out.append(".");
        push_decimal(out, self.patch);
        if !self.pre.as_str().is_empty() {
            out.append("-");
            out.append(self.pre.as_str());
        }
        if !self.build.as_str().is_empty() {
            out.append("+");
            out.append(self.build.as_str());
        }
        proof {
            reveal_strlit(".");
            reveal_strlit("-");
            reveal_strlit("+");
            assert("."@ =~= seq!['.']);
            assert("-"@ =~= seq!['-']);
            assert("+"@ =~= seq!['+']);
            assert(final(out)@ =~= old(out)@ + version_text(self@));
        }
    }

    /// The text of the version.
    pub fn to_text(&self) -> (r: String)
        ensures
            r@ == version_text(self@),
    {
        let mut out = String::new();
        self.append_to(&mut out);
        assert(Seq::<char>::empty() + version_text(self@) =~= version_text(self@));
        out
    }
}

} // verus!
