use vstd::prelude::*;
use crate::error::{ConfigError, ErrV};

verus! {

/// The components of a parsed semantic version: three numeric parts and
/// the optional pre-release and build-metadata suffixes (empty when
/// absent).
pub struct SemVerV {
    pub major: u64,
    pub minor: u64,
    pub patch: u64,
    pub pre: Seq<char>,
    pub build: Seq<char>,
}

/// What `semver::Version::parse` returns on a given text: `None` for text
/// outside the semantic-version grammar, otherwise the parsed components.
/// The grammar itself is the semantic-versioning specification's and is
/// not restated here; this name only pins that the result is a function
/// of the text.
pub uninterp spec fn semver_of(s: Seq<char>) -> Option<SemVerV>;

/// Relies on semver::Version::parse: it accepts exactly the strings of
/// the semantic-versioning grammar, rejects the rest with an error value,
/// and its result depends on the input text alone.
#[verifier::external_body]
fn semver_parse(text: &str) -> (r: Option<(u64, u64, u64, String, String)>)
    ensures
        r is Some <==> semver_of(text@) is Some,
        r matches Some(t) ==> {
            let f = semver_of(text@)->Some_0;
            &&& t.0 == f.major
            &&& t.1 == f.minor
            &&& t.2 == f.patch
            &&& t.3@ == f.pre
            &&& t.4@ == f.build
        },
{
    match semver::Version::parse(text) {
        Ok(v) => Some(
            (v.major, v.minor, v.patch, v.pre.as_str().to_owned(), v.build.as_str().to_owned()),
        ),
        Err(_) => None,
    }
}

/// The abstract value of a normalized version: the components together
/// with the exact text they were parsed from.
pub struct VersionV {
    pub text: Seq<char>,
    pub sem: SemVerV,
}

impl VersionV {
    /// The components are exactly what the carried text parses to, so a
    /// normalized version re-serializes to text that parses back to the
    /// same components.
    pub open spec fn wf(self) -> bool {
        semver_of(self.text) == Some(self.sem)
    }
}

/// A normalized semantic version: the parsed numeric components, the
/// pre-release and build-metadata suffixes, and the raw text they came
/// from. Values exist only through [`Version::parse`], so the components
/// always agree with the text.
#[derive(Debug, PartialEq, Eq)]
pub struct Version {
    text: String,
    major: u64,
    minor: u64,
    patch: u64,
    pre: String,
    build: String,
}

impl View for Version {
    type V = VersionV;

    closed spec fn view(&self) -> VersionV {
        VersionV {
            text: self.text@,
            sem: SemVerV {
                major: self.major,
                minor: self.minor,
                patch: self.patch,
                pre: self.pre@,
                build: self.build@,
            },
        }
    }
}

impl Version {
    /// Parse raw version text into a normalized version. Fails with
    /// `VersionFormat` carrying the text exactly when the text is outside
    /// the semantic-version grammar; the caller keeps the input either
    /// way, so a failed normalization loses nothing.
    pub fn parse(text: &str) -> (r: Result<Version, ConfigError>)
        ensures
            match r {
                Ok(v) => {
                    &&& semver_of(text@) is Some
                    &&& v@.text == text@
                    &&& v@.sem == semver_of(text@)->Some_0
                    &&& v@.wf()
                },
                Err(e) => semver_of(text@) is None && e@ == (ErrV::VersionFormat {
                    text: text@,
                }),
            },
    {
        match semver_parse(text) {
            Some(parts) => Ok(
                Version {
                    text: text.to_owned(),
                    major: parts.0,
                    minor: parts.1,
                    patch: parts.2,
                    pre: parts.3,
                    build: parts.4,
                },
            ),
            None => Err(ConfigError::VersionFormat { text: text.to_owned() }),
        }
    }

    /// The text this version was parsed from.
    pub fn text(&self) -> (r: &str)
        ensures
            r@ == self@.text,
    {
        self.text.as_str()
    }

    pub fn major(&self) -> (r: u64)
        ensures
            r == self@.sem.major,
    {
        self.major
    }

    pub fn minor(&self) -> (r: u64)
        ensures
            r == self@.sem.minor,
    {
        self.minor
    }

    pub fn patch(&self) -> (r: u64)
        ensures
            r == self@.sem.patch,
    {
        self.patch
    }

    /// The pre-release suffix; empty when the version has none.
    pub fn pre(&self) -> (r: &str)
        ensures
            r@ == self@.sem.pre,
    {
        self.pre.as_str()
    }

    /// The build-metadata suffix; empty when the version has none.
    pub fn build(&self) -> (r: &str)
        ensures
            r@ == self@.sem.build,
    {
        self.build.as_str()
    }
}

} // verus!
