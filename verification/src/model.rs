use vstd::prelude::*;
use crate::actions::Actions;
use crate::error::{ConfigError, ErrV};
use crate::version::{Version, VersionV, semver_of};

verus! {

/// Where the tool reads its input data from: exactly one of a local file
/// path or a remote URL. The payload is taken verbatim; whether the file
/// exists or the URL is well formed is the fetcher's business, not the
/// model's.
#[derive(Debug, PartialEq, Eq)]
pub enum Source {
    File(String),
    Url(String),
}

/// The abstract value of a source selection.
pub enum SourceV {
    File(Seq<char>),
    Url(Seq<char>),
}

impl View for Source {
    type V = SourceV;

    open spec fn view(&self) -> SourceV {
        match self {
            Source::File(p) => SourceV::File(p@),
            Source::Url(u) => SourceV::Url(u@),
        }
    }
}

impl Clone for Source {
    fn clone(&self) -> (r: Self)
        ensures
            r@ == self@,
    {
        match self {
            Source::File(p) => Source::File(p.clone()),
            Source::Url(u) => Source::Url(u.clone()),
        }
    }
}

/// The path the produced output is written to. The model does not check
/// that the path is writable; that is the external writer's business.
#[derive(Debug, PartialEq, Eq)]
pub struct Target {
    pub path: String,
}

impl View for Target {
    type V = Seq<char>;

    open spec fn view(&self) -> Seq<char> {
        self.path@
    }
}

impl Clone for Target {
    fn clone(&self) -> (r: Self)
        ensures
            r@ == self@,
    {
        Target { path: self.path.clone() }
    }
}

/// The application-data block: the data source, the output target, and
/// the ordered list of actions to perform. The block does not know
/// whether the document carried it nested under its own key or flattened
/// into the top-level field set.
#[derive(Debug, PartialEq, Eq)]
pub struct AppData {
    pub source: Source,
    pub target: Target,
    pub actions: Vec<Actions>,
}

/// The abstract value of an application-data block.
pub struct AppDataV {
    pub source: SourceV,
    pub target: Seq<char>,
    pub actions: Seq<Actions>,
}

impl View for AppData {
    type V = AppDataV;

    open spec fn view(&self) -> AppDataV {
        AppDataV { source: self.source@, target: self.target@, actions: self.actions@ }
    }
}

impl Clone for AppData {
    fn clone(&self) -> (r: Self)
        ensures
            r@ == self@,
    {
        let mut actions: Vec<Actions> = Vec::new();
        let mut i: usize = 0;
        while i < self.actions.len()
            invariant
                i <= self.actions.len(),
                actions@ == self.actions@.take(i as int),
            decreases self.actions.len() - i,
        {
            actions.push(self.actions[i]);
            i = i + 1;
        }
        proof {
            assert(actions@ =~= self.actions@);
        }
        AppData { source: self.source.clone(), target: self.target.clone(), actions }
    }
}

/// The configuration document, generic over the state of its version
/// field: `Config<String>` holds the version as raw text after the
/// structure-checking decode phase; `Config<Version>` holds it
/// normalized. The one-way step between the two is [`Config::parse`].
#[derive(Debug, PartialEq, Eq)]
pub struct Config<V> {
    /// The name of the thing being built; required, taken verbatim.
    pub name: String,
    pub version: V,
    /// `None` means the document did not provide a description; the model
    /// never substitutes an empty string for an absent one.
    pub description: Option<String>,
    pub data: AppData,
}

/// The abstract value of a configuration document, generic over the
/// abstract value of its version field.
pub struct ConfigV<W> {
    pub name: Seq<char>,
    pub version: W,
    pub description: Option<Seq<char>>,
    pub data: AppDataV,
}

impl<V: View> View for Config<V> {
    type V = ConfigV<<V as View>::V>;

    open spec fn view(&self) -> ConfigV<<V as View>::V> {
        ConfigV {
            name: self.name@,
            version: self.version@,
            description: match self.description {
                Some(d) => Some(d@),
                None => None,
            },
            data: self.data@,
        }
    }
}

/// The abstract content of the normalization step: the version text is
/// replaced by its parsed components, every other field is kept as it
/// was.
pub open spec fn spec_normalize(c: ConfigV<Seq<char>>) -> Result<ConfigV<VersionV>, ErrV> {
    match semver_of(c.version) {
        Some(sem) => Ok(
            ConfigV {
                name: c.name,
                version: VersionV { text: c.version, sem },
                description: c.description,
                data: c.data,
            },
        ),
        None => Err(ErrV::VersionFormat { text: c.version }),
    }
}

impl Config<String> {
    /// The second validation phase: parse the raw version text into a
    /// structured semantic version, leaving every other field unchanged.
    /// Fails with `VersionFormat` exactly when the text is outside the
    /// semantic-version grammar; the receiver is only borrowed, so the
    /// raw document stays available for retry or reporting.
    pub fn parse(&self) -> (r: Result<Config<Version>, ConfigError>)
        ensures
            match r {
                Ok(c) => spec_normalize(self@) == Ok::<ConfigV<VersionV>, ErrV>(c@),
                Err(e) => spec_normalize(self@) == Err::<ConfigV<VersionV>, ErrV>(e@),
            },
    {
        match Version::parse(self.version.as_str()) {
            Ok(v) => Ok(
                Config {
                    name: self.name.clone(),
                    version: v,
                    description: match &self.description {
                        Some(d) => Some(d.clone()),
                        None => None,
                    },
                    data: self.data.clone(),
                },
            ),
            Err(e) => Err(e),
        }
    }
}

} // verus!
