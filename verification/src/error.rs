use vstd::prelude::*;

verus! {

/// The abstract value of a validation error: field paths, offending
/// literals and accepted-alternative sets as character sequences.
pub enum ErrV {
    MissingField { path: Seq<char> },
    WrongType { path: Seq<char> },
    UnknownField { path: Seq<char> },
    DuplicateField { path: Seq<char> },
    MissingTag { path: Seq<char>, accepted: Seq<Seq<char>> },
    MultipleTags { path: Seq<char> },
    UnknownTag { path: Seq<char>, tag: Seq<char>, accepted: Seq<Seq<char>> },
    UnknownLiteral { path: Seq<char>, index: int, literal: Seq<char>, accepted: Seq<Seq<char>> },
    VersionFormat { text: Seq<char> },
}

/// A typed validation failure.
///
/// Every variant but `VersionFormat` reports a shape mismatch found during
/// the first, purely structure-checking decode phase: it carries the path
/// of the offending field and, where a closed set of alternatives exists,
/// that set verbatim. `VersionFormat` is the second phase's failure: the
/// document was well shaped, but its `version` text is not a semantic
/// version; the offending text is carried so callers can report it.
#[derive(Debug, PartialEq, Eq)]
pub enum ConfigError {
    /// A required field is absent; `path` names it.
    MissingField { path: String },
    /// A field is present with a value of the wrong kind.
    WrongType { path: String },
    /// A field name outside the model's field set.
    UnknownField { path: String },
    /// The same field name appears twice, e.g. once as a document field
    /// and once as a flattened application-data field.
    DuplicateField { path: String },
    /// A tagged union with no tag at all.
    MissingTag { path: String, accepted: Vec<String> },
    /// A tagged union with more than one arm present.
    MultipleTags { path: String },
    /// A tagged union whose single tag is not in the accepted set.
    UnknownTag { path: String, tag: String, accepted: Vec<String> },
    /// An element of an enumerated-literal sequence that is not in the
    /// accepted spelling set; `index` is its position in the sequence.
    UnknownLiteral { path: String, index: usize, literal: String, accepted: Vec<String> },
    /// The version text does not conform to the semantic-version grammar.
    VersionFormat { text: String },
}

impl View for ConfigError {
    type V = ErrV;

    open spec fn view(&self) -> ErrV {
        match self {
            ConfigError::MissingField { path } => ErrV::MissingField { path: path@ },
            ConfigError::WrongType { path } => ErrV::WrongType { path: path@ },
            ConfigError::UnknownField { path } => ErrV::UnknownField { path: path@ },
            ConfigError::DuplicateField { path } => ErrV::DuplicateField { path: path@ },
            ConfigError::MissingTag { path, accepted } => ErrV::MissingTag {
                path: path@,
                accepted: accepted.deep_view(),
            },
            ConfigError::MultipleTags { path } => ErrV::MultipleTags { path: path@ },
            ConfigError::UnknownTag { path, tag, accepted } => ErrV::UnknownTag {
                path: path@,
                tag: tag@,
                accepted: accepted.deep_view(),
            },
            ConfigError::UnknownLiteral { path, index, literal, accepted } => ErrV::UnknownLiteral {
                path: path@,
                index: *index as int,
                literal: literal@,
                accepted: accepted.deep_view(),
            },
            ConfigError::VersionFormat { text } => ErrV::VersionFormat { text: text@ },
        }
    }
}

impl ConfigError {
    /// Whether this failure belongs to the shape-checking class, as opposed
    /// to the second-phase `VersionFormat` class.
    pub fn is_shape_error(&self) -> (r: bool)
        ensures
            r == !(self@ is VersionFormat),
    {
        !matches!(self, ConfigError::VersionFormat { .. })
    }
}

} // verus!
