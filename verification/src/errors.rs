//! The engine's error taxonomy.
//!
//! Every failure of a resolve call is one of these leaves, collected under
//! the root type `Error`: retrieval failures (`RetrieveError`), string
//! parsing failures (`ParseError`), hook validation failures
//! (`ValidationError`), tagged-union selection failures (`EnumError`), and
//! default-literal conversion failures (`Error::ConvertError`).

use vstd::prelude::*;
use crate::strutil::strs_view;
use crate::value::ValueTy;

verus! {

/// Failure to parse a raw string into a scalar or a collection.
#[derive(Debug, Clone, PartialEq, Eq)]
pub enum ParseError {
    /// A key/value pair whose key side is empty after trimming.
    MissingKey,
    /// A key/value pair with no value side, an empty value side after
    /// trimming, or an empty collection element.
    MissingValue,
    /// An equals sign with no key or value around it.
    UnexpectedEqualsign,
    /// A map key that does not parse as the declared key type.
    UnexpectedKeyType { key: String },
    /// A value that does not parse as the declared value type.
    UnexpectedValueType { value: String },
}

/// Mathematical view of a `ParseError`.
pub enum GParseError {
    MissingKey,
    MissingValue,
    UnexpectedEqualsign,
    UnexpectedKeyType(Seq<char>),
    UnexpectedValueType(Seq<char>),
}

impl View for ParseError {
    type V = GParseError;

    open spec fn view(&self) -> GParseError {
        match self {
            ParseError::MissingKey => GParseError::MissingKey,
            ParseError::MissingValue => GParseError::MissingValue,
            ParseError::UnexpectedEqualsign => GParseError::UnexpectedEqualsign,
            ParseError::UnexpectedKeyType { key } => GParseError::UnexpectedKeyType(key@),
            ParseError::UnexpectedValueType { value } => GParseError::UnexpectedValueType(value@),
        }
    }
}

/// Failure to retrieve a value from the source chain.
#[derive(Debug, Clone, PartialEq, Eq)]
pub enum RetrieveError {
    /// None of the candidate keys was found in any source. Carries every
    /// key that was tried, for diagnostics.
    NotFound { keys: Vec<String> },
    /// The named key was found, but its raw bytes could not be decoded as
    /// Unicode text (an environment-only concern).
    InvalidUnicode { key: String },
}

/// Mathematical view of a `RetrieveError`.
pub enum GRetrieveError {
    NotFound(Seq<Seq<char>>),
    InvalidUnicode(Seq<char>),
}

impl View for RetrieveError {
    type V = GRetrieveError;

    open spec fn view(&self) -> GRetrieveError {
        match self {
            RetrieveError::NotFound { keys } => GRetrieveError::NotFound(strs_view(keys@)),
            RetrieveError::InvalidUnicode { key } => GRetrieveError::InvalidUnicode(key@),
        }
    }
}

/// Failure to select a tagged-union variant.
#[derive(Debug, Clone, PartialEq, Eq, Structural)]
pub enum EnumError {
    /// The discriminant matched no variant and no default variant exists.
    NotFound,
}

/// Failure reported by a user-supplied validation hook.
#[derive(Debug, Clone, PartialEq, Eq)]
pub enum ValidationError {
    Failed { field: String, cause: String },
}

/// Mathematical view of a `ValidationError`.
pub enum GValidationError {
    Failed { field: Seq<char>, cause: Seq<char> },
}

impl View for ValidationError {
    type V = GValidationError;

    open spec fn view(&self) -> GValidationError {
        match self {
            ValidationError::Failed { field, cause } => GValidationError::Failed {
                field: field@,
                cause: cause@,
            },
        }
    }
}

/// The root error type of a resolve call.
#[derive(Debug, Clone, PartialEq, Eq)]
pub enum Error {
    RetrieveError(RetrieveError),
    ParseError(ParseError),
    ValidationError(ValidationError),
    EnumError(EnumError),
    /// A default literal could not be converted to the field's type.
    ConvertError { field: String, ty: ValueTy },
}

/// Mathematical view of an `Error`.
pub enum GError {
    Retrieve(GRetrieveError),
    Parse(GParseError),
    Validation(GValidationError),
    Enum(EnumError),
    Convert { field: Seq<char>, ty: ValueTy },
}

impl View for Error {
    type V = GError;

    open spec fn view(&self) -> GError {
        match self {
            Error::RetrieveError(e) => GError::Retrieve(e@),
            Error::ParseError(e) => GError::Parse(e@),
            Error::ValidationError(e) => GError::Validation(e@),
            Error::EnumError(e) => GError::Enum(*e),
            Error::ConvertError { field, ty } => GError::Convert { field: field@, ty: *ty },
        }
    }
}

} // verus!
