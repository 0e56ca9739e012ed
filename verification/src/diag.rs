//! Schema-build diagnostics.
//!
//! The schema invariants are checked once, when a schema is constructed,
//! never at resolve time. The errors here report a broken invariant: a
//! duplicated or unknown annotation, an empty or reserved value, a field
//! that declares no way to obtain a value. For an unknown annotation name,
//! `find_closest_match` proposes the nearest known one.

use vstd::prelude::*;

verus! {

/// A broken annotation of a container, field, or variant.
#[derive(Debug, Clone, PartialEq, Eq)]
pub enum AttributeError {
    /// The same attribute was given twice.
    Duplicate { attr: String },
    /// An unknown attribute, with the closest known name if one is near.
    Unexpected { attr: String, closest_match: Option<String> },
    /// A name that an earlier declaration already uses.
    AlreadyUsed { attr: String },
    /// An attribute whose value is not acceptable.
    Invalid { attr: String, reason: String },
    /// An attribute that another given attribute requires.
    Missing { attr: String, reason: String },
}

/// Mathematical view of an `AttributeError`.
pub enum GAttributeError {
    Duplicate(Seq<char>),
    Unexpected(Seq<char>, Option<Seq<char>>),
    AlreadyUsed(Seq<char>),
    Invalid(Seq<char>, Seq<char>),
    Missing(Seq<char>, Seq<char>),
}

impl View for AttributeError {
    type V = GAttributeError;

    open spec fn view(&self) -> GAttributeError {
        match self {
            AttributeError::Duplicate { attr } => GAttributeError::Duplicate(attr@),
            AttributeError::Unexpected { attr, closest_match } => GAttributeError::Unexpected(
                attr@,
                match closest_match {
                    Some(m) => Some(m@),
                    None => None,
                },
            ),
            AttributeError::AlreadyUsed { attr } => GAttributeError::AlreadyUsed(attr@),
            AttributeError::Invalid { attr, reason } => GAttributeError::Invalid(attr@, reason@),
            AttributeError::Missing { attr, reason } => GAttributeError::Missing(attr@, reason@),
        }
    }
}

/// A schema that breaks a construction-time invariant.
#[derive(Debug, Clone, PartialEq, Eq)]
pub enum Error {
    /// A broken annotation.
    Attribute(AttributeError),
    /// A field that provides none of: candidate keys, a default, a nested
    /// schema, or the ignore mark.
    IncompleteField,
}

/// Mathematical view of a build `Error`.
pub enum GBuildError {
    Attribute(GAttributeError),
    IncompleteField,
}

impl View for Error {
    type V = GBuildError;

    open spec fn view(&self) -> GBuildError {
        match self {
            Error::Attribute(e) => GBuildError::Attribute(e@),
            Error::IncompleteField => GBuildError::IncompleteField,
        }
    }
}

impl Error {
    /// The error for an attribute given twice.
    pub fn duplicate_attribute(attr: &str) -> (r: Error)
        ensures
            r@ == GBuildError::Attribute(GAttributeError::Duplicate(attr@)),
    {
        Error::Attribute(AttributeError::Duplicate { attr: attr.to_owned() })
    }

    /// The error for an unknown attribute, with a suggestion if one is
    /// near.
    pub fn unexpected_attribute(attr: &str, closest_match: Option<String>) -> (r: Error)
        ensures
            r@ == GBuildError::Attribute(
                GAttributeError::Unexpected(
                    attr@,
                    match closest_match {
                        Some(m) => Some(m@),
                        None => None,
                    },
                ),
            ),
    {
        Error::Attribute(AttributeError::Unexpected { attr: attr.to_owned(), closest_match })
    }

    /// The error for a name that an earlier declaration already uses.
    pub fn already_used(attr: &str) -> (r: Error)
        ensures
            r@ == GBuildError::Attribute(GAttributeError::AlreadyUsed(attr@)),
    {
        Error::Attribute(AttributeError::AlreadyUsed { attr: attr.to_owned() })
    }

    /// The error for an attribute whose value is not acceptable.
    pub fn invalid_attribute(attr: &str, reason: &str) -> (r: Error)
        ensures
            r@ == GBuildError::Attribute(GAttributeError::Invalid(attr@, reason@)),
    {
        Error::Attribute(
            AttributeError::Invalid { attr: attr.to_owned(), reason: reason.to_owned() },
        )
    }

    /// The error for an attribute that another given attribute requires.
    pub fn missing_attribute(attr: &str, reason: &str) -> (r: Error)
        ensures
            r@ == GBuildError::Attribute(GAttributeError::Missing(attr@, reason@)),
    {
        Error::Attribute(
            AttributeError::Missing { attr: attr.to_owned(), reason: reason.to_owned() },
        )
    }
}

/// What strsim::levenshtein returns: the edit distance of two strings,
/// which depends on their characters alone.
pub uninterp spec fn lev_of(a: Seq<char>, b: Seq<char>) -> nat;

/// Relies on strsim::levenshtein: the minimum number of character
/// insertions, deletions and substitutions that turn one string into the
/// other.
#[verifier::external_body]
fn levenshtein(a: &str, b: &str) -> (r: usize)
    ensures
        r as nat == lev_of(a@, b@),
{
    strsim::levenshtein(a, b)
}

/// The first name among `variants[i..]` within edit distance 5 of `input`.
pub open spec fn g_closest_from(input: Seq<char>, variants: Seq<Seq<char>>, i: int) -> Option<
    Seq<char>,
>
    decreases variants.len() - i,
{
    if i < 0 || i >= variants.len() {
        None
    } else if lev_of(input, variants[i]) <= 5 {
        Some(variants[i])
    } else {
        g_closest_from(input, variants, i + 1)
    }
}

fn find_closest_match_from(input: &str, variants: &Vec<String>, i: usize) -> (r: Option<String>)
    requires
        i <= variants.len(),
    ensures
        match r {
            Some(m) => g_closest_from(input@, crate::strutil::strs_view(variants@), i as int)
                == Some(m@),
            None => g_closest_from(input@, crate::strutil::strs_view(variants@), i as int)
                is None,
        },
    decreases variants.len() - i,
{
    if i == variants.len() {
        None
    } else if levenshtein(input, variants[i].as_str()) <= 5 {
        Some(variants[i].clone())
    } else {
        find_closest_match_from(input, variants, i + 1)
    }
}

/// The first known name within edit distance 5 of `input`, if any; used to
/// propose a correction for an unknown attribute or case name.
pub fn find_closest_match(input: &str, variants: &Vec<String>) -> (r: Option<String>)
    ensures
        match r {
            Some(m) => g_closest_from(input@, crate::strutil::strs_view(variants@), 0) == Some(
                m@,
            ),
            None => g_closest_from(input@, crate::strutil::strs_view(variants@), 0) is None,
        },
{
    find_closest_match_from(input, variants, 0)
}

} // verus!
