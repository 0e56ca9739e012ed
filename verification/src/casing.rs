//! Naming case styles and their application.
//!
//! A container's naming policy may convert every composed lookup key into a
//! case style. The conversions themselves are performed by outside code
//! (std's case folding and the `convert_case` crate); their results are
//! named by uninterpreted functions, so every contract that mentions a
//! converted name speaks of exactly the string those functions return.
//!
//! Word boundaries for the word-based styles are delimiters (underscore,
//! hyphen, space), lower-to-upper transitions, acronym edges, and
//! transitions between letters and digits — except an upper-case letter
//! followed by a digit, so a trailing `V1` stays one word while `field1`
//! splits into `field` and `1`.

use vstd::prelude::*;
use crate::strutil::eq_str;
use convert_case::{Boundary, Casing};

verus! {

/// A naming case style.
#[derive(Debug, Clone, Copy, PartialEq, Eq, Structural)]
pub enum Case {
    /// All characters lowercased; no separators added (`lowercase`).
    Lower,
    /// All characters uppercased; no separators added (`UPPERCASE`).
    Upper,
    /// Each word capitalized, words joined directly (`PascalCase`).
    Pascal,
    /// First word lowercased, later words capitalized (`camelCase`).
    Camel,
    /// Words lowercased and joined by underscores (`snake_case`).
    Snake,
    /// Words uppercased and joined by underscores (`SCREAMING_SNAKE_CASE`).
    ScreamingSnake,
    /// Words lowercased and joined by hyphens (`kebab-case`).
    Kebab,
    /// Words uppercased and joined by hyphens (`SCREAMING-KEBAB-CASE`).
    ScreamingKebab,
}

/// What lowercasing a string returns.
pub uninterp spec fn lower_of(s: Seq<char>) -> Seq<char>;

/// What uppercasing a string returns.
pub uninterp spec fn upper_of(s: Seq<char>) -> Seq<char>;

/// What Pascal-casing a string returns.
pub uninterp spec fn pascal_of(s: Seq<char>) -> Seq<char>;

/// What camel-casing a string returns.
pub uninterp spec fn camel_of(s: Seq<char>) -> Seq<char>;

/// What snake-casing a string returns.
pub uninterp spec fn snake_of(s: Seq<char>) -> Seq<char>;

/// What screaming-snake-casing a string returns.
pub uninterp spec fn upper_snake_of(s: Seq<char>) -> Seq<char>;

/// What kebab-casing a string returns.
pub uninterp spec fn kebab_of(s: Seq<char>) -> Seq<char>;

/// What screaming-kebab-casing a string returns.
pub uninterp spec fn upper_kebab_of(s: Seq<char>) -> Seq<char>;

/// What a name looks like in a given case style.
pub open spec fn g_case_of(c: Case, s: Seq<char>) -> Seq<char> {
    match c {
        Case::Lower => lower_of(s),
        Case::Upper => upper_of(s),
        Case::Pascal => pascal_of(s),
        Case::Camel => camel_of(s),
        Case::Snake => snake_of(s),
        Case::ScreamingSnake => upper_snake_of(s),
        Case::Kebab => kebab_of(s),
        Case::ScreamingKebab => upper_kebab_of(s),
    }
}

/// Relies on str::to_lowercase: the result depends on the characters alone.
#[verifier::external_body]
fn to_lower(s: &str) -> (r: String)
    ensures
        r@ == lower_of(s@),
{
    s.to_lowercase()
}

/// Relies on str::to_uppercase: the result depends on the characters alone.
#[verifier::external_body]
fn to_upper(s: &str) -> (r: String)
    ensures
        r@ == upper_of(s@),
{
    s.to_uppercase()
}

/// Relies on convert_case::Casing::to_case with the Pascal case and the
/// word boundaries named in the module documentation: the result depends
/// on the characters alone.
#[verifier::external_body]
fn to_pascal(s: &str) -> (r: String)
    ensures
        r@ == pascal_of(s@),
{
    s.set_boundaries(
        &[
            Boundary::Underscore,
            Boundary::Hyphen,
            Boundary::Space,
            Boundary::LowerUpper,
            Boundary::LowerDigit,
            Boundary::DigitLower,
            Boundary::DigitUpper,
            Boundary::Acronym,
        ],
    ).to_case(convert_case::Case::Pascal)
}

/// Relies on convert_case::Casing::to_case with the Camel case and the
/// word boundaries named in the module documentation.
#[verifier::external_body]
fn to_camel(s: &str) -> (r: String)
    ensures
        r@ == camel_of(s@),
{
    s.set_boundaries(
        &[
            Boundary::Underscore,
            Boundary::Hyphen,
            Boundary::Space,
            Boundary::LowerUpper,
            Boundary::LowerDigit,
            Boundary::DigitLower,
            Boundary::DigitUpper,
            Boundary::Acronym,
        ],
    ).to_case(convert_case::Case::Camel)
}

/// Relies on convert_case::Casing::to_case with the Snake case and the
/// word boundaries named in the module documentation.
#[verifier::external_body]
fn to_snake(s: &str) -> (r: String)
    ensures
        r@ == snake_of(s@),
{
    s.set_boundaries(
        &[
            Boundary::Underscore,
            Boundary::Hyphen,
            Boundary::Space,
            Boundary::LowerUpper,
            Boundary::LowerDigit,
            Boundary::DigitLower,
            Boundary::DigitUpper,
            Boundary::Acronym,
        ],
    ).to_case(convert_case::Case::Snake)
}

/// Relies on convert_case::Casing::to_case with the UpperSnake (constant)
/// case and the word boundaries named in the module documentation.
#[verifier::external_body]
fn to_upper_snake(s: &str) -> (r: String)
    ensures
        r@ == upper_snake_of(s@),
{
    s.set_boundaries(
        &[
            Boundary::Underscore,
            Boundary::Hyphen,
            Boundary::Space,
            Boundary::LowerUpper,
            Boundary::LowerDigit,
            Boundary::DigitLower,
            Boundary::DigitUpper,
            Boundary::Acronym,
        ],
    ).to_case(convert_case::Case::UpperSnake)
}

/// Relies on convert_case::Casing::to_case with the Kebab case and the
/// word boundaries named in the module documentation.
#[verifier::external_body]
fn to_kebab(s: &str) -> (r: String)
    ensures
        r@ == kebab_of(s@),
{
    s.set_boundaries(
        &[
            Boundary::Underscore,
            Boundary::Hyphen,
            Boundary::Space,
            Boundary::LowerUpper,
            Boundary::LowerDigit,
            Boundary::DigitLower,
            Boundary::DigitUpper,
            Boundary::Acronym,
        ],
    ).to_case(convert_case::Case::Kebab)
}

/// Relies on convert_case::Casing::to_case with the UpperKebab (cobol)
/// case and the word boundaries named in the module documentation.
#[verifier::external_body]
fn to_upper_kebab(s: &str) -> (r: String)
    ensures
        r@ == upper_kebab_of(s@),
{
    s.set_boundaries(
        &[
            Boundary::Underscore,
            Boundary::Hyphen,
            Boundary::Space,
            Boundary::LowerUpper,
            Boundary::LowerDigit,
            Boundary::DigitLower,
            Boundary::DigitUpper,
            Boundary::Acronym,
        ],
    ).to_case(convert_case::Case::UpperKebab)
}

/// The case style a configuration name denotes, if any.
pub open spec fn g_case_from_name(s: Seq<char>) -> Option<Case> {
    if s == "lowercase"@ || s == "lower"@ {
        Some(Case::Lower)
    } else if s == "UPPERCASE"@ || s == "UPPER"@ {
        Some(Case::Upper)
    } else if s == "PascalCase"@ {
        Some(Case::Pascal)
    } else if s == "camelCase"@ {
        Some(Case::Camel)
    } else if s == "snake_case"@ {
        Some(Case::Snake)
    } else if s == "SCREAMING_SNAKE_CASE"@ {
        Some(Case::ScreamingSnake)
    } else if s == "kebab-case"@ {
        Some(Case::Kebab)
    } else if s == "SCREAMING-KEBAB-CASE"@ {
        Some(Case::ScreamingKebab)
    } else {
        None
    }
}

impl Case {
    /// Converts a name to this case style.
    pub fn rename(&self, s: &str) -> (r: String)
        ensures
            r@ == g_case_of(*self, s@),
    {
        match self {
            Case::Lower => to_lower(s),
            Case::Upper => to_upper(s),
            Case::Pascal => to_pascal(s),
            Case::Camel => to_camel(s),
            Case::Snake => to_snake(s),
            Case::ScreamingSnake => to_upper_snake(s),
            Case::Kebab => to_kebab(s),
            Case::ScreamingKebab => to_upper_kebab(s),
        }
    }

    /// Parses a case style from its configuration name, such as
    /// `lowercase` or `SCREAMING_SNAKE_CASE`.
    pub fn parse(s: &str) -> (r: Option<Case>)
        ensures
            r == g_case_from_name(s@),
    {
        if eq_str(s, "lowercase") || eq_str(s, "lower") {
            Some(Case::Lower)
        } else if eq_str(s, "UPPERCASE") || eq_str(s, "UPPER") {
            Some(Case::Upper)
        } else if eq_str(s, "PascalCase") {
            Some(Case::Pascal)
        } else if eq_str(s, "camelCase") {
            Some(Case::Camel)
        } else if eq_str(s, "snake_case") {
            Some(Case::Snake)
        } else if eq_str(s, "SCREAMING_SNAKE_CASE") {
            Some(Case::ScreamingSnake)
        } else if eq_str(s, "kebab-case") {
            Some(Case::Kebab)
        } else if eq_str(s, "SCREAMING-KEBAB-CASE") {
            Some(Case::ScreamingKebab)
        } else {
            None
        }
    }

    /// The configuration names of the case styles, for suggestions when an
    /// unknown name is seen.
    pub fn variant_names() -> (r: Vec<String>)
        ensures
            r@.len() == 8,
            r@[0]@ == "lowercase"@,
            r@[1]@ == "UPPERCASE"@,
            r@[2]@ == "PascalCase"@,
            r@[3]@ == "camelCase"@,
            r@[4]@ == "snake_case"@,
            r@[5]@ == "SCREAMING_SNAKE_CASE"@,
            r@[6]@ == "kebab-case"@,
            r@[7]@ == "SCREAMING-KEBAB-CASE"@,
    {
        let mut r: Vec<String> = Vec::new();
        r.push("lowercase".to_owned());
        r.push("UPPERCASE".to_owned());
        r.push("PascalCase".to_owned());
        r.push("camelCase".to_owned());
        r.push("snake_case".to_owned());
        r.push("SCREAMING_SNAKE_CASE".to_owned());
        r.push("kebab-case".to_owned());
        r.push("SCREAMING-KEBAB-CASE".to_owned());
        r
    }
}

} // verus!
