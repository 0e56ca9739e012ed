//! The schema: the immutable, typed description of a configuration shape.
//!
//! A schema node is a record (named fields) or a tagged union (variants
//! selected by a discriminant string). Containers carry a naming policy —
//! prefix, suffix, delimiter, case style — that turns a raw candidate name
//! into the final lookup key; fields and variants may suppress the prefix
//! or suffix. The invariants of a schema are checked once, by `check`, at
//! construction time, never during resolution.

use vstd::prelude::*;
use crate::casing::{g_case_of, Case};
use crate::diag;
use crate::diag::{GAttributeError, GBuildError};
use crate::strutil::strs_view;
use crate::value::{Scalar, ValueTy};

verus! {

/// Naming policy and container-level settings shared by the fields of a
/// record or the variants of a union.
#[derive(Debug, Clone)]
pub struct ContainerAttributes {
    /// Prefix prepended (with the delimiter) to every lookup name.
    pub prefix: Option<String>,
    /// Suffix appended (with the delimiter) to every lookup name.
    pub suffix: Option<String>,
    /// Separator between prefix, name, and suffix; `_` when unset.
    pub delimiter: Option<String>,
    /// Case style applied to every composed lookup name.
    pub rename_all: Option<Case>,
    /// For records: path of a dotenv-style file to load as the fallback
    /// source. The engine never reads it; the caller does, and passes the
    /// parsed map as a source of the chain.
    pub dotenv: Option<String>,
    /// For unions: the candidate keys of the discriminant. When empty, the
    /// container's own name is used.
    pub envs: Vec<String>,
}

/// The prefix as a character sequence; empty when unset.
pub open spec fn g_prefix(ca: ContainerAttributes) -> Seq<char> {
    match ca.prefix {
        Some(p) => p@,
        None => Seq::empty(),
    }
}

/// The suffix as a character sequence; empty when unset.
pub open spec fn g_suffix(ca: ContainerAttributes) -> Seq<char> {
    match ca.suffix {
        Some(s) => s@,
        None => Seq::empty(),
    }
}

/// The delimiter as a character sequence; an underscore when unset.
pub open spec fn g_delimiter(ca: ContainerAttributes) -> Seq<char> {
    match ca.delimiter {
        Some(d) => d@,
        None => "_"@,
    }
}

/// The final lookup key for a raw candidate name: the prefix and the
/// delimiter (unless suppressed or no prefix is set), the name, the
/// delimiter and the suffix (unless suppressed or no suffix is set); then,
/// if a case style is set, the conversion applied to the whole composed
/// string — so the case style takes priority over the delimiter, which
/// becomes a word-separation hint only.
pub open spec fn g_rename(
    ca: ContainerAttributes,
    original: Seq<char>,
    no_prefix: bool,
    no_suffix: bool,
) -> Seq<char> {
    let pre = if no_prefix || ca.prefix is None {
        Seq::<char>::empty()
    } else {
        g_prefix(ca) + g_delimiter(ca)
    };
    let suf = if no_suffix || ca.suffix is None {
        Seq::<char>::empty()
    } else {
        g_delimiter(ca) + g_suffix(ca)
    };
    let composed = pre + original + suf;
    match ca.rename_all {
        Some(c) => g_case_of(c, composed),
        None => composed,
    }
}

/// The resolved discriminant keys of a union container: each candidate
/// key, renamed without suppression.
pub open spec fn g_get_envs(ca: ContainerAttributes) -> Seq<Seq<char>> {
    strs_view(ca.envs@).map_values(|e: Seq<char>| g_rename(ca, e, false, false))
}

impl ContainerAttributes {
    /// A container with no naming policy: no prefix, no suffix, the
    /// default delimiter, no case conversion.
    pub fn new() -> (r: ContainerAttributes)
        ensures
            r.prefix is None,
            r.suffix is None,
            r.delimiter is None,
            r.rename_all is None,
            r.dotenv is None,
            r.envs@.len() == 0,
    {
        ContainerAttributes {
            prefix: None,
            suffix: None,
            delimiter: None,
            rename_all: None,
            dotenv: None,
            envs: Vec::new(),
        }
    }

    /// The prefix, or the empty string when none is set.
    pub fn get_prefix(&self) -> (r: &str)
        ensures
            r@ == g_prefix(*self),
    {
        proof {
            reveal_strlit("");
        }
        let r = match &self.prefix {
            Some(p) => p.as_str(),
            None => "",
        };
        proof {
            if self.prefix is None {
                assert(r@ =~= Seq::<char>::empty());
            }
        }
        r
    }

    /// The suffix, or the empty string when none is set.
    pub fn get_suffix(&self) -> (r: &str)
        ensures
            r@ == g_suffix(*self),
    {
        proof {
            reveal_strlit("");
        }
        let r = match &self.suffix {
            Some(s) => s.as_str(),
            None => "",
        };
        proof {
            if self.suffix is None {
                assert(r@ =~= Seq::<char>::empty());
            }
        }
        r
    }

    /// The delimiter, or `_` when none is set.
    pub fn get_delimiter(&self) -> (r: &str)
        ensures
            r@ == g_delimiter(*self),
    {
        match &self.delimiter {
            Some(d) => d.as_str(),
            None => "_",
        }
    }

    /// Sets the prefix; rejects a second assignment.
    pub fn set_prefix(&mut self, prefix: &str) -> (r: Result<(), diag::Error>)
        ensures
            match r {
                Ok(()) => {
                    &&& old(self).prefix is None
                    &&& final(self).prefix is Some
                    &&& g_prefix(*final(self)) == prefix@
                    &&& final(self).suffix == old(self).suffix
                    &&& final(self).delimiter == old(self).delimiter
                    &&& final(self).rename_all == old(self).rename_all
                    &&& final(self).dotenv == old(self).dotenv
                    &&& final(self).envs == old(self).envs
                },
                Err(e) => old(self).prefix is Some && *final(self) == *old(self) && e@
                    == GBuildError::Attribute(GAttributeError::Duplicate(prefix@)),
            },
    {
        if self.prefix.is_some() {
            return Err(diag::Error::duplicate_attribute(prefix));
        }
        self.prefix = Some(prefix.to_owned());
        Ok(())
    }

    /// Sets the suffix; rejects a second assignment.
    pub fn set_suffix(&mut self, suffix: &str) -> (r: Result<(), diag::Error>)
        ensures
            match r {
                Ok(()) => {
                    &&& old(self).suffix is None
                    &&& final(self).suffix is Some
                    &&& g_suffix(*final(self)) == suffix@
                    &&& final(self).prefix == old(self).prefix
                    &&& final(self).delimiter == old(self).delimiter
                    &&& final(self).rename_all == old(self).rename_all
                    &&& final(self).dotenv == old(self).dotenv
                    &&& final(self).envs == old(self).envs
                },
                Err(e) => old(self).suffix is Some && *final(self) == *old(self) && e@
                    == GBuildError::Attribute(GAttributeError::Duplicate(suffix@)),
            },
    {
        if self.suffix.is_some() {
            return Err(diag::Error::duplicate_attribute(suffix));
        }
        self.suffix = Some(suffix.to_owned());
        Ok(())
    }

    /// Sets the delimiter; rejects a second assignment.
    pub fn set_delimiter(&mut self, delimiter: &str) -> (r: Result<(), diag::Error>)
        ensures
            match r {
                Ok(()) => {
                    &&& old(self).delimiter is None
                    &&& final(self).delimiter is Some
                    &&& g_delimiter(*final(self)) == delimiter@
                    &&& final(self).prefix == old(self).prefix
                    &&& final(self).suffix == old(self).suffix
                    &&& final(self).rename_all == old(self).rename_all
                    &&& final(self).dotenv == old(self).dotenv
                    &&& final(self).envs == old(self).envs
                },
                Err(e) => old(self).delimiter is Some && *final(self) == *old(self) && e@
                    == GBuildError::Attribute(GAttributeError::Duplicate(delimiter@)),
            },
    {
        if self.delimiter.is_some() {
            return Err(diag::Error::duplicate_attribute(delimiter));
        }
        self.delimiter = Some(delimiter.to_owned());
        Ok(())
    }

    /// Sets the case style; rejects a second assignment.
    pub fn set_rename_all(&mut self, case: Case) -> (r: Result<(), diag::Error>)
        ensures
            match r {
                Ok(()) => {
                    &&& old(self).rename_all is None
                    &&& final(self).rename_all == Some(case)
                    &&& final(self).prefix == old(self).prefix
                    &&& final(self).suffix == old(self).suffix
                    &&& final(self).delimiter == old(self).delimiter
                    &&& final(self).dotenv == old(self).dotenv
                    &&& final(self).envs == old(self).envs
                },
                Err(e) => old(self).rename_all is Some && *final(self) == *old(self) && e@
                    == GBuildError::Attribute(GAttributeError::Duplicate("rename_all"@)),
            },
    {
        if self.rename_all.is_some() {
            return Err(diag::Error::duplicate_attribute("rename_all"));
        }
        self.rename_all = Some(case);
        Ok(())
    }

    /// Sets the dotenv fallback path; rejects a second assignment.
    pub fn set_dotenv(&mut self, path: &str) -> (r: Result<(), diag::Error>)
        ensures
            match r {
                Ok(()) => {
                    &&& old(self).dotenv is None
                    &&& final(self).dotenv is Some
                    &&& (match final(self).dotenv {
                        Some(p) => p@ == path@,
                        None => false,
                    })
                    &&& final(self).prefix == old(self).prefix
                    &&& final(self).suffix == old(self).suffix
                    &&& final(self).delimiter == old(self).delimiter
                    &&& final(self).rename_all == old(self).rename_all
                    &&& final(self).envs == old(self).envs
                },
                Err(e) => old(self).dotenv is Some && *final(self) == *old(self) && e@
                    == GBuildError::Attribute(GAttributeError::Duplicate("dotenv"@)),
            },
    {
        if self.dotenv.is_some() {
            return Err(diag::Error::duplicate_attribute("dotenv"));
        }
        self.dotenv = Some(path.to_owned());
        Ok(())
    }

    /// Adds a discriminant candidate key; rejects an empty name and a name
    /// given twice.
    pub fn add_env(&mut self, env: &str) -> (r: Result<(), diag::Error>)
        ensures
            match r {
                Ok(()) => {
                    &&& env@.len() > 0
                    &&& !strs_view(old(self).envs@).contains(env@)
                    &&& strs_view(final(self).envs@) == strs_view(old(self).envs@).push(env@)
                    &&& final(self).prefix == old(self).prefix
                    &&& final(self).suffix == old(self).suffix
                    &&& final(self).delimiter == old(self).delimiter
                    &&& final(self).rename_all == old(self).rename_all
                    &&& final(self).dotenv == old(self).dotenv
                },
                Err(e) => *final(self) == *old(self) && (if env@.len() == 0 {
                    e@ == GBuildError::Attribute(
                        GAttributeError::Invalid("env"@, "attribute cannot be empty"@),
                    )
                } else {
                    strs_view(old(self).envs@).contains(env@) && e@ == GBuildError::Attribute(
                        GAttributeError::Duplicate(env@),
                    )
                }),
            },
    {
        if env.unicode_len() == 0 {
            return Err(diag::Error::invalid_attribute("env", "attribute cannot be empty"));
        }
        if contains_str(&self.envs, env) {
            return Err(diag::Error::duplicate_attribute(env));
        }
        let ghost old_envs = self.envs@;
        self.envs.push(env.to_owned());
        proof {
            assert(strs_view(self.envs@) =~= strs_view(old_envs).push(env@));
        }
        Ok(())
    }

    /// Composes the final lookup key for a raw candidate name under this
    /// container's naming policy, honoring the given suppression flags.
    pub fn rename(&self, original: String, no_prefix: bool, no_suffix: bool) -> (r: String)
        ensures
            r@ == g_rename(*self, original@, no_prefix, no_suffix),
    {
        let mut composed = String::new();
        if !no_prefix && self.prefix.is_some() {
            composed.append(self.get_prefix());
            composed.append(self.get_delimiter());
        }
        composed.append(original.as_str());
        if !no_suffix && self.suffix.is_some() {
            composed.append(self.get_delimiter());
            composed.append(self.get_suffix());
        }
        proof {
            let pre = if no_prefix || self.prefix is None {
                Seq::<char>::empty()
            } else {
                g_prefix(*self) + g_delimiter(*self)
            };
            let suf = if no_suffix || self.suffix is None {
                Seq::<char>::empty()
            } else {
                g_delimiter(*self) + g_suffix(*self)
            };
            assert(composed@ =~= pre + original@ + suf);
        }
        match &self.rename_all {
            Some(case) => case.rename(composed.as_str()),
            None => composed,
        }
    }

    /// The resolved discriminant keys: every candidate key, renamed with
    /// no suppression.
    pub fn get_envs(&self) -> (r: Vec<String>)
        ensures
            strs_view(r@) == g_get_envs(*self),
    {
        let mut r: Vec<String> = Vec::new();
        let n = self.envs.len();
        let mut i: usize = 0;
        while i < n
            invariant
                0 <= i <= n,
                n == self.envs@.len(),
                r@.len() == i as int,
                forall|j: int|
                    0 <= j < i ==> r@[j]@ == g_rename(*self, self.envs@[j]@, false, false),
            decreases n - i,
        {
            r.push(self.rename(self.envs[i].clone(), false, false));
            i += 1;
        }
        proof {
            assert(strs_view(r@) =~= g_get_envs(*self));
        }
        r
    }
}

/// Whether a vector of strings holds one with the given characters.
pub fn contains_str(v: &Vec<String>, s: &str) -> (r: bool)
    ensures
        r == strs_view(v@).contains(s@),
{
    let n = v.len();
    let mut i: usize = 0;
    while i < n
        invariant
            0 <= i <= n,
            n == v@.len(),
            forall|j: int| 0 <= j < i ==> v@[j]@ != s@,
        decreases n - i,
    {
        if crate::strutil::eq_str(v[i].as_str(), s) {
            proof {
                assert(strs_view(v@)[i as int] == s@);
            }
            return true;
        }
        i += 1;
    }
    proof {
        assert(forall|j: int| 0 <= j < strs_view(v@).len() ==> strs_view(v@)[j] != s@);
    }
    false
}

/// How a field obtains a fallback value when its sources yield none.
#[derive(Debug)]
pub enum DefaultSpec {
    /// The additive identity of the field's type; for an optional field,
    /// the absent value.
    ZeroValue,
    /// A literal, converted to the field's type when the default is used.
    Literal(Scalar),
    /// A reachable constant, obtained from the hook registry by identifier.
    ValueRef(u64),
    /// A supplier function, obtained from the hook registry by identifier
    /// and invoked with the given arguments.
    Supplier(u64, Vec<Scalar>),
}

/// The description of one record field: its candidate lookup keys, its
/// type, its default, and its transform and validation hooks.
#[derive(Debug)]
pub struct FieldSpec {
    /// The field's own name, used in error reports.
    pub name: String,
    /// Candidate lookup keys, in the order they are tried. Empty when the
    /// field is filled from its default or a nested schema only.
    pub envs: Vec<String>,
    /// Fallback when no source yields a value (and, for retrieval or
    /// parse failures, when a found value cannot be used).
    pub default: Option<DefaultSpec>,
    /// Transform hook identifier; requires `arg_type`.
    pub parse_fn: Option<u64>,
    /// The transform's declared argument type, which becomes the type the
    /// raw string is parsed into.
    pub arg_type: Option<ValueTy>,
    /// Validation hook applied to the parsed intermediate value.
    pub validate_before: Option<u64>,
    /// Validation hook applied to the final value.
    pub validate_after: Option<u64>,
    /// Element separator for list, set, and map fields; `,` when unset.
    pub delimiter: Option<String>,
    /// Leave the container's prefix off this field's lookup keys.
    pub no_prefix: bool,
    /// Leave the container's suffix off this field's lookup keys.
    pub no_suffix: bool,
    /// A nested schema the field is resolved from instead of a source
    /// lookup.
    pub nested: Option<Box<SchemaNode>>,
    /// Skip the field entirely; the assembled record holds no entry for
    /// it.
    pub ignore: bool,
    /// The field's type.
    pub ty: ValueTy,
}

/// One variant of a tagged union: the names its discriminant may match,
/// and its payload schema (none for a unit variant).
#[derive(Debug)]
pub struct VariantSpec {
    /// The variant's own identifier; names the variant in the resolved
    /// value.
    pub ident: String,
    /// Replaces the identifier as the first match name.
    pub rename: Option<String>,
    /// Further names to match, after the rename or identifier.
    pub aliases: Vec<String>,
    /// Leave the container's prefix off this variant's match names.
    pub no_prefix: bool,
    /// Leave the container's suffix off this variant's match names.
    pub no_suffix: bool,
    /// Resolve this variant when the discriminant is missing or matches
    /// no variant. At most one variant of a union may be the default.
    pub is_default: bool,
    /// The variant's payload schema; none for a unit variant.
    pub payload: Option<Box<SchemaNode>>,
}

/// A record: named fields resolved in declaration order.
#[derive(Debug)]
pub struct RecordSchema {
    /// The record type's name.
    pub name: String,
    /// The container-level naming policy and settings.
    pub attrs: ContainerAttributes,
    /// The fields, in declaration order.
    pub fields: Vec<FieldSpec>,
}

/// A tagged union: variants selected by a discriminant string.
#[derive(Debug)]
pub struct UnionSchema {
    /// The union type's name; the default discriminant key.
    pub name: String,
    /// The container-level naming policy and settings.
    pub attrs: ContainerAttributes,
    /// The variants, in declaration order.
    pub variants: Vec<VariantSpec>,
}

/// A schema node: the shape of one configuration type.
#[derive(Debug)]
pub enum SchemaNode {
    Record(RecordSchema),
    Union(UnionSchema),
}

/// The collection delimiter of a field; a comma when unset.
pub open spec fn g_field_delim(f: FieldSpec) -> Seq<char> {
    match f.delimiter {
        Some(d) => d@,
        None => ","@,
    }
}

/// The type the raw string of a field is parsed into: the transform's
/// declared argument type if a transform is set, else the field's type.
pub open spec fn g_intermediate_ty(f: FieldSpec) -> ValueTy {
    if f.parse_fn is Some && f.arg_type is Some {
        f.arg_type.unwrap()
    } else {
        f.ty
    }
}

/// The names a variant's discriminant may match: the rename if one is
/// set, else the variant's identifier, followed by the aliases.
pub open spec fn g_variant_names(v: VariantSpec) -> Seq<Seq<char>> {
    (match v.rename {
        Some(r) => seq![r@],
        None => seq![v.ident@],
    }) + strs_view(v.aliases@)
}

/// The resolved discriminant keys of a union: its container's candidate
/// keys, or the union's own name when none are set, each renamed with no
/// suppression.
pub open spec fn g_disc_keys(u: UnionSchema) -> Seq<Seq<char>> {
    if u.attrs.envs@.len() == 0 {
        seq![g_rename(u.attrs, u.name@, false, false)]
    } else {
        g_get_envs(u.attrs)
    }
}

impl FieldSpec {
    /// A field with the given name and type and no other settings.
    pub fn new(name: &str, ty: ValueTy) -> (r: FieldSpec)
        ensures
            r.name@ == name@,
            r.envs@.len() == 0,
            r.default is None,
            r.parse_fn is None,
            r.arg_type is None,
            r.validate_before is None,
            r.validate_after is None,
            r.delimiter is None,
            r.no_prefix == false,
            r.no_suffix == false,
            r.nested is None,
            r.ignore == false,
            r.ty == ty,
    {
        FieldSpec {
            name: name.to_owned(),
            envs: Vec::new(),
            default: None,
            parse_fn: None,
            arg_type: None,
            validate_before: None,
            validate_after: None,
            delimiter: None,
            no_prefix: false,
            no_suffix: false,
            nested: None,
            ignore: false,
            ty,
        }
    }

    /// Adds a candidate lookup key; rejects an empty name and a name
    /// given twice.
    pub fn add_env(&mut self, env: &str) -> (r: Result<(), diag::Error>)
        ensures
            match r {
                Ok(()) => {
                    &&& env@.len() > 0
                    &&& !strs_view(old(self).envs@).contains(env@)
                    &&& strs_view(final(self).envs@) == strs_view(old(self).envs@).push(env@)
                    &&& final(self).name == old(self).name
                    &&& final(self).default == old(self).default
                    &&& final(self).parse_fn == old(self).parse_fn
                    &&& final(self).arg_type == old(self).arg_type
                    &&& final(self).validate_before == old(self).validate_before
                    &&& final(self).validate_after == old(self).validate_after
                    &&& final(self).delimiter == old(self).delimiter
                    &&& final(self).no_prefix == old(self).no_prefix
                    &&& final(self).no_suffix == old(self).no_suffix
                    &&& final(self).nested == old(self).nested
                    &&& final(self).ignore == old(self).ignore
                    &&& final(self).ty == old(self).ty
                },
                Err(e) => *final(self) == *old(self) && (if env@.len() == 0 {
                    e@ == GBuildError::Attribute(
                        GAttributeError::Invalid("env"@, "attribute cannot be empty"@),
                    )
                } else {
                    strs_view(old(self).envs@).contains(env@) && e@ == GBuildError::Attribute(
                        GAttributeError::Duplicate(env@),
                    )
                }),
            },
    {
        if env.unicode_len() == 0 {
            return Err(diag::Error::invalid_attribute("env", "attribute cannot be empty"));
        }
        if contains_str(&self.envs, env) {
            return Err(diag::Error::duplicate_attribute(env));
        }
        let ghost old_envs = self.envs@;
        self.envs.push(env.to_owned());
        proof {
            assert(strs_view(self.envs@) =~= strs_view(old_envs).push(env@));
        }
        Ok(())
    }

    /// Sets the default; rejects a second assignment.
    pub fn set_default(&mut self, d: DefaultSpec) -> (r: Result<(), diag::Error>)
        ensures
            match r {
                Ok(()) => old(self).default is None && *final(self) == (FieldSpec {
                    default: Some(d),
                    ..*old(self)
                }),
                Err(e) => old(self).default is Some && *final(self) == *old(self) && e@
                    == GBuildError::Attribute(GAttributeError::Duplicate("default"@)),
            },
    {
        if self.default.is_some() {
            return Err(diag::Error::duplicate_attribute("default"));
        }
        self.default = Some(d);
        Ok(())
    }

    /// Sets the transform hook; rejects a second assignment.
    pub fn set_parse_fn(&mut self, id: u64) -> (r: Result<(), diag::Error>)
        ensures
            match r {
                Ok(()) => old(self).parse_fn is None && *final(self) == (FieldSpec {
                    parse_fn: Some(id),
                    ..*old(self)
                }),
                Err(e) => old(self).parse_fn is Some && *final(self) == *old(self) && e@
                    == GBuildError::Attribute(GAttributeError::Duplicate("parse_fn"@)),
            },
    {
        if self.parse_fn.is_some() {
            return Err(diag::Error::duplicate_attribute("parse_fn"));
        }
        self.parse_fn = Some(id);
        Ok(())
    }

    /// Sets the transform's argument type; rejects a second assignment.
    pub fn set_arg_type(&mut self, ty: ValueTy) -> (r: Result<(), diag::Error>)
        ensures
            match r {
                Ok(()) => old(self).arg_type is None && *final(self) == (FieldSpec {
                    arg_type: Some(ty),
                    ..*old(self)
                }),
                Err(e) => old(self).arg_type is Some && *final(self) == *old(self) && e@
                    == GBuildError::Attribute(GAttributeError::Duplicate("arg_type"@)),
            },
    {
        if self.arg_type.is_some() {
            return Err(diag::Error::duplicate_attribute("arg_type"));
        }
        self.arg_type = Some(ty);
        Ok(())
    }

    /// Sets the pre-parse validation hook; rejects a second assignment.
    pub fn set_validate_before(&mut self, id: u64) -> (r: Result<(), diag::Error>)
        ensures
            match r {
                Ok(()) => old(self).validate_before is None && *final(self) == (FieldSpec {
                    validate_before: Some(id),
                    ..*old(self)
                }),
                Err(e) => old(self).validate_before is Some && *final(self) == *old(self) && e@
                    == GBuildError::Attribute(GAttributeError::Duplicate("validate_fn::before"@)),
            },
    {
        if self.validate_before.is_some() {
            return Err(diag::Error::duplicate_attribute("validate_fn::before"));
        }
        self.validate_before = Some(id);
        Ok(())
    }

    /// Sets the post-parse validation hook; rejects a second assignment.
    pub fn set_validate_after(&mut self, id: u64) -> (r: Result<(), diag::Error>)
        ensures
            match r {
                Ok(()) => old(self).validate_after is None && *final(self) == (FieldSpec {
                    validate_after: Some(id),
                    ..*old(self)
                }),
                Err(e) => old(self).validate_after is Some && *final(self) == *old(self) && e@
                    == GBuildError::Attribute(GAttributeError::Duplicate("validate_fn::after"@)),
            },
    {
        if self.validate_after.is_some() {
            return Err(diag::Error::duplicate_attribute("validate_fn::after"));
        }
        self.validate_after = Some(id);
        Ok(())
    }

    /// Sets the collection delimiter; rejects a second assignment, the
    /// reserved pair separator `=`, and the empty string.
    pub fn set_delimiter(&mut self, delimiter: &str) -> (r: Result<(), diag::Error>)
        ensures
            match r {
                Ok(()) => {
                    &&& old(self).delimiter is None
                    &&& delimiter@ != "="@
                    &&& delimiter@.len() > 0
                    &&& final(self).delimiter is Some
                    &&& g_field_delim(*final(self)) == delimiter@
                    &&& final(self).name == old(self).name
                    &&& final(self).envs == old(self).envs
                    &&& final(self).default == old(self).default
                    &&& final(self).parse_fn == old(self).parse_fn
                    &&& final(self).arg_type == old(self).arg_type
                    &&& final(self).validate_before == old(self).validate_before
                    &&& final(self).validate_after == old(self).validate_after
                    &&& final(self).no_prefix == old(self).no_prefix
                    &&& final(self).no_suffix == old(self).no_suffix
                    &&& final(self).nested == old(self).nested
                    &&& final(self).ignore == old(self).ignore
                    &&& final(self).ty == old(self).ty
                },
                Err(e) => *final(self) == *old(self) && (if old(self).delimiter is Some {
                    e@ == GBuildError::Attribute(GAttributeError::Duplicate("delimiter"@))
                } else if delimiter@ == "="@ {
                    e@ == GBuildError::Attribute(
                        GAttributeError::Invalid("delimiter"@, "delimiter reserved by the macro"@),
                    )
                } else {
                    delimiter@.len() == 0 && e@ == GBuildError::Attribute(
                        GAttributeError::Invalid("delimiter"@, "attribute cannot be empty"@),
                    )
                }),
            },
    {
        if self.delimiter.is_some() {
            return Err(diag::Error::duplicate_attribute("delimiter"));
        }
        if crate::strutil::eq_str(delimiter, "=") {
            return Err(
                diag::Error::invalid_attribute("delimiter", "delimiter reserved by the macro"),
            );
        }
        if delimiter.unicode_len() == 0 {
            return Err(diag::Error::invalid_attribute("delimiter", "attribute cannot be empty"));
        }
        self.delimiter = Some(delimiter.to_owned());
        Ok(())
    }

    /// Leaves the container's prefix off this field; rejects a second
    /// assignment.
    pub fn disable_prefix(&mut self) -> (r: Result<(), diag::Error>)
        ensures
            match r {
                Ok(()) => !old(self).no_prefix && *final(self) == (FieldSpec {
                    no_prefix: true,
                    ..*old(self)
                }),
                Err(e) => old(self).no_prefix && *final(self) == *old(self) && e@
                    == GBuildError::Attribute(GAttributeError::Duplicate("no_prefix"@)),
            },
    {
        if self.no_prefix {
            return Err(diag::Error::duplicate_attribute("no_prefix"));
        }
        self.no_prefix = true;
        Ok(())
    }

    /// Leaves the container's suffix off this field; rejects a second
    /// assignment.
    pub fn disable_suffix(&mut self) -> (r: Result<(), diag::Error>)
        ensures
            match r {
                Ok(()) => !old(self).no_suffix && *final(self) == (FieldSpec {
                    no_suffix: true,
                    ..*old(self)
                }),
                Err(e) => old(self).no_suffix && *final(self) == *old(self) && e@
                    == GBuildError::Attribute(GAttributeError::Duplicate("no_suffix"@)),
            },
    {
        if self.no_suffix {
            return Err(diag::Error::duplicate_attribute("no_suffix"));
        }
        self.no_suffix = true;
        Ok(())
    }

    /// Attaches a nested schema; rejects a second assignment.
    pub fn set_nested(&mut self, node: SchemaNode) -> (r: Result<(), diag::Error>)
        ensures
            match r {
                Ok(()) => {
                    &&& old(self).nested is None
                    &&& (match final(self).nested {
                        Some(b) => *b == node,
                        None => false,
                    })
                    &&& final(self).name == old(self).name
                    &&& final(self).envs == old(self).envs
                    &&& final(self).default == old(self).default
                    &&& final(self).parse_fn == old(self).parse_fn
                    &&& final(self).arg_type == old(self).arg_type
                    &&& final(self).validate_before == old(self).validate_before
                    &&& final(self).validate_after == old(self).validate_after
                    &&& final(self).delimiter == old(self).delimiter
                    &&& final(self).no_prefix == old(self).no_prefix
                    &&& final(self).no_suffix == old(self).no_suffix
                    &&& final(self).ignore == old(self).ignore
                    &&& final(self).ty == old(self).ty
                },
                Err(e) => old(self).nested is Some && *final(self) == *old(self) && e@
                    == GBuildError::Attribute(GAttributeError::Duplicate("nested"@)),
            },
    {
        if self.nested.is_some() {
            return Err(diag::Error::duplicate_attribute("nested"));
        }
        self.nested = Some(Box::new(node));
        Ok(())
    }

    /// Marks the field ignored; rejects a second assignment.
    pub fn set_ignore(&mut self) -> (r: Result<(), diag::Error>)
        ensures
            match r {
                Ok(()) => !old(self).ignore && *final(self) == (FieldSpec {
                    ignore: true,
                    ..*old(self)
                }),
                Err(e) => old(self).ignore && *final(self) == *old(self) && e@
                    == GBuildError::Attribute(GAttributeError::Duplicate("ignore"@)),
            },
    {
        if self.ignore {
            return Err(diag::Error::duplicate_attribute("ignore"));
        }
        self.ignore = true;
        Ok(())
    }

    /// The collection delimiter, or `,` when none is set.
    pub fn delimiter_or_default(&self) -> (r: &str)
        ensures
            r@ == g_field_delim(*self),
    {
        match &self.delimiter {
            Some(d) => d.as_str(),
            None => ",",
        }
    }
}

impl VariantSpec {
    /// A variant with the given identifier and no other settings.
    pub fn new(ident: &str) -> (r: VariantSpec)
        ensures
            r.ident@ == ident@,
            r.rename is None,
            r.aliases@.len() == 0,
            r.no_prefix == false,
            r.no_suffix == false,
            r.is_default == false,
            r.payload is None,
    {
        VariantSpec {
            ident: ident.to_owned(),
            rename: None,
            aliases: Vec::new(),
            no_prefix: false,
            no_suffix: false,
            is_default: false,
            payload: None,
        }
    }

    /// Replaces the variant's match name; rejects an empty name and a
    /// second assignment.
    pub fn set_rename(&mut self, value: &str) -> (r: Result<(), diag::Error>)
        ensures
            match r {
                Ok(()) => {
                    &&& value@.len() > 0
                    &&& old(self).rename is None
                    &&& (match final(self).rename {
                        Some(v) => v@ == value@,
                        None => false,
                    })
                    &&& final(self).ident == old(self).ident
                    &&& final(self).aliases == old(self).aliases
                    &&& final(self).no_prefix == old(self).no_prefix
                    &&& final(self).no_suffix == old(self).no_suffix
                    &&& final(self).is_default == old(self).is_default
                    &&& final(self).payload == old(self).payload
                },
                Err(e) => *final(self) == *old(self) && (if value@.len() == 0 {
                    e@ == GBuildError::Attribute(
                        GAttributeError::Invalid("rename"@, "attribute cannot be empty"@),
                    )
                } else {
                    old(self).rename is Some && e@ == GBuildError::Attribute(
                        GAttributeError::Duplicate("rename"@),
                    )
                }),
            },
    {
        if value.unicode_len() == 0 {
            return Err(diag::Error::invalid_attribute("rename", "attribute cannot be empty"));
        }
        if self.rename.is_some() {
            return Err(diag::Error::duplicate_attribute("rename"));
        }
        self.rename = Some(value.to_owned());
        Ok(())
    }

    /// Adds a match alias; rejects an empty name and an alias given
    /// twice.
    pub fn add_alias(&mut self, value: &str) -> (r: Result<(), diag::Error>)
        ensures
            match r {
                Ok(()) => {
                    &&& value@.len() > 0
                    &&& !strs_view(old(self).aliases@).contains(value@)
                    &&& strs_view(final(self).aliases@) == strs_view(old(self).aliases@).push(
                        value@,
                    )
                    &&& final(self).ident == old(self).ident
                    &&& final(self).rename == old(self).rename
                    &&& final(self).no_prefix == old(self).no_prefix
                    &&& final(self).no_suffix == old(self).no_suffix
                    &&& final(self).is_default == old(self).is_default
                    &&& final(self).payload == old(self).payload
                },
                Err(e) => *final(self) == *old(self) && (if value@.len() == 0 {
                    e@ == GBuildError::Attribute(
                        GAttributeError::Invalid("alias"@, "attribute cannot be empty"@),
                    )
                } else {
                    strs_view(old(self).aliases@).contains(value@) && e@ == GBuildError::Attribute(
                        GAttributeError::Duplicate(value@),
                    )
                }),
            },
    {
        if value.unicode_len() == 0 {
            return Err(diag::Error::invalid_attribute("alias", "attribute cannot be empty"));
        }
        if contains_str(&self.aliases, value) {
            return Err(diag::Error::duplicate_attribute(value));
        }
        let ghost old_aliases = self.aliases@;
        self.aliases.push(value.to_owned());
        proof {
            assert(strs_view(self.aliases@) =~= strs_view(old_aliases).push(value@));
        }
        Ok(())
    }

    /// Leaves the container's prefix off this variant; rejects a second
    /// assignment.
    pub fn disable_prefix(&mut self) -> (r: Result<(), diag::Error>)
        ensures
            match r {
                Ok(()) => !old(self).no_prefix && *final(self) == (VariantSpec {
                    no_prefix: true,
                    ..*old(self)
                }),
                Err(e) => old(self).no_prefix && *final(self) == *old(self) && e@
                    == GBuildError::Attribute(GAttributeError::Duplicate("no_prefix"@)),
            },
    {
        if self.no_prefix {
            return Err(diag::Error::duplicate_attribute("no_prefix"));
        }
        self.no_prefix = true;
        Ok(())
    }

    /// Leaves the container's suffix off this variant; rejects a second
    /// assignment.
    pub fn disable_suffix(&mut self) -> (r: Result<(), diag::Error>)
        ensures
            match r {
                Ok(()) => !old(self).no_suffix && *final(self) == (VariantSpec {
                    no_suffix: true,
                    ..*old(self)
                }),
                Err(e) => old(self).no_suffix && *final(self) == *old(self) && e@
                    == GBuildError::Attribute(GAttributeError::Duplicate("no_suffix"@)),
            },
    {
        if self.no_suffix {
            return Err(diag::Error::duplicate_attribute("no_suffix"));
        }
        self.no_suffix = true;
        Ok(())
    }

    /// Marks this variant as the union's default; rejects a second
    /// assignment.
    pub fn set_default(&mut self) -> (r: Result<(), diag::Error>)
        ensures
            match r {
                Ok(()) => !old(self).is_default && *final(self) == (VariantSpec {
                    is_default: true,
                    ..*old(self)
                }),
                Err(e) => old(self).is_default && *final(self) == *old(self) && e@
                    == GBuildError::Attribute(GAttributeError::Duplicate("default"@)),
            },
    {
        if self.is_default {
            return Err(diag::Error::duplicate_attribute("default"));
        }
        self.is_default = true;
        Ok(())
    }

    /// Attaches the variant's payload schema.
    pub fn set_payload(&mut self, node: SchemaNode)
        ensures
            (match final(self).payload {
                Some(b) => *b == node,
                None => false,
            }),
            final(self).ident == old(self).ident,
            final(self).rename == old(self).rename,
            final(self).aliases == old(self).aliases,
            final(self).no_prefix == old(self).no_prefix,
            final(self).no_suffix == old(self).no_suffix,
            final(self).is_default == old(self).is_default,
    {
        self.payload = Some(Box::new(node));
    }

    /// The names this variant's discriminant may match, in order: the
    /// rename if one is set, else the identifier, then the aliases.
    pub fn get_names(&self) -> (r: Vec<String>)
        ensures
            strs_view(r@) == g_variant_names(*self),
    {
        let mut r: Vec<String> = Vec::new();
        match &self.rename {
            Some(v) => r.push(v.clone()),
            None => r.push(self.ident.clone()),
        }
        let n = self.aliases.len();
        let mut i: usize = 0;
        while i < n
            invariant
                0 <= i <= n,
                n == self.aliases@.len(),
                r@.len() == i + 1,
                r@[0]@ == (match self.rename {
                    Some(v) => v@,
                    None => self.ident@,
                }),
                forall|j: int| 0 <= j < i ==> r@[j + 1]@ == self.aliases@[j]@,
            decreases n - i,
        {
            r.push(self.aliases[i].clone());
            i += 1;
        }
        proof {
            assert(strs_view(r@) =~= g_variant_names(*self));
        }
        r
    }
}

/// The construction-time check of one field: a valid collection
/// delimiter (non-empty and not the reserved pair separator `=`), an
/// argument type wherever a transform is set, and at least one of
/// candidate keys, a default, a nested schema, or the ignore mark.
pub open spec fn g_field_check(f: FieldSpec) -> Result<(), GBuildError> {
    if g_field_delim(f) == "="@ {
        Err(
            GBuildError::Attribute(
                GAttributeError::Invalid("delimiter"@, "delimiter reserved by the macro"@),
            ),
        )
    } else if g_field_delim(f).len() == 0 {
        Err(
            GBuildError::Attribute(
                GAttributeError::Invalid("delimiter"@, "attribute cannot be empty"@),
            ),
        )
    } else if f.parse_fn is Some && f.arg_type is None {
        Err(
            GBuildError::Attribute(
                GAttributeError::Missing("arg_type"@, "required if `parse_fn` is set"@),
            ),
        )
    } else if f.envs@.len() == 0 && f.default is None && f.nested is None && !f.ignore {
        Err(GBuildError::IncompleteField)
    } else {
        Ok(())
    }
}

/// Checks the match names of one variant, from index `j` on, against the
/// resolved names `seen` so far: each name is renamed under the
/// container's policy, and a renamed name already seen is rejected.
/// Returns the extended seen-set.
pub open spec fn g_check_names(
    attrs: ContainerAttributes,
    names: Seq<Seq<char>>,
    no_prefix: bool,
    no_suffix: bool,
    j: int,
    seen: Seq<Seq<char>>,
) -> Result<Seq<Seq<char>>, GBuildError>
    decreases names.len() - j,
{
    if j < 0 || j >= names.len() {
        Ok(seen)
    } else {
        let renamed = g_rename(attrs, names[j], no_prefix, no_suffix);
        if seen.contains(renamed) {
            Err(GBuildError::Attribute(GAttributeError::AlreadyUsed(names[j])))
        } else {
            g_check_names(attrs, names, no_prefix, no_suffix, j + 1, seen.push(renamed))
        }
    }
}

/// Checks the variants of a union from index `i` on: no two variants may
/// resolve a name to the same key, and at most one may be the default.
pub open spec fn g_check_variants(
    attrs: ContainerAttributes,
    variants: Seq<VariantSpec>,
    i: int,
    seen: Seq<Seq<char>>,
    has_default: bool,
) -> Result<(), GBuildError>
    decreases variants.len() - i,
{
    if i < 0 || i >= variants.len() {
        Ok(())
    } else {
        let v = variants[i];
        match g_check_names(attrs, g_variant_names(v), v.no_prefix, v.no_suffix, 0, seen) {
            Err(e) => Err(e),
            Ok(seen2) => if v.is_default && has_default {
                Err(GBuildError::Attribute(GAttributeError::Duplicate("default"@)))
            } else {
                g_check_variants(attrs, variants, i + 1, seen2, has_default || v.is_default)
            },
        }
    }
}

/// The construction-time checks of a schema node, recursively: every
/// field's own check, distinct renamed candidate keys within each field,
/// and its nested schema; and for a union, distinct resolved variant
/// names, a single default variant, and every payload.
pub open spec fn g_node_check(n: SchemaNode) -> Result<(), GBuildError>
    decreases n, 2nat, 0nat,
{
    match n {
        SchemaNode::Record(rs) => g_fields_check(rs.attrs, rs.fields@, 0),
        SchemaNode::Union(us) => match g_check_variants(
            us.attrs,
            us.variants@,
            0,
            Seq::empty(),
            false,
        ) {
            Err(e) => Err(e),
            Ok(()) => g_payloads_check(us.variants@, 0),
        },
    }
}

/// The checks of a record's fields from index `i` on: each field's own
/// check, then no two of its candidate keys renaming to the same lookup
/// key, then its nested schema.
pub open spec fn g_fields_check(
    attrs: ContainerAttributes,
    fields: Seq<FieldSpec>,
    i: int,
) -> Result<(), GBuildError>
    decreases fields, 1nat, fields.len() - i,
{
    if i < 0 || i >= fields.len() {
        Ok(())
    } else {
        let f = fields[i];
        match g_field_check(f) {
            Err(e) => Err(e),
            Ok(()) => match g_check_names(
                attrs,
                strs_view(f.envs@),
                f.no_prefix,
                f.no_suffix,
                0,
                Seq::empty(),
            ) {
                Err(e) => Err(e),
                Ok(_) => match f.nested {
                    Some(sub) => match g_node_check(*sub) {
                        Err(e) => Err(e),
                        Ok(()) => g_fields_check(attrs, fields, i + 1),
                    },
                    None => g_fields_check(attrs, fields, i + 1),
                },
            },
        }
    }
}

/// The checks of a union's variant payloads from index `i` on.
pub open spec fn g_payloads_check(variants: Seq<VariantSpec>, i: int) -> Result<(), GBuildError>
    decreases variants, 1nat, variants.len() - i,
{
    if i < 0 || i >= variants.len() {
        Ok(())
    } else {
        match variants[i].payload {
            Some(sub) => match g_node_check(*sub) {
                Err(e) => Err(e),
                Ok(()) => g_payloads_check(variants, i + 1),
            },
            None => g_payloads_check(variants, i + 1),
        }
    }
}

impl FieldSpec {
    /// Runs this field's construction-time check.
    pub fn check(&self) -> (r: Result<(), diag::Error>)
        ensures
            match r {
                Ok(()) => g_field_check(*self) is Ok,
                Err(e) => g_field_check(*self) == Err::<(), GBuildError>(e@),
            },
    {
        let d = self.delimiter_or_default();
        if crate::strutil::eq_str(d, "=") {
            return Err(
                diag::Error::invalid_attribute("delimiter", "delimiter reserved by the macro"),
            );
        }
        if d.unicode_len() == 0 {
            return Err(diag::Error::invalid_attribute("delimiter", "attribute cannot be empty"));
        }
        if self.parse_fn.is_some() && self.arg_type.is_none() {
            return Err(diag::Error::missing_attribute("arg_type", "required if `parse_fn` is set"));
        }
        if self.envs.len() == 0 && self.default.is_none() && self.nested.is_none() && !self.ignore {
            return Err(diag::Error::IncompleteField);
        }
        Ok(())
    }
}

impl UnionSchema {
    /// The resolved discriminant keys: the container's candidate keys, or
    /// the union's own name when none are set.
    pub fn discriminant_keys(&self) -> (r: Vec<String>)
        ensures
            strs_view(r@) == g_disc_keys(*self),
    {
        if self.attrs.envs.len() == 0 {
            let mut r: Vec<String> = Vec::new();
            r.push(self.attrs.rename(self.name.clone(), false, false));
            proof {
                assert(strs_view(r@) =~= g_disc_keys(*self));
            }
            r
        } else {
            self.attrs.get_envs()
        }
    }
}

fn check_names(
    attrs: &ContainerAttributes,
    names: &Vec<String>,
    no_prefix: bool,
    no_suffix: bool,
    j: usize,
    seen: &mut Vec<String>,
) -> (r: Result<(), diag::Error>)
    requires
        j <= names.len(),
    ensures
        match r {
            Ok(()) => (match g_check_names(
                *attrs,
                strs_view(names@),
                no_prefix,
                no_suffix,
                j as int,
                strs_view(old(seen)@),
            ) {
                Ok(seen2) => strs_view(final(seen)@) == seen2,
                Err(_) => false,
            }),
            Err(e) => g_check_names(
                *attrs,
                strs_view(names@),
                no_prefix,
                no_suffix,
                j as int,
                strs_view(old(seen)@),
            ) == Err::<Seq<Seq<char>>, GBuildError>(e@),
        },
    decreases names.len() - j,
{
    if j == names.len() {
        return Ok(());
    }
    let renamed = attrs.rename(names[j].clone(), no_prefix, no_suffix);
    if contains_str(seen, renamed.as_str()) {
        return Err(diag::Error::already_used(names[j].as_str()));
    }
    let ghost old_seen = seen@;
    seen.push(renamed);
    proof {
        assert(strs_view(seen@) =~= strs_view(old_seen).push(
            g_rename(*attrs, names@[j as int]@, no_prefix, no_suffix),
        ));
    }
    check_names(attrs, names, no_prefix, no_suffix, j + 1, seen)
}

fn check_variants(
    attrs: &ContainerAttributes,
    variants: &Vec<VariantSpec>,
    i: usize,
    seen: &mut Vec<String>,
    has_default: bool,
) -> (r: Result<(), diag::Error>)
    requires
        i <= variants.len(),
    ensures
        match r {
            Ok(()) => g_check_variants(
                *attrs,
                variants@,
                i as int,
                strs_view(old(seen)@),
                has_default,
            ) is Ok,
            Err(e) => g_check_variants(
                *attrs,
                variants@,
                i as int,
                strs_view(old(seen)@),
                has_default,
            ) == Err::<(), GBuildError>(e@),
        },
    decreases variants.len() - i,
{
    if i == variants.len() {
        return Ok(());
    }
    let v = &variants[i];
    let names = v.get_names();
    match check_names(attrs, &names, v.no_prefix, v.no_suffix, 0, seen) {
        Err(e) => Err(e),
        Ok(()) => {
            if v.is_default && has_default {
                Err(diag::Error::duplicate_attribute("default"))
            } else {
                check_variants(attrs, variants, i + 1, seen, has_default || v.is_default)
            }
        },
    }
}

impl SchemaNode {
    /// Runs every construction-time check of this schema, recursively:
    /// each field's own check and nested schema; for a union, distinct
    /// resolved variant names, a single default variant, and each
    /// payload. A schema that passes is ready to resolve.
    pub fn check(&self) -> (r: Result<(), diag::Error>)
        ensures
            match r {
                Ok(()) => g_node_check(*self) is Ok,
                Err(e) => g_node_check(*self) == Err::<(), GBuildError>(e@),
            },
        decreases *self, 2nat, 0nat,
    {
        match self {
            SchemaNode::Record(rs) => check_fields(&rs.attrs, &rs.fields, 0),
            SchemaNode::Union(us) => {
                let mut seen: Vec<String> = Vec::new();
                proof {
                    assert(strs_view(seen@) =~= Seq::<Seq<char>>::empty());
                }
                match check_variants(&us.attrs, &us.variants, 0, &mut seen, false) {
                    Err(e) => Err(e),
                    Ok(()) => check_payloads(&us.variants, 0),
                }
            },
        }
    }
}

fn check_fields(attrs: &ContainerAttributes, fields: &Vec<FieldSpec>, i: usize) -> (r: Result<
    (),
    diag::Error,
>)
    requires
        i <= fields.len(),
    ensures
        match r {
            Ok(()) => g_fields_check(*attrs, fields@, i as int) is Ok,
            Err(e) => g_fields_check(*attrs, fields@, i as int) == Err::<(), GBuildError>(e@),
        },
    decreases fields@, 1nat, fields@.len() - i,
{
    if i == fields.len() {
        return Ok(());
    }
    match fields[i].check() {
        Err(e) => Err(e),
        Ok(()) => {
            let f = &fields[i];
            let mut seen: Vec<String> = Vec::new();
            proof {
                assert(strs_view(seen@) =~= Seq::<Seq<char>>::empty());
            }
            match check_names(attrs, &f.envs, f.no_prefix, f.no_suffix, 0, &mut seen) {
                Err(e) => Err(e),
                Ok(()) => match &f.nested {
                    Some(sub) => match sub.check() {
                        Err(e) => Err(e),
                        Ok(()) => check_fields(attrs, fields, i + 1),
                    },
                    None => check_fields(attrs, fields, i + 1),
                },
            }
        },
    }
}

fn check_payloads(variants: &Vec<VariantSpec>, i: usize) -> (r: Result<(), diag::Error>)
    requires
        i <= variants.len(),
    ensures
        match r {
            Ok(()) => g_payloads_check(variants@, i as int) is Ok,
            Err(e) => g_payloads_check(variants@, i as int) == Err::<(), GBuildError>(e@),
        },
    decreases variants@, 1nat, variants@.len() - i,
{
    if i == variants.len() {
        return Ok(());
    }
    match &variants[i].payload {
        Some(sub) => match sub.check() {
            Err(e) => Err(e),
            Ok(()) => check_payloads(variants, i + 1),
        },
        None => check_payloads(variants, i + 1),
    }
}

} // verus!
