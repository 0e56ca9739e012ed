//! The resolution engine: field resolver, record assembler, and
//! tagged-union resolver.
//!
//! A resolve call walks a schema node against a source chain and a hook
//! registry and produces a `Resolved` value, or the first error. For one
//! field: the candidate keys are composed by the naming policy and looked
//! up; a found value is parsed into the intermediate type and passed
//! through the validate/transform/validate pipeline; a missing optional
//! resolves to the absent value (the pipeline still runs on it); any
//! retrieval or parse failure falls back to the field's default when one
//! is declared — a validation or transform failure does not, and
//! a default value never runs through the pipeline.

use vstd::prelude::*;
use crate::errors::{
    EnumError, Error, GError, GRetrieveError, GValidationError, RetrieveError, ValidationError,
};
use crate::hooks::Hooks;
use crate::load::{g_load_value, load_value};
use crate::schema::{
    g_disc_keys, g_field_delim, g_intermediate_ty, g_rename, g_variant_names,
    ContainerAttributes, DefaultSpec, FieldSpec, SchemaNode, VariantSpec,
};
use crate::source::{g_lookup_from, GLookup, SourceChain};
use crate::strutil::{eq_str, g_trim, strs_view, trim};
use crate::value::{
    g_convert_literal, g_zero_value, scalars_view, convert_literal, zero_value, FieldValue, GValue,
    Scalar,
};

verus! {

/// A resolved configuration value: a plain field value, an assembled
/// record (field name and resolved entry, in declaration order, ignored
/// fields absent), or a selected union variant (its identifier, and its
/// resolved payload unless it is a unit variant).
#[derive(Debug, PartialEq, Eq)]
pub enum Resolved {
    Value(FieldValue),
    Record(Vec<(String, Resolved)>),
    Tagged(String, Option<Box<Resolved>>),
}

/// Mathematical view of a `Resolved` value. A tagged payload is a
/// sequence of zero (unit variant) or one element.
pub enum GResolved {
    Value(GValue),
    Record(Seq<(Seq<char>, GResolved)>),
    Tagged(Seq<char>, Seq<GResolved>),
}

/// The view of a `Resolved` value.
pub open spec fn res_view(r: Resolved) -> GResolved
    decreases r,
{
    match r {
        Resolved::Value(v) => GResolved::Value(v@),
        Resolved::Record(entries) => GResolved::Record(entries_view(entries@)),
        Resolved::Tagged(n, p) => GResolved::Tagged(
            n@,
            match p {
                Some(b) => seq![res_view(*b)],
                None => Seq::empty(),
            },
        ),
    }
}

/// View of a sequence of record entries.
pub open spec fn entries_view(s: Seq<(String, Resolved)>) -> Seq<(Seq<char>, GResolved)>
    decreases s,
{
    if s.len() == 0 {
        Seq::empty()
    } else {
        entries_view(s.subrange(0, s.len() - 1)).push(
            (s[s.len() - 1].0@, res_view(s[s.len() - 1].1)),
        )
    }
}

impl View for Resolved {
    type V = GResolved;

    open spec fn view(&self) -> GResolved {
        res_view(*self)
    }
}

/// The final lookup keys of a field: each candidate key under the
/// container's naming policy, honoring the field's suppression flags.
pub open spec fn g_field_keys(attrs: ContainerAttributes, f: FieldSpec) -> Seq<Seq<char>> {
    strs_view(f.envs@).map_values(|e: Seq<char>| g_rename(attrs, e, f.no_prefix, f.no_suffix))
}

/// The transform/validate pipeline over a retrieved, parsed value: the
/// pre-parse validator on the intermediate value, then the transform,
/// then the post-parse validator on the final value, each step
/// short-circuiting with a `ValidationError` naming the field.
pub open spec fn g_pipeline<R: Hooks>(f: FieldSpec, v: GValue, reg: R) -> Result<GValue, GError> {
    if f.validate_before is Some && !reg.accepts(f.validate_before.unwrap(), v) {
        Err(
            GError::Validation(
                GValidationError::Failed {
                    field: f.name@,
                    cause: reg.cause_spec(f.validate_before.unwrap(), v),
                },
            ),
        )
    } else {
        let v2 = match f.parse_fn {
            Some(id) => reg.transform_spec(id, v),
            None => v,
        };
        if f.validate_after is Some && !reg.accepts(f.validate_after.unwrap(), v2) {
            Err(
                GError::Validation(
                    GValidationError::Failed {
                        field: f.name@,
                        cause: reg.cause_spec(f.validate_after.unwrap(), v2),
                    },
                ),
            )
        } else {
            Ok(v2)
        }
    }
}

/// The value a field's default produces, never passed through the
/// pipeline: the type's zero value (the absent value for an optional
/// field), a literal converted to the field's type, or the supplier the
/// registry names.
pub open spec fn g_default_value<R: Hooks>(f: FieldSpec, d: DefaultSpec, reg: R) -> Result<
    GValue,
    GError,
> {
    match d {
        DefaultSpec::ZeroValue => Ok(
            if f.ty.optional {
                GValue::Null
            } else {
                g_zero_value(f.ty.kind)
            },
        ),
        DefaultSpec::Literal(lit) => match g_convert_literal(lit@, f.ty) {
            Some(v) => Ok(v),
            None => Err(GError::Convert { field: f.name@, ty: f.ty }),
        },
        DefaultSpec::ValueRef(id) => Ok(reg.supply_spec(id, Seq::empty())),
        DefaultSpec::Supplier(id, args) => Ok(reg.supply_spec(id, scalars_view(args@))),
    }
}

/// The outcome of resolving one plain field. A field without candidate
/// keys goes straight to its default. Otherwise the keys are looked up
/// and the found value parsed into the intermediate type: success runs
/// the pipeline; a retrieval or parse failure falls back to the default
/// when one is declared, else it propagates.
pub open spec fn g_resolve_field<R: Hooks>(
    attrs: ContainerAttributes,
    f: FieldSpec,
    chain: SourceChain,
    reg: R,
) -> Result<GValue, GError> {
    if f.envs@.len() == 0 {
        match f.default {
            Some(d) => g_default_value(f, d, reg),
            None => Err(GError::Retrieve(GRetrieveError::NotFound(Seq::empty()))),
        }
    } else {
        match g_load_value(g_field_keys(attrs, f), g_field_delim(f), chain, g_intermediate_ty(f)) {
            Ok(v) => g_pipeline(f, v, reg),
            Err(e) => match f.default {
                Some(d) => g_default_value(f, d, reg),
                None => Err(e),
            },
        }
    }
}

/// Whether the discriminant string matches one of a variant's resolved
/// names.
pub open spec fn g_variant_matches(
    attrs: ContainerAttributes,
    v: VariantSpec,
    disc: Seq<char>,
) -> bool {
    exists|j: int|
        0 <= j < g_variant_names(v).len() && #[trigger] g_rename(
            attrs,
            g_variant_names(v)[j],
            v.no_prefix,
            v.no_suffix,
        ) == disc
}

/// The first variant from index `i` on whose resolved names include the
/// discriminant.
pub open spec fn g_match_variant(
    attrs: ContainerAttributes,
    variants: Seq<VariantSpec>,
    disc: Seq<char>,
    i: int,
) -> Option<int>
    decreases variants.len() - i,
{
    if i < 0 || i >= variants.len() {
        None
    } else if g_variant_matches(attrs, variants[i], disc) {
        Some(i)
    } else {
        g_match_variant(attrs, variants, disc, i + 1)
    }
}

/// The first variant from index `i` on that is marked as the default.
pub open spec fn g_default_variant(variants: Seq<VariantSpec>, i: int) -> Option<int>
    decreases variants.len() - i,
{
    if i < 0 || i >= variants.len() {
        None
    } else if variants[i].is_default {
        Some(i)
    } else {
        g_default_variant(variants, i + 1)
    }
}

/// Every field's collection delimiter in a schema is non-empty. The
/// construction-time check guarantees this; resolution requires it.
pub open spec fn g_delims_ok(n: SchemaNode) -> bool
    decreases n, 2nat, 0nat,
{
    match n {
        SchemaNode::Record(rs) => g_fields_delims_ok(rs.fields@, 0),
        SchemaNode::Union(us) => g_payloads_delims_ok(us.variants@, 0),
    }
}

/// Non-empty delimiters for the fields from index `i` on, and their
/// nested schemas.
pub open spec fn g_fields_delims_ok(fields: Seq<FieldSpec>, i: int) -> bool
    decreases fields, 1nat, fields.len() - i,
{
    if i < 0 || i >= fields.len() {
        true
    } else {
        g_field_delim(fields[i]).len() > 0 && (match fields[i].nested {
            Some(sub) => g_delims_ok(*sub),
            None => true,
        }) && g_fields_delims_ok(fields, i + 1)
    }
}

/// Non-empty delimiters for the variant payloads from index `i` on.
pub open spec fn g_payloads_delims_ok(variants: Seq<VariantSpec>, i: int) -> bool
    decreases variants, 1nat, variants.len() - i,
{
    if i < 0 || i >= variants.len() {
        true
    } else {
        (match variants[i].payload {
            Some(sub) => g_delims_ok(*sub),
            None => true,
        }) && g_payloads_delims_ok(variants, i + 1)
    }
}

/// The outcome of resolving a schema node. A record resolves its fields
/// in declaration order, failing fast; a union resolves its discriminant
/// and selects the first matching variant, or its default variant when
/// the discriminant is missing or matches nothing.
pub open spec fn g_resolve_node<R: Hooks>(n: SchemaNode, chain: SourceChain, reg: R) -> Result<
    GResolved,
    GError,
>
    decreases n, 2nat, 0nat,
{
    match n {
        SchemaNode::Record(rs) => match g_resolve_fields(
            rs.attrs,
            rs.fields@,
            chain,
            reg,
            0,
            Seq::empty(),
        ) {
            Ok(entries) => Ok(GResolved::Record(entries)),
            Err(e) => Err(e),
        },
        SchemaNode::Union(us) => {
            let keys = g_disc_keys(us);
            match g_lookup_from(chain.sources@, keys, 0) {
                GLookup::Found(raw, _) => {
                    let disc = g_trim(raw);
                    match g_match_variant(us.attrs, us.variants@, disc, 0) {
                        Some(vi) => g_resolve_variant(us.variants@, vi, chain, reg),
                        None => match g_default_variant(us.variants@, 0) {
                            Some(di) => g_resolve_variant(us.variants@, di, chain, reg),
                            None => Err(GError::Enum(EnumError::NotFound)),
                        },
                    }
                },
                GLookup::Invalid(k) => Err(GError::Retrieve(GRetrieveError::InvalidUnicode(k))),
                GLookup::NotFound => match g_default_variant(us.variants@, 0) {
                    Some(di) => g_resolve_variant(us.variants@, di, chain, reg),
                    None => Err(GError::Retrieve(GRetrieveError::NotFound(keys))),
                },
            }
        },
    }
}

/// The record entries for the fields from index `i` on, appended to the
/// accumulated entries: an ignored field contributes nothing, a nested
/// field embeds its sub-schema's resolution, and a plain field resolves
/// through the field resolver. The first failure aborts the whole
/// record.
pub open spec fn g_resolve_fields<R: Hooks>(
    attrs: ContainerAttributes,
    fields: Seq<FieldSpec>,
    chain: SourceChain,
    reg: R,
    i: int,
    acc: Seq<(Seq<char>, GResolved)>,
) -> Result<Seq<(Seq<char>, GResolved)>, GError>
    decreases fields, 1nat, fields.len() - i,
{
    if i < 0 || i >= fields.len() {
        Ok(acc)
    } else {
        let f = fields[i];
        if f.ignore {
            g_resolve_fields(attrs, fields, chain, reg, i + 1, acc)
        } else {
            match f.nested {
                Some(sub) => match g_resolve_node(*sub, chain, reg) {
                    Ok(v) => g_resolve_fields(
                        attrs,
                        fields,
                        chain,
                        reg,
                        i + 1,
                        acc.push((f.name@, v)),
                    ),
                    Err(e) => Err(e),
                },
                None => match g_resolve_field(attrs, f, chain, reg) {
                    Ok(v) => g_resolve_fields(
                        attrs,
                        fields,
                        chain,
                        reg,
                        i + 1,
                        acc.push((f.name@, GResolved::Value(v))),
                    ),
                    Err(e) => Err(e),
                },
            }
        }
    }
}

/// The resolution of the selected variant: a unit variant is its
/// identifier alone; a payload variant embeds its payload's resolution.
pub open spec fn g_resolve_variant<R: Hooks>(
    variants: Seq<VariantSpec>,
    i: int,
    chain: SourceChain,
    reg: R,
) -> Result<GResolved, GError>
    decreases variants, 1nat, 0nat,
{
    if i < 0 || i >= variants.len() {
        Err(GError::Enum(EnumError::NotFound))
    } else {
        match variants[i].payload {
            Some(sub) => match g_resolve_node(*sub, chain, reg) {
                Ok(p) => Ok(GResolved::Tagged(variants[i].ident@, seq![p])),
                Err(e) => Err(e),
            },
            None => Ok(GResolved::Tagged(variants[i].ident@, Seq::empty())),
        }
    }
}

/// Composes the final lookup keys of a field.
pub fn field_keys(attrs: &ContainerAttributes, f: &FieldSpec) -> (r: Vec<String>)
    ensures
        strs_view(r@) == g_field_keys(*attrs, *f),
{
    let mut r: Vec<String> = Vec::new();
    let n = f.envs.len();
    let mut i: usize = 0;
    while i < n
        invariant
            0 <= i <= n,
            n == f.envs@.len(),
            r@.len() == i as int,
            forall|j: int|
                0 <= j < i ==> r@[j]@ == g_rename(*attrs, f.envs@[j]@, f.no_prefix, f.no_suffix),
        decreases n - i,
    {
        r.push(attrs.rename(f.envs[i].clone(), f.no_prefix, f.no_suffix));
        i += 1;
    }
    proof {
        assert(strs_view(r@) =~= g_field_keys(*attrs, *f));
    }
    r
}

/// The type the raw string is parsed into: the transform's argument type
/// when a transform is set, else the field's own type.
fn intermediate_ty(f: &FieldSpec) -> (r: crate::value::ValueTy)
    ensures
        r == g_intermediate_ty(*f),
{
    match (f.parse_fn, &f.arg_type) {
        (Some(_), Some(t)) => *t,
        _ => f.ty,
    }
}

fn run_pipeline<R: Hooks>(f: &FieldSpec, v: FieldValue, reg: &R) -> (r: Result<FieldValue, Error>)
    ensures
        match r {
            Ok(w) => g_pipeline(*f, v@, *reg) == Ok::<_, GError>(w@),
            Err(e) => g_pipeline(*f, v@, *reg) == Err::<GValue, _>(e@),
        },
{
    if let Some(id) = f.validate_before {
        match reg.validate(id, &v) {
            Err(cause) => {
                return Err(
                    Error::ValidationError(
                        ValidationError::Failed { field: f.name.clone(), cause },
                    ),
                );
            },
            Ok(_) => {},
        }
    }
    let v2 = match f.parse_fn {
        Some(id) => reg.transform(id, v),
        None => v,
    };
    if let Some(id) = f.validate_after {
        match reg.validate(id, &v2) {
            Err(cause) => {
                return Err(
                    Error::ValidationError(
                        ValidationError::Failed { field: f.name.clone(), cause },
                    ),
                );
            },
            Ok(_) => {},
        }
    }
    Ok(v2)
}

fn resolve_default<R: Hooks>(f: &FieldSpec, d: &DefaultSpec, reg: &R) -> (r: Result<
    FieldValue,
    Error,
>)
    ensures
        match r {
            Ok(v) => g_default_value(*f, *d, *reg) == Ok::<_, GError>(v@),
            Err(e) => g_default_value(*f, *d, *reg) == Err::<GValue, _>(e@),
        },
{
    match d {
        DefaultSpec::ZeroValue => Ok(
            if f.ty.optional {
                FieldValue::Null
            } else {
                zero_value(&f.ty.kind)
            },
        ),
        DefaultSpec::Literal(lit) => match convert_literal(lit, &f.ty) {
            Some(v) => Ok(v),
            None => Err(Error::ConvertError { field: f.name.clone(), ty: f.ty }),
        },
        DefaultSpec::ValueRef(id) => {
            let args: Vec<Scalar> = Vec::new();
            proof {
                assert(scalars_view(args@) =~= Seq::<crate::value::GScalar>::empty());
            }
            Ok(reg.supply(*id, &args))
        },
        DefaultSpec::Supplier(id, args) => Ok(reg.supply(*id, args)),
    }
}

/// Resolves one plain field: naming, lookup, parse, pipeline, and
/// default fallback, as `g_resolve_field` states.
pub fn resolve_field<R: Hooks>(
    attrs: &ContainerAttributes,
    f: &FieldSpec,
    chain: &SourceChain,
    reg: &R,
) -> (r: Result<FieldValue, Error>)
    requires
        g_field_delim(*f).len() > 0,
    ensures
        match r {
            Ok(v) => g_resolve_field(*attrs, *f, *chain, *reg) == Ok::<_, GError>(v@),
            Err(e) => g_resolve_field(*attrs, *f, *chain, *reg) == Err::<GValue, _>(e@),
        },
{
    if f.envs.len() == 0 {
        match &f.default {
            Some(d) => resolve_default(f, d, reg),
            None => {
                let keys: Vec<String> = Vec::new();
                proof {
                    assert(strs_view(keys@) =~= Seq::<Seq<char>>::empty());
                }
                Err(Error::RetrieveError(RetrieveError::NotFound { keys }))
            },
        }
    } else {
        let keys = field_keys(attrs, f);
        let ity = intermediate_ty(f);
        match load_value(&keys, f.delimiter_or_default(), chain, &ity) {
            Ok(v) => run_pipeline(f, v, reg),
            Err(e) => match &f.default {
                Some(d) => resolve_default(f, d, reg),
                None => Err(e),
            },
        }
    }
}

fn variant_matches(attrs: &ContainerAttributes, v: &VariantSpec, disc: &str) -> (r: bool)
    ensures
        r == g_variant_matches(*attrs, *v, disc@),
{
    let names = v.get_names();
    let n = names.len();
    let mut j: usize = 0;
    while j < n
        invariant
            0 <= j <= n,
            n == names@.len(),
            strs_view(names@) == g_variant_names(*v),
            forall|k: int|
                0 <= k < j ==> g_rename(*attrs, g_variant_names(*v)[k], v.no_prefix, v.no_suffix)
                    != disc@,
        decreases n - j,
    {
        let renamed = attrs.rename(names[j].clone(), v.no_prefix, v.no_suffix);
        if eq_str(renamed.as_str(), disc) {
            proof {
                assert(g_variant_names(*v)[j as int] == names@[j as int]@);
                assert(g_rename(*attrs, g_variant_names(*v)[j as int], v.no_prefix, v.no_suffix)
                    == disc@);
            }
            return true;
        }
        proof {
            assert(g_variant_names(*v)[j as int] == names@[j as int]@);
        }
        j += 1;
    }
    false
}

fn match_variant(
    attrs: &ContainerAttributes,
    variants: &Vec<VariantSpec>,
    disc: &str,
    i: usize,
) -> (r: Option<usize>)
    requires
        i <= variants.len(),
    ensures
        match r {
            Some(vi) => g_match_variant(*attrs, variants@, disc@, i as int) == Some(vi as int)
                && vi < variants.len(),
            None => g_match_variant(*attrs, variants@, disc@, i as int) is None,
        },
    decreases variants.len() - i,
{
    if i == variants.len() {
        None
    } else if variant_matches(attrs, &variants[i], disc) {
        Some(i)
    } else {
        match_variant(attrs, variants, disc, i + 1)
    }
}

fn default_variant(variants: &Vec<VariantSpec>, i: usize) -> (r: Option<usize>)
    requires
        i <= variants.len(),
    ensures
        match r {
            Some(di) => g_default_variant(variants@, i as int) == Some(di as int) && di
                < variants.len(),
            None => g_default_variant(variants@, i as int) is None,
        },
    decreases variants.len() - i,
{
    if i == variants.len() {
        None
    } else if variants[i].is_default {
        Some(i)
    } else {
        default_variant(variants, i + 1)
    }
}

proof fn lemma_payload_delims(variants: Seq<VariantSpec>, j: int, i: int)
    requires
        0 <= j <= i < variants.len(),
        g_payloads_delims_ok(variants, j),
    ensures
        match variants[i].payload {
            Some(sub) => g_delims_ok(*sub),
            None => true,
        },
    decreases i - j,
{
    if j < i {
        lemma_payload_delims(variants, j + 1, i);
    }
}

fn resolve_variant<R: Hooks>(
    variants: &Vec<VariantSpec>,
    i: usize,
    chain: &SourceChain,
    reg: &R,
) -> (r: Result<Resolved, Error>)
    requires
        i < variants.len(),
        match variants@[i as int].payload {
            Some(sub) => g_delims_ok(*sub),
            None => true,
        },
    ensures
        match r {
            Ok(v) => g_resolve_variant(variants@, i as int, *chain, *reg) == Ok::<_, GError>(v@),
            Err(e) => g_resolve_variant(variants@, i as int, *chain, *reg) == Err::<GResolved, _>(
                e@,
            ),
        },
    decreases variants@, 1nat, 0nat,
{
    match &variants[i].payload {
        Some(sub) => match try_resolve(sub, chain, reg) {
            Ok(p) => Ok(Resolved::Tagged(variants[i].ident.clone(), Some(Box::new(p)))),
            Err(e) => Err(e),
        },
        None => Ok(Resolved::Tagged(variants[i].ident.clone(), None)),
    }
}

fn resolve_fields<R: Hooks>(
    attrs: &ContainerAttributes,
    fields: &Vec<FieldSpec>,
    chain: &SourceChain,
    reg: &R,
    i: usize,
    acc: Vec<(String, Resolved)>,
) -> (r: Result<Vec<(String, Resolved)>, Error>)
    requires
        i <= fields.len(),
        g_fields_delims_ok(fields@, i as int),
    ensures
        match r {
            Ok(entries) => g_resolve_fields(
                *attrs,
                fields@,
                *chain,
                *reg,
                i as int,
                entries_view(acc@),
            ) == Ok::<_, GError>(entries_view(entries@)),
            Err(e) => g_resolve_fields(*attrs, fields@, *chain, *reg, i as int, entries_view(acc@))
                == Err::<Seq<(Seq<char>, GResolved)>, _>(e@),
        },
    decreases fields@, 1nat, fields@.len() - i,
{
    if i == fields.len() {
        return Ok(acc);
    }
    let f = &fields[i];
    if f.ignore {
        resolve_fields(attrs, fields, chain, reg, i + 1, acc)
    } else {
        match &f.nested {
            Some(sub) => match try_resolve(sub, chain, reg) {
                Ok(v) => {
                    let ghost prev = entries_view(acc@);
                    let ghost gv = v@;
                    let mut acc2 = acc;
                    acc2.push((f.name.clone(), v));
                    proof {
                        assert(acc2@.subrange(0, acc2@.len() - 1) =~= acc@);
                        assert(entries_view(acc2@) =~= prev.push((f.name@, gv)));
                    }
                    resolve_fields(attrs, fields, chain, reg, i + 1, acc2)
                },
                Err(e) => Err(e),
            },
            None => match resolve_field(attrs, f, chain, reg) {
                Ok(v) => {
                    let ghost prev = entries_view(acc@);
                    let ghost gv = v@;
                    let entry = (f.name.clone(), Resolved::Value(v));
                    let ghost gpair = entry;
                    let mut acc2 = acc;
                    acc2.push(entry);
                    proof {
                        assert(acc2@ == acc@.push(gpair));
                        assert(res_view(gpair.1) == GResolved::Value(gv));
                        assert(acc2@.subrange(0, acc2@.len() - 1) =~= acc@);
                        assert(entries_view(acc2@) =~= prev.push(
                            (f.name@, GResolved::Value(gv)),
                        ));
                    }
                    resolve_fields(attrs, fields, chain, reg, i + 1, acc2)
                },
                Err(e) => Err(e),
            },
        }
    }
}

/// Resolves a whole schema node against a source chain and a hook
/// registry: the fallible entry point of the engine. The outcome is
/// exactly `g_resolve_node` of the inputs — in particular, two calls on
/// the same schema, chain, and registry yield structurally equal
/// results.
pub fn try_resolve<R: Hooks>(node: &SchemaNode, chain: &SourceChain, reg: &R) -> (r: Result<
    Resolved,
    Error,
>)
    requires
        g_delims_ok(*node),
    ensures
        match r {
            Ok(v) => g_resolve_node(*node, *chain, *reg) == Ok::<_, GError>(v@),
            Err(e) => g_resolve_node(*node, *chain, *reg) == Err::<GResolved, _>(e@),
        },
    decreases *node, 2nat, 0nat,
{
    match node {
        SchemaNode::Record(rs) => {
            let acc: Vec<(String, Resolved)> = Vec::new();
            proof {
                assert(entries_view(acc@) =~= Seq::<(Seq<char>, GResolved)>::empty());
            }
            match resolve_fields(&rs.attrs, &rs.fields, chain, reg, 0, acc) {
                Ok(entries) => Ok(Resolved::Record(entries)),
                Err(e) => Err(e),
            }
        },
        SchemaNode::Union(us) => {
            let keys = us.discriminant_keys();
            match chain.lookup(&keys) {
                Ok((raw, _)) => {
                    let disc = trim(raw.as_str());
                    match match_variant(&us.attrs, &us.variants, disc, 0) {
                        Some(vi) => {
                            proof {
                                lemma_payload_delims(us.variants@, 0, vi as int);
                            }
                            resolve_variant(&us.variants, vi, chain, reg)
                        },
                        None => match default_variant(&us.variants, 0) {
                            Some(di) => {
                                proof {
                                    lemma_payload_delims(us.variants@, 0, di as int);
                                }
                                resolve_variant(&us.variants, di, chain, reg)
                            },
                            None => Err(Error::EnumError(EnumError::NotFound)),
                        },
                    }
                },
                Err(e) => {
                    let not_found = match &e {
                        RetrieveError::NotFound { .. } => true,
                        _ => false,
                    };
                    if not_found {
                        match default_variant(&us.variants, 0) {
                            Some(di) => {
                                proof {
                                    lemma_payload_delims(us.variants@, 0, di as int);
                                }
                                resolve_variant(&us.variants, di, chain, reg)
                            },
                            None => Err(Error::RetrieveError(e)),
                        }
                    } else {
                        Err(Error::RetrieveError(e))
                    }
                },
            }
        },
    }
}

} // verus!
