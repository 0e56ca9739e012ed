//! Laws of the engine: properties that hold of every resolve call,
//! stated over the specification functions the public contracts use.

use vstd::prelude::*;
use crate::errors::{Error, GError};
use crate::hooks::Hooks;
use crate::resolve::{
    g_default_value, g_delims_ok, g_fields_delims_ok, g_payloads_delims_ok, g_resolve_field,
    g_resolve_node, g_field_keys, res_view, Resolved,
};
use crate::schema::{
    g_field_check, g_fields_check, g_intermediate_ty, g_node_check, g_payloads_check,
    ContainerAttributes, DefaultSpec, FieldSpec, SchemaNode, VariantSpec,
};
use crate::source::{g_lookup_from, g_scan_source, GLookup, Source, SourceChain};

verus! {

/// Whether a resolve result is the one the specification assigns to the
/// inputs; `try_resolve` ensures exactly this of its result.
pub open spec fn resolves_to<R: Hooks>(
    node: SchemaNode,
    chain: SourceChain,
    reg: R,
    r: Result<Resolved, Error>,
) -> bool {
    match r {
        Ok(v) => g_resolve_node(node, chain, reg) == Ok::<_, GError>(res_view(v)),
        Err(e) => g_resolve_node(node, chain, reg) == Err::<crate::resolve::GResolved, _>(e@),
    }
}

proof fn lemma_lookup_priority_from(
    sources: Seq<Source>,
    keys: Seq<Seq<char>>,
    v: Seq<char>,
    s: int,
    i: int,
)
    requires
        0 <= i,
        g_lookup_from(sources, keys, i) == GLookup::Found(v, s),
    ensures
        i <= s < sources.len(),
        exists|k: Seq<char>|
            g_scan_source(sources[s].entries@, keys) == Some((k, Some(v))),
        forall|j: int| i <= j < s ==> g_scan_source(#[trigger] sources[j].entries@, keys) is None,
    decreases sources.len() - i,
{
    if i < sources.len() {
        match g_scan_source(sources[i].entries@, keys) {
            Some((k, Some(w))) => {
                assert(g_scan_source(sources[i].entries@, keys) == Some((k, Some(v))));
            },
            Some((k, None)) => {},
            None => {
                lemma_lookup_priority_from(sources, keys, v, s, i + 1);
            },
        }
    }
}

/// Source priority: a value found by the lookup comes from the first
/// source that holds any candidate key at all. Every earlier source
/// holds none of the keys — so an earlier source's hit always wins over
/// a later source's, whatever the rank of the matching keys; sources are
/// never interleaved.
pub proof fn lemma_source_priority(
    chain: SourceChain,
    keys: Seq<Seq<char>>,
    v: Seq<char>,
    s: int,
)
    requires
        g_lookup_from(chain.sources@, keys, 0) == GLookup::Found(v, s),
    ensures
        0 <= s < chain.sources@.len(),
        exists|k: Seq<char>|
            g_scan_source(chain.sources@[s].entries@, keys) == Some((k, Some(v))),
        forall|j: int|
            0 <= j < s ==> g_scan_source(#[trigger] chain.sources@[j].entries@, keys) is None,
{
    lemma_lookup_priority_from(chain.sources@, keys, v, s, 0);
}

/// Default bypass: when none of a field's candidate keys is present in
/// any source, a declared default decides the field by itself — the
/// result is the default's value, in which no transform or validation
/// hook takes part. (A missing optional intermediate instead resolves to
/// the absent value and is piped; it is excluded here.)
pub proof fn lemma_default_bypasses_pipeline<R: Hooks>(
    attrs: ContainerAttributes,
    f: FieldSpec,
    chain: SourceChain,
    reg: R,
    d: DefaultSpec,
)
    requires
        f.envs@.len() > 0,
        f.default == Some(d),
        g_lookup_from(chain.sources@, g_field_keys(attrs, f), 0) is NotFound,
        !g_intermediate_ty(f).optional,
    ensures
        g_resolve_field(attrs, f, chain, reg) == g_default_value(f, d, reg),
{
}

/// Idempotence: two resolve results for the same schema, the same source
/// snapshot, and the same hook registry are structurally equal — both
/// succeed with view-equal values, or both fail with view-equal errors.
pub proof fn lemma_resolution_idempotent<R: Hooks>(
    node: SchemaNode,
    chain: SourceChain,
    reg: R,
    r1: Result<Resolved, Error>,
    r2: Result<Resolved, Error>,
)
    requires
        resolves_to(node, chain, reg, r1),
        resolves_to(node, chain, reg, r2),
    ensures
        match (r1, r2) {
            (Ok(a), Ok(b)) => res_view(a) == res_view(b),
            (Err(a), Err(b)) => a@ == b@,
            _ => false,
        },
{
}

proof fn lemma_checked_fields_delims(attrs: ContainerAttributes, fields: Seq<FieldSpec>, i: int)
    requires
        g_fields_check(attrs, fields, i) is Ok,
    ensures
        g_fields_delims_ok(fields, i),
    decreases fields, 1nat, fields.len() - i,
{
    if 0 <= i < fields.len() {
        assert(g_field_check(fields[i]) is Ok);
        match fields[i].nested {
            Some(sub) => {
                lemma_checked_schema_resolvable(*sub);
                lemma_checked_fields_delims(attrs, fields, i + 1);
            },
            None => {
                lemma_checked_fields_delims(attrs, fields, i + 1);
            },
        }
    }
}

proof fn lemma_checked_payloads_delims(variants: Seq<VariantSpec>, i: int)
    requires
        g_payloads_check(variants, i) is Ok,
    ensures
        g_payloads_delims_ok(variants, i),
    decreases variants, 1nat, variants.len() - i,
{
    if 0 <= i < variants.len() {
        match variants[i].payload {
            Some(sub) => {
                lemma_checked_schema_resolvable(*sub);
                lemma_checked_payloads_delims(variants, i + 1);
            },
            None => {
                lemma_checked_payloads_delims(variants, i + 1);
            },
        }
    }
}

/// A schema that passes its construction-time check satisfies what
/// resolution requires of it: every collection delimiter in the tree is
/// non-empty, so `try_resolve` accepts the schema.
pub proof fn lemma_checked_schema_resolvable(n: SchemaNode)
    requires
        g_node_check(n) is Ok,
    ensures
        g_delims_ok(n),
    decreases n, 2nat, 0nat,
{
    match n {
        SchemaNode::Record(rs) => {
            lemma_checked_fields_delims(rs.attrs, rs.fields@, 0);
        },
        SchemaNode::Union(us) => {
            assert(g_payloads_check(us.variants@, 0) is Ok);
            lemma_checked_payloads_delims(us.variants@, 0);
        },
    }
}

} // verus!
