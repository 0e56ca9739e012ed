//! User-supplied function hooks, reached through a registry.
//!
//! A schema names its transform, validation, and supplier functions by
//! numeric identifier; a `Hooks` implementation maps each identifier to
//! user code. Every executable hook is tied to a specification function of
//! the same registry, so a hook is a pure function of its argument: what a
//! transform returns, whether a validator accepts a value and with what
//! cause it rejects one, and what a supplier produces are all determined
//! by the registry value alone. This is what makes resolution repeatable.

use vstd::prelude::*;
use crate::value::{scalars_view, FieldValue, GScalar, GValue, Scalar};

verus! {

/// A registry of user-supplied hooks, addressed by identifier.
///
/// The specification functions say what the hooks of a registry return;
/// their defaults describe the empty registry (identity transforms,
/// always-accepting validators, absent supplies), and a registry whose
/// hooks do more overrides them alongside the executable methods.
pub trait Hooks {
    /// What the transform hook `id` returns for a value.
    open spec fn transform_spec(&self, id: u64, v: GValue) -> GValue {
        v
    }

    /// Whether the validation hook `id` accepts a value.
    open spec fn accepts(&self, id: u64, v: GValue) -> bool {
        true
    }

    /// The cause the validation hook `id` reports for a rejected value.
    open spec fn cause_spec(&self, id: u64, v: GValue) -> Seq<char> {
        Seq::empty()
    }

    /// What the supplier hook `id` produces from its arguments.
    open spec fn supply_spec(&self, id: u64, args: Seq<GScalar>) -> GValue {
        GValue::Null
    }

    /// Runs the transform hook `id` on a value.
    fn transform(&self, id: u64, v: FieldValue) -> (r: FieldValue)
        ensures
            r@ == self.transform_spec(id, v@),
    ;

    /// Runs the validation hook `id` on a value: `Ok` exactly when the
    /// hook accepts it, else the cause of the rejection.
    fn validate(&self, id: u64, v: &FieldValue) -> (r: Result<(), String>)
        ensures
            match r {
                Ok(_) => self.accepts(id, v@),
                Err(c) => !self.accepts(id, v@) && c@ == self.cause_spec(id, v@),
            },
    ;

    /// Runs the supplier hook `id` on the given arguments.
    fn supply(&self, id: u64, args: &Vec<Scalar>) -> (r: FieldValue)
        ensures
            r@ == self.supply_spec(id, scalars_view(args@)),
    ;
}

/// The empty registry, for schemas that use no hooks: every transform is
/// the identity, every validator accepts, every supplier yields the
/// absent value.
pub struct NoHooks {}

impl Hooks for NoHooks {
    fn transform(&self, id: u64, v: FieldValue) -> (r: FieldValue) {
        v
    }

    fn validate(&self, id: u64, v: &FieldValue) -> (r: Result<(), String>) {
        Ok(())
    }

    fn supply(&self, id: u64, args: &Vec<Scalar>) -> (r: FieldValue) {
        FieldValue::Null
    }
}

} // verus!
