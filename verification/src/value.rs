//! The dynamic value universe of the engine.
//!
//! The engine resolves configuration values whose shape is described by a
//! schema rather than by Rust generics: a field is a scalar, a list, a set,
//! or a map of scalars, optionally wrapped as optional. `Scalar` and
//! `FieldValue` are the executable representations; `GScalar` and `GValue`
//! are their mathematical views, stated over `Seq<char>`.

use vstd::prelude::*;

verus! {

/// The scalar types a field (or a collection element) can have.
#[derive(Debug, Clone, Copy, PartialEq, Eq, Structural)]
pub enum ScalarKind {
    /// A character string, taken verbatim from the source.
    Str,
    /// A signed 64-bit integer, parsed from a decimal string.
    Int,
    /// An unsigned 64-bit integer, parsed from a decimal string.
    UInt,
    /// A boolean, parsed from exactly `true` or `false`.
    Bool,
}

/// The shape of a field's value.
#[derive(Debug, Clone, Copy, PartialEq, Eq, Structural)]
pub enum TargetKind {
    /// A single scalar.
    Scalar(ScalarKind),
    /// An ordered sequence of scalars; duplicates are kept.
    List(ScalarKind),
    /// A collection of scalars in first-occurrence order; duplicates are
    /// dropped.
    SetOf(ScalarKind),
    /// An association of scalar keys to scalar values in first-occurrence
    /// key order; a repeated key overwrites the value in place.
    MapOf(ScalarKind, ScalarKind),
}

/// A field's full type: its shape, and whether an absent source is
/// acceptable (in which case the field resolves to `FieldValue::Null`).
#[derive(Debug, Clone, Copy, PartialEq, Eq, Structural)]
pub struct ValueTy {
    pub kind: TargetKind,
    pub optional: bool,
}

/// A resolved scalar.
#[derive(Debug, Clone, PartialEq, Eq)]
pub enum Scalar {
    Str(String),
    Int(i64),
    UInt(u64),
    Bool(bool),
}

/// Mathematical view of a `Scalar`.
pub enum GScalar {
    Str(Seq<char>),
    Int(i64),
    UInt(u64),
    Bool(bool),
}

impl View for Scalar {
    type V = GScalar;

    open spec fn view(&self) -> GScalar {
        match self {
            Scalar::Str(s) => GScalar::Str(s@),
            Scalar::Int(i) => GScalar::Int(*i),
            Scalar::UInt(u) => GScalar::UInt(*u),
            Scalar::Bool(b) => GScalar::Bool(*b),
        }
    }
}

/// A resolved field value.
#[derive(Debug, Clone, PartialEq, Eq)]
pub enum FieldValue {
    /// An optional field whose sources held no value.
    Null,
    Scalar(Scalar),
    List(Vec<Scalar>),
    SetOf(Vec<Scalar>),
    MapOf(Vec<(Scalar, Scalar)>),
}

/// Mathematical view of a `FieldValue`.
pub enum GValue {
    Null,
    Scalar(GScalar),
    List(Seq<GScalar>),
    SetOf(Seq<GScalar>),
    MapOf(Seq<(GScalar, GScalar)>),
}

/// View of a sequence of scalars.
pub open spec fn scalars_view(v: Seq<Scalar>) -> Seq<GScalar> {
    v.map_values(|s: Scalar| s@)
}

/// View of a sequence of scalar pairs.
pub open spec fn pairs_view(v: Seq<(Scalar, Scalar)>) -> Seq<(GScalar, GScalar)> {
    v.map_values(|p: (Scalar, Scalar)| (p.0@, p.1@))
}

impl View for FieldValue {
    type V = GValue;

    open spec fn view(&self) -> GValue {
        match self {
            FieldValue::Null => GValue::Null,
            FieldValue::Scalar(s) => GValue::Scalar(s@),
            FieldValue::List(v) => GValue::List(scalars_view(v@)),
            FieldValue::SetOf(v) => GValue::SetOf(scalars_view(v@)),
            FieldValue::MapOf(v) => GValue::MapOf(pairs_view(v@)),
        }
    }
}

/// The additive identity of a target kind: the empty string, zero, `false`,
/// or the empty collection.
pub open spec fn g_zero_value(kind: TargetKind) -> GValue {
    match kind {
        TargetKind::Scalar(ScalarKind::Str) => GValue::Scalar(GScalar::Str(Seq::empty())),
        TargetKind::Scalar(ScalarKind::Int) => GValue::Scalar(GScalar::Int(0)),
        TargetKind::Scalar(ScalarKind::UInt) => GValue::Scalar(GScalar::UInt(0)),
        TargetKind::Scalar(ScalarKind::Bool) => GValue::Scalar(GScalar::Bool(false)),
        TargetKind::List(_) => GValue::List(Seq::empty()),
        TargetKind::SetOf(_) => GValue::SetOf(Seq::empty()),
        TargetKind::MapOf(_, _) => GValue::MapOf(Seq::empty()),
    }
}

/// Produces the zero value of a target kind.
pub fn zero_value(kind: &TargetKind) -> (r: FieldValue)
    ensures
        r@ == g_zero_value(*kind),
{
    let r = match kind {
        TargetKind::Scalar(ScalarKind::Str) => FieldValue::Scalar(Scalar::Str(String::new())),
        TargetKind::Scalar(ScalarKind::Int) => FieldValue::Scalar(Scalar::Int(0)),
        TargetKind::Scalar(ScalarKind::UInt) => FieldValue::Scalar(Scalar::UInt(0)),
        TargetKind::Scalar(ScalarKind::Bool) => FieldValue::Scalar(Scalar::Bool(false)),
        TargetKind::List(_) => FieldValue::List(Vec::new()),
        TargetKind::SetOf(_) => FieldValue::SetOf(Vec::new()),
        TargetKind::MapOf(_, _) => FieldValue::MapOf(Vec::new()),
    };
    proof {
        assert(scalars_view(Seq::<Scalar>::empty()) =~= Seq::<GScalar>::empty());
        assert(pairs_view(Seq::<(Scalar, Scalar)>::empty()) =~= Seq::<(GScalar, GScalar)>::empty());
    }
    r
}

/// The conversion of a default literal to a field's type, if one exists:
/// a string, integer, or boolean literal fits the same scalar kind, and
/// an integer literal also fits the other integer kind when its value is
/// in range. No literal fits a collection.
pub open spec fn g_convert_literal(lit: GScalar, ty: ValueTy) -> Option<GValue> {
    match ty.kind {
        TargetKind::Scalar(k) => match lit {
            GScalar::Str(s) => if k is Str {
                Some(GValue::Scalar(GScalar::Str(s)))
            } else {
                None
            },
            GScalar::Int(i) => if k is Int {
                Some(GValue::Scalar(GScalar::Int(i)))
            } else if k is UInt && i >= 0 {
                Some(GValue::Scalar(GScalar::UInt(i as u64)))
            } else {
                None
            },
            GScalar::UInt(u) => if k is UInt {
                Some(GValue::Scalar(GScalar::UInt(u)))
            } else if k is Int && u <= i64::MAX as u64 {
                Some(GValue::Scalar(GScalar::Int(u as i64)))
            } else {
                None
            },
            GScalar::Bool(b) => if k is Bool {
                Some(GValue::Scalar(GScalar::Bool(b)))
            } else {
                None
            },
        },
        _ => None,
    }
}

/// Converts a default literal to a field's type, where a conversion
/// exists.
pub fn convert_literal(lit: &Scalar, ty: &ValueTy) -> (r: Option<FieldValue>)
    ensures
        match r {
            Some(v) => g_convert_literal(lit@, *ty) == Some(v@),
            None => g_convert_literal(lit@, *ty) is None,
        },
{
    match ty.kind {
        TargetKind::Scalar(k) => match lit {
            Scalar::Str(s) => if k == ScalarKind::Str {
                Some(FieldValue::Scalar(Scalar::Str(s.clone())))
            } else {
                None
            },
            Scalar::Int(i) => if k == ScalarKind::Int {
                Some(FieldValue::Scalar(Scalar::Int(*i)))
            } else if k == ScalarKind::UInt && *i >= 0 {
                Some(FieldValue::Scalar(Scalar::UInt(*i as u64)))
            } else {
                None
            },
            Scalar::UInt(u) => if k == ScalarKind::UInt {
                Some(FieldValue::Scalar(Scalar::UInt(*u)))
            } else if k == ScalarKind::Int && *u <= 9223372036854775807u64 {
                Some(FieldValue::Scalar(Scalar::Int(*u as i64)))
            } else {
                None
            },
            Scalar::Bool(b) => if k == ScalarKind::Bool {
                Some(FieldValue::Scalar(Scalar::Bool(*b)))
            } else {
                None
            },
        },
        _ => None,
    }
}

} // verus!
