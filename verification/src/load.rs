//! Loading one field's value: source-chain lookup composed with the
//! parser.
//!
//! `Envloader` loads required values: a missing key is an error. The
//! optional counterparts live in `load_opt`. Each loader takes the
//! resolved candidate keys, the collection delimiter, the chain, and the
//! declared kinds, and returns the parsed value or the error the lookup
//! or the parse produced.

use vstd::prelude::*;
use crate::errors::{Error, GError, GParseError, GRetrieveError, ParseError, RetrieveError};
use crate::parse::{
    dedup_scalars, g_dedup, g_parse_map, g_parse_scalar, g_parse_set, parse_map, parse_set,
    parse_str,
};
use crate::source::{g_lookup_from, GLookup, SourceChain};
use crate::strutil::{g_trim, strs_view, trim};
use crate::value::{
    pairs_view, scalars_view, FieldValue, GScalar, GValue, Scalar, ScalarKind, TargetKind, ValueTy,
};

verus! {

/// The outcome of loading a scalar: the first hit across the chain,
/// trimmed and parsed under the scalar kind. A found value that does not
/// parse reports itself untrimmed; a missing value reports every key
/// tried.
pub open spec fn g_load_scalar(
    keys: Seq<Seq<char>>,
    chain: SourceChain,
    kind: ScalarKind,
) -> Result<GScalar, GError> {
    match g_lookup_from(chain.sources@, keys, 0) {
        GLookup::Found(v, _) => match g_parse_scalar(kind, g_trim(v)) {
            Some(s) => Ok(s),
            None => Err(GError::Parse(GParseError::UnexpectedValueType(v))),
        },
        GLookup::Invalid(k) => Err(GError::Retrieve(GRetrieveError::InvalidUnicode(k))),
        GLookup::NotFound => Err(GError::Retrieve(GRetrieveError::NotFound(keys))),
    }
}

/// The outcome of loading a map field: the first hit across the chain,
/// parsed as a map on the given delimiter.
pub open spec fn g_load_map(
    keys: Seq<Seq<char>>,
    delim: Seq<char>,
    chain: SourceChain,
    key_kind: ScalarKind,
    val_kind: ScalarKind,
) -> Result<Seq<(GScalar, GScalar)>, GError> {
    match g_lookup_from(chain.sources@, keys, 0) {
        GLookup::Found(v, _) => match g_parse_map(v, delim, key_kind, val_kind) {
            Ok(m) => Ok(m),
            Err(e) => Err(GError::Parse(e)),
        },
        GLookup::Invalid(k) => Err(GError::Retrieve(GRetrieveError::InvalidUnicode(k))),
        GLookup::NotFound => Err(GError::Retrieve(GRetrieveError::NotFound(keys))),
    }
}

/// The outcome of loading a list or set field: the first hit across the
/// chain, parsed as elements on the given delimiter; a set (`unique`)
/// drops duplicates, keeping first occurrences.
pub open spec fn g_load_set(
    keys: Seq<Seq<char>>,
    delim: Seq<char>,
    chain: SourceChain,
    kind: ScalarKind,
    unique: bool,
) -> Result<Seq<GScalar>, GError> {
    match g_lookup_from(chain.sources@, keys, 0) {
        GLookup::Found(v, _) => match g_parse_set(v, delim, kind) {
            Ok(elems) => Ok(
                if unique {
                    g_dedup(elems, 0, Seq::empty())
                } else {
                    elems
                },
            ),
            Err(e) => Err(GError::Parse(e)),
        },
        GLookup::Invalid(k) => Err(GError::Retrieve(GRetrieveError::InvalidUnicode(k))),
        GLookup::NotFound => Err(GError::Retrieve(GRetrieveError::NotFound(keys))),
    }
}

/// Loader of required field values.
pub struct Envloader {}

/// Loading a required map field.
pub trait FromMap {
    /// Looks the candidate keys up across the chain and parses the first
    /// hit as a map of the given key and value kinds.
    fn load_once(
        envs: &Vec<String>,
        delim: &str,
        chain: &SourceChain,
        key_kind: &ScalarKind,
        val_kind: &ScalarKind,
    ) -> (r: Result<Vec<(Scalar, Scalar)>, Error>)
        requires
            delim@.len() > 0,
        ensures
            match r {
                Ok(m) => g_load_map(strs_view(envs@), delim@, *chain, *key_kind, *val_kind)
                    == Ok::<_, GError>(pairs_view(m@)),
                Err(e) => g_load_map(strs_view(envs@), delim@, *chain, *key_kind, *val_kind)
                    == Err::<Seq<(GScalar, GScalar)>, _>(e@),
            },
    ;
}

/// Loading a required list or set field.
pub trait FromSet {
    /// Looks the candidate keys up across the chain and parses the first
    /// hit as elements of the given kind; `unique` drops duplicates.
    fn load_once(
        envs: &Vec<String>,
        delim: &str,
        chain: &SourceChain,
        kind: &ScalarKind,
        unique: bool,
    ) -> (r: Result<Vec<Scalar>, Error>)
        requires
            delim@.len() > 0,
        ensures
            match r {
                Ok(v) => g_load_set(strs_view(envs@), delim@, *chain, *kind, unique) == Ok::<
                    _,
                    GError,
                >(scalars_view(v@)),
                Err(e) => g_load_set(strs_view(envs@), delim@, *chain, *kind, unique) == Err::<
                    Seq<GScalar>,
                    _,
                >(e@),
            },
    ;
}

impl Envloader {
    /// Looks the candidate keys up across the chain and parses the first
    /// hit, trimmed, as a scalar of the given kind. The delimiter plays
    /// no part for a scalar and is accepted for uniformity with the
    /// collection loaders.
    pub fn load_once(
        envs: &Vec<String>,
        _delim: &str,
        chain: &SourceChain,
        kind: &ScalarKind,
    ) -> (r: Result<Scalar, Error>)
        ensures
            match r {
                Ok(s) => g_load_scalar(strs_view(envs@), *chain, *kind) == Ok::<_, GError>(s@),
                Err(e) => g_load_scalar(strs_view(envs@), *chain, *kind) == Err::<GScalar, _>(e@),
            },
    {
        match chain.lookup(envs) {
            Ok((v, _)) => {
                let t = trim(v.as_str());
                match parse_str(t, kind) {
                    Ok(s) => Ok(s),
                    Err(_) => Err(Error::ParseError(ParseError::UnexpectedValueType { value: v })),
                }
            },
            Err(e) => Err(Error::RetrieveError(e)),
        }
    }
}

impl FromMap for Envloader {
    fn load_once(
        envs: &Vec<String>,
        delim: &str,
        chain: &SourceChain,
        key_kind: &ScalarKind,
        val_kind: &ScalarKind,
    ) -> (r: Result<Vec<(Scalar, Scalar)>, Error>) {
        match chain.lookup(envs) {
            Ok((v, _)) => match parse_map(v.as_str(), delim, key_kind, val_kind) {
                Ok(m) => Ok(m),
                Err(e) => Err(Error::ParseError(e)),
            },
            Err(e) => Err(Error::RetrieveError(e)),
        }
    }
}

impl FromSet for Envloader {
    fn load_once(
        envs: &Vec<String>,
        delim: &str,
        chain: &SourceChain,
        kind: &ScalarKind,
        unique: bool,
    ) -> (r: Result<Vec<Scalar>, Error>) {
        match chain.lookup(envs) {
            Ok((v, _)) => match parse_set(v.as_str(), delim, kind) {
                Ok(elems) => Ok(
                    if unique {
                        dedup_scalars(elems)
                    } else {
                        elems
                    },
                ),
                Err(e) => Err(Error::ParseError(e)),
            },
            Err(e) => Err(Error::RetrieveError(e)),
        }
    }
}

/// The outcome of loading one field's value under its full type: a
/// missing optional is the absent value; otherwise the target kind picks
/// the scalar, list, set, or map loader.
pub open spec fn g_load_value(
    keys: Seq<Seq<char>>,
    delim: Seq<char>,
    chain: SourceChain,
    ty: ValueTy,
) -> Result<GValue, GError> {
    if ty.optional && g_lookup_from(chain.sources@, keys, 0) is NotFound {
        Ok(GValue::Null)
    } else {
        match ty.kind {
            TargetKind::Scalar(k) => match g_load_scalar(keys, chain, k) {
                Ok(s) => Ok(GValue::Scalar(s)),
                Err(e) => Err(e),
            },
            TargetKind::List(k) => match g_load_set(keys, delim, chain, k, false) {
                Ok(v) => Ok(GValue::List(v)),
                Err(e) => Err(e),
            },
            TargetKind::SetOf(k) => match g_load_set(keys, delim, chain, k, true) {
                Ok(v) => Ok(GValue::SetOf(v)),
                Err(e) => Err(e),
            },
            TargetKind::MapOf(kk, vk) => match g_load_map(keys, delim, chain, kk, vk) {
                Ok(m) => Ok(GValue::MapOf(m)),
                Err(e) => Err(e),
            },
        }
    }
}

/// Loads one field's value under its full type: a missing optional
/// yields the absent value without an error; a found value that cannot
/// be parsed is an error even for an optional field.
pub fn load_value(envs: &Vec<String>, delim: &str, chain: &SourceChain, ty: &ValueTy) -> (r:
    Result<FieldValue, Error>)
    requires
        delim@.len() > 0,
    ensures
        match r {
            Ok(v) => g_load_value(strs_view(envs@), delim@, *chain, *ty) == Ok::<_, GError>(v@),
            Err(e) => g_load_value(strs_view(envs@), delim@, *chain, *ty) == Err::<GValue, _>(e@),
        },
{
    let res: Result<FieldValue, Error> = match ty.kind {
        TargetKind::Scalar(k) => match Envloader::load_once(envs, delim, chain, &k) {
            Ok(s) => Ok(FieldValue::Scalar(s)),
            Err(e) => Err(e),
        },
        TargetKind::List(k) => match <Envloader as FromSet>::load_once(
            envs,
            delim,
            chain,
            &k,
            false,
        ) {
            Ok(v) => Ok(FieldValue::List(v)),
            Err(e) => Err(e),
        },
        TargetKind::SetOf(k) => match <Envloader as FromSet>::load_once(
            envs,
            delim,
            chain,
            &k,
            true,
        ) {
            Ok(v) => Ok(FieldValue::SetOf(v)),
            Err(e) => Err(e),
        },
        TargetKind::MapOf(kk, vk) => match <Envloader as FromMap>::load_once(
            envs,
            delim,
            chain,
            &kk,
            &vk,
        ) {
            Ok(m) => Ok(FieldValue::MapOf(m)),
            Err(e) => Err(e),
        },
    };
    match res {
        Ok(v) => Ok(v),
        Err(e) => {
            let not_found = match &e {
                Error::RetrieveError(RetrieveError::NotFound { .. }) => true,
                _ => false,
            };
            if ty.optional && not_found {
                Ok(FieldValue::Null)
            } else {
                Err(e)
            }
        },
    }
}

} // verus!
