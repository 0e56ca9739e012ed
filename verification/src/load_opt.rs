//! Loading optional field values.
//!
//! The optional loaders mirror those of `load`, except that a lookup
//! that finds none of the candidate keys yields `Ok(None)` instead of an
//! error. A key that is found but holds an undecodable or unparsable
//! value is still an error.

use vstd::prelude::*;
use crate::errors::{Error, GError, GRetrieveError};
use crate::load::{g_load_map, g_load_scalar, g_load_set, Envloader, FromMap, FromSet};
use crate::source::SourceChain;
use crate::strutil::strs_view;
use crate::value::{pairs_view, scalars_view, GScalar, Scalar, ScalarKind};

verus! {

/// The optional outcome of a loading outcome: a wholly missing value
/// becomes `Ok(None)`, any other error stays, a value becomes `Some`.
pub open spec fn g_opt<T>(r: Result<T, GError>) -> Result<Option<T>, GError> {
    match r {
        Ok(v) => Ok(Some(v)),
        Err(e) => if e is Retrieve && (match e {
            GError::Retrieve(re) => re is NotFound,
            _ => false,
        }) {
            Ok(None)
        } else {
            Err(e)
        },
    }
}

/// Loader of optional field values.
pub struct OptEnvloader {}

/// Loading an optional map field.
pub trait FromMapOpt {
    /// As `FromMap::load_once`, except that missing keys yield `None`.
    fn load_once(
        envs: &Vec<String>,
        delim: &str,
        chain: &SourceChain,
        key_kind: &ScalarKind,
        val_kind: &ScalarKind,
    ) -> (r: Result<Option<Vec<(Scalar, Scalar)>>, Error>)
        requires
            delim@.len() > 0,
        ensures
            match r {
                Ok(Some(m)) => g_opt(
                    g_load_map(strs_view(envs@), delim@, *chain, *key_kind, *val_kind),
                ) == Ok::<_, GError>(Some(pairs_view(m@))),
                Ok(None) => g_opt(
                    g_load_map(strs_view(envs@), delim@, *chain, *key_kind, *val_kind),
                ) == Ok::<Option<Seq<(GScalar, GScalar)>>, GError>(None),
                Err(e) => g_opt(g_load_map(strs_view(envs@), delim@, *chain, *key_kind, *val_kind))
                    == Err::<Option<Seq<(GScalar, GScalar)>>, _>(e@),
            },
    ;
}

/// Loading an optional list or set field.
pub trait FromSetOpt {
    /// As `FromSet::load_once`, except that missing keys yield `None`.
    fn load_once(
        envs: &Vec<String>,
        delim: &str,
        chain: &SourceChain,
        kind: &ScalarKind,
        unique: bool,
    ) -> (r: Result<Option<Vec<Scalar>>, Error>)
        requires
            delim@.len() > 0,
        ensures
            match r {
                Ok(Some(v)) => g_opt(g_load_set(strs_view(envs@), delim@, *chain, *kind, unique))
                    == Ok::<_, GError>(Some(scalars_view(v@))),
                Ok(None) => g_opt(g_load_set(strs_view(envs@), delim@, *chain, *kind, unique))
                    == Ok::<Option<Seq<GScalar>>, GError>(None),
                Err(e) => g_opt(g_load_set(strs_view(envs@), delim@, *chain, *kind, unique))
                    == Err::<Option<Seq<GScalar>>, _>(e@),
            },
    ;
}

impl OptEnvloader {
    /// As `Envloader::load_once`, except that missing keys yield `None`.
    pub fn load_once(
        envs: &Vec<String>,
        _delim: &str,
        chain: &SourceChain,
        kind: &ScalarKind,
    ) -> (r: Result<Option<Scalar>, Error>)
        ensures
            match r {
                Ok(Some(s)) => g_opt(g_load_scalar(strs_view(envs@), *chain, *kind)) == Ok::<
                    _,
                    GError,
                >(Some(s@)),
                Ok(None) => g_opt(g_load_scalar(strs_view(envs@), *chain, *kind)) == Ok::<
                    Option<GScalar>,
                    GError,
                >(None),
                Err(e) => g_opt(g_load_scalar(strs_view(envs@), *chain, *kind)) == Err::<
                    Option<GScalar>,
                    _,
                >(e@),
            },
    {
        match Envloader::load_once(envs, _delim, chain, kind) {
            Ok(s) => Ok(Some(s)),
            Err(e) => {
                if is_not_found(&e) {
                    Ok(None)
                } else {
                    Err(e)
                }
            },
        }
    }
}

/// Whether an error is a wholly-missing-value retrieval failure.
fn is_not_found(e: &Error) -> (r: bool)
    ensures
        r == (e@ is Retrieve && (match e@ {
            GError::Retrieve(re) => re is NotFound,
            _ => false,
        })),
{
    match e {
        Error::RetrieveError(crate::errors::RetrieveError::NotFound { .. }) => true,
        _ => false,
    }
}

impl FromMapOpt for OptEnvloader {
    fn load_once(
        envs: &Vec<String>,
        delim: &str,
        chain: &SourceChain,
        key_kind: &ScalarKind,
        val_kind: &ScalarKind,
    ) -> (r: Result<Option<Vec<(Scalar, Scalar)>>, Error>) {
        match <Envloader as FromMap>::load_once(envs, delim, chain, key_kind, val_kind) {
            Ok(m) => Ok(Some(m)),
            Err(e) => {
                if is_not_found(&e) {
                    Ok(None)
                } else {
                    Err(e)
                }
            },
        }
    }
}

impl FromSetOpt for OptEnvloader {
    fn load_once(
        envs: &Vec<String>,
        delim: &str,
        chain: &SourceChain,
        kind: &ScalarKind,
        unique: bool,
    ) -> (r: Result<Option<Vec<Scalar>>, Error>) {
        match <Envloader as FromSet>::load_once(envs, delim, chain, kind, unique) {
            Ok(v) => Ok(Some(v)),
            Err(e) => {
                if is_not_found(&e) {
                    Ok(None)
                } else {
                    Err(e)
                }
            },
        }
    }
}

} // verus!
