//! The required and optional loaders: lookup composed with parsing, with
//! and without fallback sources.

use envoke::load::{Envloader, FromMap, FromSet};
use envoke::load_opt::{FromMapOpt, FromSetOpt, OptEnvloader};
use envoke::errors::Error;
use envoke::source::{Source, SourceChain, SourceEntry};
use envoke::value::Scalar;
use envoke::value::ScalarKind;

fn source(pairs: &[(&str, &str)]) -> Source {
    Source {
        entries: pairs
            .iter()
            .map(|(k, v)| SourceEntry { key: k.to_string(), value: Some(v.to_string()) })
            .collect(),
    }
}

fn keys(names: &[&str]) -> Vec<String> {
    names.iter().map(|s| s.to_string()).collect()
}

#[test]
fn scalar_loader_uses_fallback_source() {
    let chain = SourceChain::new(vec![source(&[]), source(&[("PORT", "8080")])]);
    let got = Envloader::load_once(&keys(&["PORT"]), ",", &chain, &ScalarKind::UInt);
    assert_eq!(got, Ok(Scalar::UInt(8080)));

    let missing = Envloader::load_once(&keys(&["HOST"]), ",", &chain, &ScalarKind::Str);
    assert!(matches!(missing, Err(Error::RetrieveError(_))));
}

#[test]
fn map_loader_parses_first_hit() {
    let chain = SourceChain::new(vec![source(&[("M", "a=1,b=2")])]);
    let got = <Envloader as FromMap>::load_once(
        &keys(&["M"]),
        ",",
        &chain,
        &ScalarKind::Str,
        &ScalarKind::Int,
    );
    assert_eq!(
        got,
        Ok(vec![
            (Scalar::Str("a".to_string()), Scalar::Int(1)),
            (Scalar::Str("b".to_string()), Scalar::Int(2)),
        ])
    );
}

#[test]
fn set_loader_respects_uniqueness_flag() {
    let chain = SourceChain::new(vec![source(&[("S", "x,y,x")])]);
    let as_list = <Envloader as FromSet>::load_once(
        &keys(&["S"]),
        ",",
        &chain,
        &ScalarKind::Str,
        false,
    )
    .unwrap();
    assert_eq!(as_list.len(), 3);
    let as_set = <Envloader as FromSet>::load_once(
        &keys(&["S"]),
        ",",
        &chain,
        &ScalarKind::Str,
        true,
    )
    .unwrap();
    assert_eq!(
        as_set,
        vec![Scalar::Str("x".to_string()), Scalar::Str("y".to_string())]
    );
}

#[test]
fn optional_loaders_turn_missing_into_none() {
    let chain = SourceChain::new(vec![source(&[])]);
    let got = OptEnvloader::load_once(&keys(&["N"]), ",", &chain, &ScalarKind::Int);
    assert_eq!(got, Ok(None));
    let got = <OptEnvloader as FromMapOpt>::load_once(
        &keys(&["M"]),
        ",",
        &chain,
        &ScalarKind::Str,
        &ScalarKind::Int,
    );
    assert_eq!(got, Ok(None));
    let got = <OptEnvloader as FromSetOpt>::load_once(
        &keys(&["S"]),
        ",",
        &chain,
        &ScalarKind::Str,
        true,
    );
    assert_eq!(got, Ok(None));
}

#[test]
fn optional_loaders_keep_present_values_and_errors() {
    let chain = SourceChain::new(vec![source(&[("N", "5"), ("B", "bad")])]);
    let got = OptEnvloader::load_once(&keys(&["N"]), ",", &chain, &ScalarKind::Int);
    assert_eq!(got, Ok(Some(Scalar::Int(5))));

    // A present but unparsable value is still an error for an optional
    // field.
    let got = OptEnvloader::load_once(&keys(&["B"]), ",", &chain, &ScalarKind::Int);
    assert!(matches!(got, Err(Error::ParseError(_))));

    // A present but undecodable value is an error, not a missing value.
    let chain = SourceChain::new(vec![Source {
        entries: vec![SourceEntry { key: "U".to_string(), value: None }],
    }]);
    let got = OptEnvloader::load_once(&keys(&["U"]), ",", &chain, &ScalarKind::Str);
    assert!(matches!(got, Err(Error::RetrieveError(_))));
}

#[test]
fn unparsable_error_carries_untrimmed_value() {
    let chain = SourceChain::new(vec![source(&[("N", " bad ")])]);
    let got = Envloader::load_once(&keys(&["N"]), ",", &chain, &ScalarKind::UInt);
    match got {
        Err(Error::ParseError(envoke::errors::ParseError::UnexpectedValueType { value })) => {
            assert_eq!(value, " bad ");
        }
        other => panic!("expected UnexpectedValueType, got {other:?}"),
    }
}
