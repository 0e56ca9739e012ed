//! Scenario tests for the engine's stated properties, and edge cases of
//! naming, parsing, sources, dotenv texts, and schema-build checks.

use envoke::diag;
use envoke::dotenv::parse_dotenv;
use envoke::errors::{Error, ParseError};
use envoke::hooks::{Hooks, NoHooks};
use envoke::load::Envloader;
use envoke::parse::{dedup_scalars, parse_map, parse_set, parse_str};
use envoke::resolve::{resolve_field, try_resolve, Resolved};
use envoke::casing::Case;
use envoke::schema::{
    ContainerAttributes, DefaultSpec, FieldSpec, RecordSchema, SchemaNode, UnionSchema,
    VariantSpec,
};
use envoke::source::{Source, SourceChain, SourceEntry};
use envoke::value::{FieldValue, Scalar, ScalarKind, TargetKind, ValueTy};

fn source(pairs: &[(&str, &str)]) -> Source {
    Source {
        entries: pairs
            .iter()
            .map(|(k, v)| SourceEntry { key: k.to_string(), value: Some(v.to_string()) })
            .collect(),
    }
}

fn env_chain(pairs: &[(&str, &str)]) -> SourceChain {
    SourceChain::new(vec![source(pairs)])
}

fn scalar_ty(kind: ScalarKind) -> ValueTy {
    ValueTy { kind: TargetKind::Scalar(kind), optional: false }
}

fn val<'a>(r: &'a Resolved, name: &str) -> &'a FieldValue {
    match r {
        Resolved::Record(entries) => {
            match &entries.iter().find(|e| e.0 == name).expect("field absent").1 {
                Resolved::Value(v) => v,
                _ => panic!("not a plain field"),
            }
        }
        _ => panic!("not a record"),
    }
}

/// Hooks that reject every value and shift every transform, to show they
/// are bypassed; plus the arithmetic hooks of the pipeline scenario.
struct PropHooks;

const REJECT_ALL: u64 = 1;
const SHIFT_ONE: u64 = 2;
const POSITIVE: u64 = 3;
const ADD_TEN: u64 = 4;
const ABOVE_TEN: u64 = 5;

impl Hooks for PropHooks {
    fn transform(&self, id: u64, v: FieldValue) -> FieldValue {
        match (id, v) {
            (SHIFT_ONE, FieldValue::Scalar(Scalar::UInt(x))) => {
                FieldValue::Scalar(Scalar::UInt(x + 1))
            }
            (ADD_TEN, FieldValue::Scalar(Scalar::UInt(x))) => {
                FieldValue::Scalar(Scalar::UInt(x + 10))
            }
            (_, v) => v,
        }
    }

    fn validate(&self, id: u64, v: &FieldValue) -> Result<(), String> {
        let num = match v {
            FieldValue::Scalar(Scalar::UInt(x)) => Some(*x),
            _ => None,
        };
        match id {
            REJECT_ALL => Err("rejected".to_string()),
            POSITIVE => match num {
                Some(x) if x > 0 => Ok(()),
                _ => Err("must be positive".to_string()),
            },
            ABOVE_TEN => match num {
                Some(x) if x > 10 => Ok(()),
                _ => Err("must be above ten".to_string()),
            },
            _ => Ok(()),
        }
    }

    fn supply(&self, _id: u64, _args: &Vec<Scalar>) -> FieldValue {
        FieldValue::Null
    }
}

#[test]
fn naming_composition_resolves_key() {
    let mut attrs = ContainerAttributes::new();
    attrs.set_prefix("APP").unwrap();
    attrs.set_suffix("V1").unwrap();
    attrs.set_delimiter("_").unwrap();
    attrs.set_rename_all(Case::ScreamingSnake).unwrap();
    assert_eq!(attrs.rename("timeout".to_string(), false, false), "APP_TIMEOUT_V1");

    let mut f = FieldSpec::new("timeout", scalar_ty(ScalarKind::UInt));
    f.add_env("timeout").unwrap();
    let node = SchemaNode::Record(RecordSchema {
        name: "Config".to_string(),
        attrs,
        fields: vec![f],
    });
    let chain = env_chain(&[("APP_TIMEOUT_V1", "30")]);
    let t = try_resolve(&node, &chain, &NoHooks {}).unwrap();
    assert_eq!(*val(&t, "timeout"), FieldValue::Scalar(Scalar::UInt(30)));
}

#[test]
fn source_priority_environment_wins() {
    // Env holds only B, fallback holds only A; the earlier source wins
    // even though A ranks before B in the candidate list.
    let chain = SourceChain::new(vec![source(&[("B", "2")]), source(&[("A", "1")])]);
    let keys = vec!["A".to_string(), "B".to_string()];
    let (value, rank) = chain.lookup(&keys).unwrap();
    assert_eq!(value, "2");
    assert_eq!(rank, 0);
    let got = Envloader::load_once(&keys, ",", &chain, &ScalarKind::Int).unwrap();
    assert_eq!(got, Scalar::Int(2));
}

#[test]
fn map_parsing_pairs_and_failures() {
    let m = parse_map("key1=1,key2=2", ",", &ScalarKind::Str, &ScalarKind::Int).unwrap();
    assert_eq!(
        m,
        vec![
            (Scalar::Str("key1".to_string()), Scalar::Int(1)),
            (Scalar::Str("key2".to_string()), Scalar::Int(2)),
        ]
    );

    let bad = parse_map("key1,key2=2", ",", &ScalarKind::Str, &ScalarKind::Int);
    assert_eq!(bad, Err(ParseError::MissingValue));

    // The reserved pair separator is rejected at schema-build time.
    let mut f = FieldSpec::new("m", scalar_ty(ScalarKind::Str));
    let err = f.set_delimiter("=");
    assert!(err.is_err());
    let direct = FieldSpec {
        delimiter: Some("=".to_string()),
        ..FieldSpec::new("m", scalar_ty(ScalarKind::Str))
    };
    assert!(direct.check().is_err());
}

#[test]
fn pipeline_runs_in_order() {
    let mut f = FieldSpec::new("amount", scalar_ty(ScalarKind::UInt));
    f.add_env("AMOUNT").unwrap();
    f.set_validate_before(POSITIVE).unwrap();
    f.set_parse_fn(ADD_TEN).unwrap();
    f.set_arg_type(scalar_ty(ScalarKind::UInt)).unwrap();
    f.set_validate_after(ABOVE_TEN).unwrap();
    let attrs = ContainerAttributes::new();
    let chain = env_chain(&[("AMOUNT", "5")]);
    let r = resolve_field(&attrs, &f, &chain, &PropHooks).unwrap();
    assert_eq!(r, FieldValue::Scalar(Scalar::UInt(15)));
}

#[test]
fn default_bypasses_pipeline() {
    // The hooks would reject and shift any piped value; the default
    // literal reaches the field untouched and unvalidated.
    let mut f = FieldSpec::new("timeout", scalar_ty(ScalarKind::UInt));
    f.add_env("TIMEOUT").unwrap();
    f.set_default(DefaultSpec::Literal(Scalar::Int(30))).unwrap();
    f.set_parse_fn(SHIFT_ONE).unwrap();
    f.set_arg_type(scalar_ty(ScalarKind::UInt)).unwrap();
    f.set_validate_before(REJECT_ALL).unwrap();
    f.set_validate_after(REJECT_ALL).unwrap();
    let attrs = ContainerAttributes::new();
    let r = resolve_field(&attrs, &f, &env_chain(&[]), &PropHooks).unwrap();
    assert_eq!(r, FieldValue::Scalar(Scalar::UInt(30)));
}

fn union_schema() -> SchemaNode {
    let mut attrs = ContainerAttributes::new();
    attrs.set_rename_all(Case::Upper).unwrap();
    let mut port = FieldSpec::new("port", scalar_ty(ScalarKind::UInt));
    port.add_env("PORT").unwrap();
    let payload = SchemaNode::Record(RecordSchema {
        name: "Production".to_string(),
        attrs: ContainerAttributes::new(),
        fields: vec![port],
    });
    let mut v1 = VariantSpec::new("Production");
    v1.set_payload(payload);
    let mut v2 = VariantSpec::new("Staging");
    v2.set_default().unwrap();
    SchemaNode::Union(UnionSchema {
        name: "Mode".to_string(),
        attrs,
        variants: vec![v1, v2],
    })
}

#[test]
fn union_resolution_matches_and_defaults() {
    let node = union_schema();

    let chain = env_chain(&[("MODE", "PRODUCTION"), ("PORT", "80")]);
    let r = try_resolve(&node, &chain, &NoHooks {}).unwrap();
    match &r {
        Resolved::Tagged(name, payload) => {
            assert_eq!(name, "Production");
            assert_eq!(*val(payload.as_ref().unwrap(), "port"), FieldValue::Scalar(Scalar::UInt(80)));
        }
        _ => panic!("expected a tagged value"),
    }

    let chain = env_chain(&[("MODE", "UNKNOWN")]);
    let r = try_resolve(&node, &chain, &NoHooks {}).unwrap();
    assert_eq!(r, Resolved::Tagged("Staging".to_string(), None));
}

#[test]
fn resolution_is_idempotent() {
    let node = union_schema();
    let chain = env_chain(&[("MODE", "PRODUCTION"), ("PORT", "80")]);
    let r1 = try_resolve(&node, &chain, &NoHooks {});
    let r2 = try_resolve(&node, &chain, &NoHooks {});
    assert_eq!(r1, r2);

    let mut f = FieldSpec::new("n", scalar_ty(ScalarKind::Int));
    f.add_env("N").unwrap();
    let rec = SchemaNode::Record(RecordSchema {
        name: "Config".to_string(),
        attrs: ContainerAttributes::new(),
        fields: vec![f],
    });
    let chain = env_chain(&[("N", "7")]);
    let a = try_resolve(&rec, &chain, &NoHooks {});
    let b = try_resolve(&rec, &chain, &NoHooks {});
    assert_eq!(a, b);
}

#[test]
fn scalar_parsing_signs_and_bounds() {
    assert_eq!(parse_str("42", &ScalarKind::UInt), Ok(Scalar::UInt(42)));
    assert_eq!(parse_str("+42", &ScalarKind::UInt), Ok(Scalar::UInt(42)));
    assert!(parse_str("+", &ScalarKind::UInt).is_err());
    assert!(parse_str("++5", &ScalarKind::UInt).is_err());
    assert!(parse_str("-+5", &ScalarKind::Int).is_err());
    assert_eq!(parse_str("+5", &ScalarKind::Int), Ok(Scalar::Int(5)));
    assert_eq!(parse_str("-5", &ScalarKind::Int), Ok(Scalar::Int(-5)));
    assert_eq!(
        parse_str("-9223372036854775808", &ScalarKind::Int),
        Ok(Scalar::Int(i64::MIN))
    );
    assert_eq!(
        parse_str("18446744073709551615", &ScalarKind::UInt),
        Ok(Scalar::UInt(u64::MAX))
    );
    assert!(parse_str("18446744073709551616", &ScalarKind::UInt).is_err());
    assert!(parse_str("9223372036854775808", &ScalarKind::Int).is_err());
    assert!(parse_str("", &ScalarKind::UInt).is_err());
    assert!(parse_str("12a", &ScalarKind::UInt).is_err());
    assert_eq!(parse_str("true", &ScalarKind::Bool), Ok(Scalar::Bool(true)));
    assert_eq!(parse_str("false", &ScalarKind::Bool), Ok(Scalar::Bool(false)));
    assert!(parse_str("TRUE", &ScalarKind::Bool).is_err());
    assert_eq!(
        parse_str("hello", &ScalarKind::Str),
        Ok(Scalar::Str("hello".to_string()))
    );
}

#[test]
fn map_parsing_edge_cases() {
    assert_eq!(
        parse_map("=1", ",", &ScalarKind::Str, &ScalarKind::Int),
        Err(ParseError::MissingKey)
    );
    assert_eq!(
        parse_map("k=", ",", &ScalarKind::Str, &ScalarKind::Int),
        Err(ParseError::MissingValue)
    );
    assert_eq!(
        parse_map("a=x", ",", &ScalarKind::Int, &ScalarKind::Str),
        Err(ParseError::UnexpectedKeyType { key: "a".to_string() })
    );
    assert_eq!(
        parse_map("a=x", ",", &ScalarKind::Str, &ScalarKind::Int),
        Err(ParseError::UnexpectedValueType { value: "x".to_string() })
    );
    // A repeated key overwrites its value in place.
    assert_eq!(
        parse_map("k=1,k=2", ",", &ScalarKind::Str, &ScalarKind::Int).unwrap(),
        vec![(Scalar::Str("k".to_string()), Scalar::Int(2))]
    );
    // The value side may itself contain the pair separator.
    assert_eq!(
        parse_map("k=a=b", ",", &ScalarKind::Str, &ScalarKind::Str).unwrap(),
        vec![(Scalar::Str("k".to_string()), Scalar::Str("a=b".to_string()))]
    );
}

#[test]
fn set_parsing_order_and_duplicates() {
    let elems = parse_set("a, b ,a", ",", &ScalarKind::Str).unwrap();
    assert_eq!(
        elems,
        vec![
            Scalar::Str("a".to_string()),
            Scalar::Str("b".to_string()),
            Scalar::Str("a".to_string()),
        ]
    );
    let unique = dedup_scalars(elems);
    assert_eq!(
        unique,
        vec![Scalar::Str("a".to_string()), Scalar::Str("b".to_string())]
    );
    assert_eq!(parse_set("a,,b", ",", &ScalarKind::Str), Err(ParseError::MissingValue));
    assert_eq!(parse_set("", ",", &ScalarKind::Str), Err(ParseError::MissingValue));
}

#[test]
fn lookup_reports_all_keys_and_bad_unicode() {
    let chain = env_chain(&[]);
    let keys = vec!["A".to_string(), "B".to_string()];
    match chain.lookup(&keys) {
        Err(envoke::errors::RetrieveError::NotFound { keys: tried }) => {
            assert_eq!(tried, vec!["A".to_string(), "B".to_string()]);
        }
        other => panic!("expected NotFound, got {other:?}"),
    }

    let chain = SourceChain::new(vec![Source {
        entries: vec![SourceEntry { key: "A".to_string(), value: None }],
    }]);
    match chain.lookup(&vec!["A".to_string()]) {
        Err(envoke::errors::RetrieveError::InvalidUnicode { key }) => assert_eq!(key, "A"),
        other => panic!("expected InvalidUnicode, got {other:?}"),
    }
}

#[test]
fn union_without_default_fails() {
    let mut attrs = ContainerAttributes::new();
    attrs.set_rename_all(Case::Upper).unwrap();
    let v = VariantSpec::new("Production");
    let node = SchemaNode::Union(UnionSchema {
        name: "Mode".to_string(),
        attrs,
        variants: vec![v],
    });
    let r = try_resolve(&node, &env_chain(&[("MODE", "UNKNOWN")]), &NoHooks {});
    assert!(matches!(r, Err(Error::EnumError(_))));
    let r = try_resolve(&node, &env_chain(&[]), &NoHooks {});
    assert!(matches!(r, Err(Error::RetrieveError(_))));
}

#[test]
fn schema_checks_reject_bad_declarations() {
    // A field with no way to obtain a value.
    let f = FieldSpec::new("f", scalar_ty(ScalarKind::Str));
    assert_eq!(f.check(), Err(diag::Error::IncompleteField));

    // A transform without its argument type.
    let mut f = FieldSpec::new("f", scalar_ty(ScalarKind::Str));
    f.add_env("F").unwrap();
    f.set_parse_fn(7).unwrap();
    assert!(matches!(f.check(), Err(diag::Error::Attribute(_))));

    // Colliding resolved variant names across a union.
    let mut attrs = ContainerAttributes::new();
    attrs.set_rename_all(Case::Upper).unwrap();
    let v1 = VariantSpec::new("Production");
    let mut v2 = VariantSpec::new("Staging");
    v2.add_alias("production").unwrap();
    let node = SchemaNode::Union(UnionSchema {
        name: "Mode".to_string(),
        attrs,
        variants: vec![v1, v2],
    });
    assert!(matches!(node.check(), Err(diag::Error::Attribute(_))));

    // Two default variants.
    let mut v1 = VariantSpec::new("A");
    v1.set_default().unwrap();
    let mut v2 = VariantSpec::new("B");
    v2.set_default().unwrap();
    let node = SchemaNode::Union(UnionSchema {
        name: "Mode".to_string(),
        attrs: ContainerAttributes::new(),
        variants: vec![v1, v2],
    });
    assert!(matches!(node.check(), Err(diag::Error::Attribute(_))));

    // Two candidate keys of one field renaming to the same lookup key.
    let mut attrs = ContainerAttributes::new();
    attrs.set_rename_all(Case::Upper).unwrap();
    let mut f = FieldSpec::new("f", scalar_ty(ScalarKind::Str));
    f.add_env("port").unwrap();
    f.add_env("PORT").unwrap();
    let node = SchemaNode::Record(RecordSchema {
        name: "C".to_string(),
        attrs,
        fields: vec![f],
    });
    assert!(matches!(node.check(), Err(diag::Error::Attribute(_))));

    // A well-formed record passes.
    let mut ok = FieldSpec::new("f", scalar_ty(ScalarKind::Str));
    ok.add_env("F").unwrap();
    let node = SchemaNode::Record(RecordSchema {
        name: "C".to_string(),
        attrs: ContainerAttributes::new(),
        fields: vec![ok],
    });
    assert_eq!(node.check(), Ok(()));
}

#[test]
fn duplicate_attributes_are_rejected() {
    let mut attrs = ContainerAttributes::new();
    attrs.set_prefix("A").unwrap();
    assert!(attrs.set_prefix("B").is_err());
    attrs.add_env("X").unwrap();
    assert!(attrs.add_env("X").is_err());
    assert!(attrs.add_env("").is_err());

    let mut f = FieldSpec::new("f", scalar_ty(ScalarKind::Str));
    f.set_default(DefaultSpec::ZeroValue).unwrap();
    assert!(f.set_default(DefaultSpec::ZeroValue).is_err());
    f.set_delimiter(";").unwrap();
    assert!(f.set_delimiter(",").is_err());

    let mut v = VariantSpec::new("V");
    v.set_rename("W").unwrap();
    assert!(v.set_rename("X").is_err());
    assert!(v.add_alias("").is_err());
    v.add_alias("Y").unwrap();
    assert!(v.add_alias("Y").is_err());
}

#[test]
fn case_conversions() {
    assert_eq!(Case::Lower.rename("EXAMPLE_ENV"), "example_env");
    assert_eq!(Case::Upper.rename("example_env"), "EXAMPLE_ENV");
    assert_eq!(Case::Pascal.rename("some_field_name"), "SomeFieldName");
    assert_eq!(Case::Camel.rename("some_field_name"), "someFieldName");
    assert_eq!(Case::Snake.rename("someFieldName"), "some_field_name");
    assert_eq!(Case::ScreamingSnake.rename("some_field_name"), "SOME_FIELD_NAME");
    assert_eq!(Case::Kebab.rename("some_field_name"), "some-field-name");
    assert_eq!(Case::ScreamingKebab.rename("some_field_name"), "SOME-FIELD-NAME");
    assert_eq!(Case::ScreamingSnake.rename("field1"), "FIELD_1");
    assert_eq!(Case::ScreamingSnake.rename("APP_timeout_V1"), "APP_TIMEOUT_V1");
    assert_eq!(Case::parse("SCREAMING_SNAKE_CASE"), Some(Case::ScreamingSnake));
    assert_eq!(Case::parse("lower"), Some(Case::Lower));
    assert_eq!(Case::parse("nonsense-case"), None);
}

#[test]
fn closest_match_suggestions() {
    let variants: Vec<String> = vec![
        "prefix".to_string(),
        "suffix".to_string(),
        "delimiter".to_string(),
        "rename_all".to_string(),
    ];
    assert_eq!(
        envoke::diag::find_closest_match("prefx", &variants),
        Some("prefix".to_string())
    );
    assert_eq!(
        envoke::diag::find_closest_match("a_very_different_name", &variants),
        None
    );
    let e = diag::Error::unexpected_attribute("prefx", Some("prefix".to_string()));
    assert!(matches!(e, diag::Error::Attribute(_)));
}

#[test]
fn dotenv_text_becomes_fallback_source() {
    let text = "# comment\n\nKEY1=value1\n  KEY2 = \"quoted value\" \nNOEQ\nKEY3=a=b\n";
    let src = parse_dotenv(text);
    assert_eq!(src.entries.len(), 3);
    assert_eq!(src.entries[0].key, "KEY1");
    assert_eq!(src.entries[0].value, Some("value1".to_string()));
    assert_eq!(src.entries[1].key, "KEY2");
    assert_eq!(src.entries[1].value, Some("quoted value".to_string()));
    assert_eq!(src.entries[2].key, "KEY3");
    assert_eq!(src.entries[2].value, Some("a=b".to_string()));

    // The environment still wins over the dotenv fallback.
    let chain = SourceChain::new(vec![source(&[("KEY1", "from-env")]), src]);
    let mut f1 = FieldSpec::new("key1", scalar_ty(ScalarKind::Str));
    f1.add_env("KEY1").unwrap();
    let mut f2 = FieldSpec::new("key2", scalar_ty(ScalarKind::Str));
    f2.add_env("KEY2").unwrap();
    let node = SchemaNode::Record(RecordSchema {
        name: "C".to_string(),
        attrs: ContainerAttributes::new(),
        fields: vec![f1, f2],
    });
    let t = try_resolve(&node, &chain, &NoHooks {}).unwrap();
    assert_eq!(*val(&t, "key1"), FieldValue::Scalar(Scalar::Str("from-env".to_string())));
    assert_eq!(*val(&t, "key2"), FieldValue::Scalar(Scalar::Str("quoted value".to_string())));
}

#[test]
fn values_are_trimmed_before_scalar_parse() {
    let chain = env_chain(&[("N", "  42  ")]);
    let got = Envloader::load_once(&vec!["N".to_string()], ",", &chain, &ScalarKind::UInt);
    assert_eq!(got, Ok(Scalar::UInt(42)));

    // Trimming covers the whole Unicode white-space set, as str::trim
    // does: a no-break space around the digits is removed too.
    let chain = env_chain(&[("N", " 42\u{A0}")]);
    let got = Envloader::load_once(&vec!["N".to_string()], ",", &chain, &ScalarKind::UInt);
    assert_eq!(got, Ok(Scalar::UInt(42)));
}

#[test]
fn dotenv_last_line_wins_for_repeated_keys() {
    let src = parse_dotenv("KEY=first\nOTHER=x\nKEY=last\n");
    assert_eq!(src.entries.len(), 2);
    assert_eq!(src.entries[0].key, "KEY");
    assert_eq!(src.entries[0].value, Some("last".to_string()));
    assert_eq!(src.entries[1].key, "OTHER");
    assert_eq!(src.entries[1].value, Some("x".to_string()));
}

#[test]
fn found_but_unparsable_falls_to_default_only() {
    let mut f = FieldSpec::new("n", scalar_ty(ScalarKind::UInt));
    f.add_env("N").unwrap();
    let attrs = ContainerAttributes::new();
    let chain = env_chain(&[("N", "not-a-number")]);

    // Without a default, the parse failure propagates.
    let r = resolve_field(&attrs, &f, &chain, &NoHooks {});
    assert!(matches!(r, Err(Error::ParseError(_))));

    // With a default, the parse failure is absorbed.
    f.set_default(DefaultSpec::Literal(Scalar::Int(7))).unwrap();
    let r = resolve_field(&attrs, &f, &chain, &NoHooks {}).unwrap();
    assert_eq!(r, FieldValue::Scalar(Scalar::UInt(7)));
}

#[test]
fn literal_defaults_convert_or_fail() {
    // An integer literal fits an unsigned field when non-negative.
    let mut f = FieldSpec::new("n", scalar_ty(ScalarKind::UInt));
    f.set_default(DefaultSpec::Literal(Scalar::Int(-1))).unwrap();
    let attrs = ContainerAttributes::new();
    let r = resolve_field(&attrs, &f, &env_chain(&[]), &NoHooks {});
    assert!(matches!(r, Err(Error::ConvertError { .. })));

    let mut f = FieldSpec::new("s", scalar_ty(ScalarKind::Str));
    f.set_default(DefaultSpec::Literal(Scalar::Str("x".to_string()))).unwrap();
    let r = resolve_field(&attrs, &f, &env_chain(&[]), &NoHooks {}).unwrap();
    assert_eq!(r, FieldValue::Scalar(Scalar::Str("x".to_string())));
}

#[test]
fn discriminant_is_trimmed_before_matching() {
    let node = union_schema();
    let chain = env_chain(&[("MODE", "  PRODUCTION  "), ("PORT", "81")]);
    let r = try_resolve(&node, &chain, &NoHooks {}).unwrap();
    match &r {
        Resolved::Tagged(name, _) => assert_eq!(name, "Production"),
        _ => panic!("expected a tagged value"),
    }
}

#[test]
fn discriminant_defaults_to_union_name() {
    let mut attrs = ContainerAttributes::new();
    attrs.set_rename_all(Case::Upper).unwrap();
    let u = UnionSchema {
        name: "Mode".to_string(),
        attrs,
        variants: vec![VariantSpec::new("On")],
    };
    assert_eq!(u.discriminant_keys(), vec!["MODE".to_string()]);
}
