use comline_codegen::codegen::{GenRequest, Mode, PackageMeta};
use comline_codegen::conformance::{corpus, Fixture};
use comline_codegen::ir::{FrozenArgument, FrozenUnit, KindValue, Primitive};

fn field(name: &str, ty: &str, optional: bool) -> FrozenUnit {
    FrozenUnit::Field {
        docstring: None,
        optional,
        name: name.to_string(),
        kind_value: KindValue::Namespaced(ty.to_string()),
    }
}

fn structure(name: &str, fields: Vec<FrozenUnit>) -> FrozenUnit {
    FrozenUnit::Struct { docstring: None, name: name.to_string(), fields }
}

fn by_name(name: &str) -> Fixture {
    corpus().into_iter().find(|fx| fx.name == name).expect("fixture")
}

#[test]
fn corpus_order_is_stable() {
    let names: Vec<&str> = corpus().iter().map(|fx| fx.name).collect();
    assert_eq!(
        names,
        vec!["primitives", "optional_and_arrays", "enum_basic", "type_refs", "protocol", "constant"]
    );
    let again: Vec<&str> = corpus().iter().map(|fx| fx.name).collect();
    assert_eq!(names, again);
}

#[test]
fn fixture_names_are_distinct() {
    let fixtures = corpus();
    for (i, a) in fixtures.iter().enumerate() {
        for b in fixtures.iter().skip(i + 1) {
            assert_ne!(a.name, b.name);
        }
    }
}

#[test]
fn every_fixture_is_in_the_conformance_namespace() {
    assert!(corpus().iter().all(|fx| fx.namespace == "conformance"));
}

#[test]
fn primitives_fixture() {
    let fx = by_name("primitives");
    assert_eq!(
        fx.units,
        vec![structure(
            "Scalars",
            vec![
                field("flag", "bool", false),
                field("small", "u8", false),
                field("medium", "u32", false),
                field("large", "u64", false),
                field("huge", "u128", false),
                field("signed_small", "s8", false),
                field("signed_large", "s64", false),
                field("name", "string", false),
            ],
        )]
    );
}

#[test]
fn optional_and_arrays_fixture() {
    let fx = by_name("optional_and_arrays");
    assert_eq!(
        fx.units,
        vec![structure(
            "Bag",
            vec![
                field("required", "string", false),
                field("maybe", "u32", true),
                field("many", "string[]", false),
                field("maybe_many", "u32[]", true),
            ],
        )]
    );
}

#[test]
fn enum_basic_fixture() {
    let fx = by_name("enum_basic");
    let variant = |n: &str| FrozenUnit::EnumVariant(KindValue::EnumVariant(n.to_string()));
    assert_eq!(
        fx.units,
        vec![FrozenUnit::Enum {
            docstring: None,
            name: "State".to_string(),
            variants: vec![variant("Pending"), variant("Active"), variant("Closed")],
        }]
    );
}

#[test]
fn type_refs_fixture() {
    let fx = by_name("type_refs");
    assert_eq!(
        fx.units,
        vec![
            structure("Inner", vec![field("value", "s32", false)]),
            structure(
                "Outer",
                vec![
                    field("one", "Inner", false),
                    field("some", "Inner", true),
                    field("list", "Inner[]", false),
                ],
            ),
        ]
    );
}

#[test]
fn protocol_fixture() {
    let fx = by_name("protocol");
    let arg = |n: &str, p: Primitive| FrozenArgument {
        name: n.to_string(),
        kind: KindValue::Primitive(p),
    };
    assert_eq!(
        fx.units,
        vec![
            FrozenUnit::Error {
                docstring: None,
                ordinal: 0,
                imported_from: None,
                name: "NotFound".to_string(),
                message: "NotFound occurred".to_string(),
                fields: vec![],
            },
            FrozenUnit::Protocol {
                docstring: "Conformance protocol".to_string(),
                name: "Service".to_string(),
                functions: vec![
                    FrozenUnit::Function {
                        docstring: String::new(),
                        name: "lookup".to_string(),
                        arguments: vec![arg("id", Primitive::S32(None))],
                        _return: Some(KindValue::Namespaced("Record".to_string())),
                        throws: vec![0],
                    },
                    FrozenUnit::Function {
                        docstring: String::new(),
                        name: "count".to_string(),
                        arguments: vec![],
                        _return: Some(KindValue::Namespaced("u64".to_string())),
                        throws: vec![],
                    },
                    FrozenUnit::Function {
                        docstring: String::new(),
                        name: "notify".to_string(),
                        arguments: vec![arg("code", Primitive::U16(None))],
                        _return: None,
                        throws: vec![],
                    },
                ],
            },
        ]
    );
}

#[test]
fn protocol_throws_name_local_errors() {
    let fx = by_name("protocol");
    let ordinals: Vec<u16> = fx
        .units
        .iter()
        .filter_map(|u| match u {
            FrozenUnit::Error { ordinal, .. } => Some(*ordinal),
            _ => None,
        })
        .collect();
    for u in &fx.units {
        if let FrozenUnit::Protocol { functions, .. } = u {
            for f in functions {
                if let FrozenUnit::Function { throws, .. } = f {
                    assert!(throws.iter().all(|t| ordinals.contains(t)));
                }
            }
        }
    }
}

#[test]
fn constant_fixture() {
    let fx = by_name("constant");
    assert_eq!(
        fx.units,
        vec![FrozenUnit::Constant {
            docstring: None,
            name: "MAX_RETRIES".to_string(),
            kind_value: KindValue::Primitive(Primitive::U8(Some(5))),
        }]
    );
}

#[test]
fn fixtures_make_requests() {
    for fx in corpus() {
        let schemas = vec![(fx.namespace.to_string(), fx.units)];
        let req = GenRequest {
            mode: Mode::Code,
            schemas: &schemas,
            package: PackageMeta { name: "conformance".to_string(), version: "0.0.0".to_string() },
        };
        assert_eq!(req.schemas.len(), 1);
        assert_eq!(req.schemas[0].0, "conformance");
        assert_eq!(req.mode, Mode::Code);
    }
}
