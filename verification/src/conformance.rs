//! The codegen conformance corpus.
//!
//! Each [`Fixture`] is one schema, as a `Vec<FrozenUnit>` built here rather than
//! parsed, so the corpus pins exactly what IR shape every generator must handle
//! — independent of the parser. Every generator is run over every fixture and
//! its output compared with a checked-in golden file per fixture name.
use vstd::prelude::*;
use vstd::string::StringExecFns;

use crate::ir::{
    lemma_units_view, units_view, ArgumentView, FrozenArgument, FrozenUnit, KindValue, KindView,
    Primitive, UnitView,
};

verus! {

/// One schema and its namespace.
pub struct Fixture {
    pub name: &'static str,
    pub namespace: &'static str,
    pub units: Vec<FrozenUnit>,
}

/// What a [`Fixture`] holds.
#[verifier::ext_equal]
pub struct FixtureView {
    pub name: Seq<char>,
    pub namespace: Seq<char>,
    pub units: Seq<UnitView>,
}

impl View for Fixture {
    type V = FixtureView;

    open spec fn view(&self) -> FixtureView {
        FixtureView { name: self.name@, namespace: self.namespace@, units: units_view(self.units@) }
    }
}

// ── what each builder produces ──────────────────────────────────────────────

/// A field `name` of the named type `ty`, optional or not, with no docstring.
pub open spec fn field_view(name: Seq<char>, ty: Seq<char>, optional: bool) -> UnitView {
    UnitView::Field { docstring: None, optional, name, kind_value: KindView::Namespaced(ty) }
}

/// The struct `name` with the given fields and no docstring.
pub open spec fn structure_view(name: Seq<char>, fields: Seq<UnitView>) -> UnitView {
    UnitView::Struct { docstring: None, name, fields }
}

/// The enum variant `name`.
pub open spec fn variant_view(name: Seq<char>) -> UnitView {
    UnitView::EnumVariant(KindView::EnumVariant(name))
}

/// The argument `name` of primitive type `prim`.
pub open spec fn arg_view(name: Seq<char>, prim: Primitive) -> ArgumentView {
    ArgumentView { name, kind: KindView::Primitive(prim) }
}

/// The function `name` with the given arguments, returning the named type
/// `ret` (or nothing), throwing the error ordinals `throws`, with an empty
/// docstring.
pub open spec fn function_view(
    name: Seq<char>,
    args: Seq<ArgumentView>,
    ret: Option<Seq<char>>,
    throws: Seq<u16>,
) -> UnitView {
    UnitView::Function {
        docstring: Seq::empty(),
        name,
        arguments: args,
        _return: match ret {
            Some(t) => Some(KindView::Namespaced(t)),
            None => None,
        },
        throws,
    }
}

/// The local error `name` with the given ordinal and the message
/// "`name` occurred", no fields and no docstring.
pub open spec fn error_view(ordinal: u16, name: Seq<char>) -> UnitView {
    UnitView::Error {
        docstring: None,
        ordinal,
        imported_from: None,
        name,
        message: name + " occurred"@,
        fields: Seq::empty(),
    }
}

// ── builders ────────────────────────────────────────────────────────────────

fn field(name: &str, ty: &str, optional: bool) -> (u: FrozenUnit)
    ensures
        u@ == field_view(name@, ty@, optional),
{
    FrozenUnit::Field {
        docstring: None,
        optional,
        name: name.to_owned(),
        kind_value: KindValue::Namespaced(ty.to_owned()),
    }
}

fn structure(name: &str, fields: Vec<FrozenUnit>) -> (u: FrozenUnit)
    ensures
        u@ == structure_view(name@, units_view(fields@)),
{
    FrozenUnit::Struct { docstring: None, name: name.to_owned(), fields }
}

fn variant(name: &str) -> (u: FrozenUnit)
    ensures
        u@ == variant_view(name@),
{
    FrozenUnit::EnumVariant(KindValue::EnumVariant(name.to_owned()))
}

fn arg(name: &str, prim: Primitive) -> (a: FrozenArgument)
    ensures
        a@ == arg_view(name@, prim),
{
    FrozenArgument { name: name.to_owned(), kind: KindValue::Primitive(prim) }
}

fn function(name: &str, args: Vec<FrozenArgument>, ret: Option<&str>, throws: Vec<u16>) -> (u:
    FrozenUnit)
    ensures
        u@ == function_view(
            name@,
            args@.map_values(|a: FrozenArgument| a@),
            match ret {
                Some(t) => Some(t@),
                None => None,
            },
            throws@,
        ),
{
    let _return = match ret {
        Some(t) => Some(KindValue::Namespaced(t.to_owned())),
        None => None,
    };
    FrozenUnit::Function {
        docstring: String::new(),
        name: name.to_owned(),
        arguments: args,
        _return,
        throws,
    }
}

/// A local `error`, ordinal assigned by the fixture itself (mirroring what
/// the schema compiler would freeze from a real schema).
fn error(ordinal: u16, name: &str) -> (u: FrozenUnit)
    ensures
        u@ == error_view(ordinal, name@),
{
    let mut message = name.to_owned();
    message.append(" occurred");
    let fields: Vec<FrozenUnit> = Vec::new();
    let u = FrozenUnit::Error {
        docstring: None,
        ordinal,
        imported_from: None,
        name: name.to_owned(),
        message,
        fields,
    };
    assert(units_view(fields@) =~= Seq::<UnitView>::empty());
    u
}

// ── fixtures ────────────────────────────────────────────────────────────────

/// The fixture `name` in the `conformance` namespace with the given units.
pub open spec fn fixture_view(name: Seq<char>, units: Seq<UnitView>) -> FixtureView {
    FixtureView { name, namespace: "conformance"@, units }
}

/// One struct `Scalars` with a field of each scalar type.
pub open spec fn primitives_view() -> FixtureView {
    fixture_view(
        "primitives"@,
        seq![
            structure_view(
                "Scalars"@,
                seq![
                    field_view("flag"@, "bool"@, false),
                    field_view("small"@, "u8"@, false),
                    field_view("medium"@, "u32"@, false),
                    field_view("large"@, "u64"@, false),
                    field_view("huge"@, "u128"@, false),
                    field_view("signed_small"@, "s8"@, false),
                    field_view("signed_large"@, "s64"@, false),
                    field_view("name"@, "string"@, false),
                ],
            ),
        ],
    )
}

fn primitives() -> (fx: Fixture)
    ensures
        fx@ == primitives_view(),
{
    let fields = vec![
        field("flag", "bool", false),
        field("small", "u8", false),
        field("medium", "u32", false),
        field("large", "u64", false),
        field("huge", "u128", false),
        field("signed_small", "s8", false),
        field("signed_large", "s64", false),
        field("name", "string", false),
    ];
    proof {
        lemma_units_view(fields@);
        assert(units_view(fields@) =~= primitives_view().units[0]->Struct_fields);
    }
    let units = vec![structure("Scalars", fields)];
    proof {
        lemma_units_view(units@);
    }
    let fx = Fixture { name: "primitives", namespace: "conformance", units };
    assert(fx@ =~~= primitives_view());
    fx
}

/// One struct `Bag` with required, optional and array fields.
pub open spec fn optional_and_arrays_view() -> FixtureView {
    fixture_view(
        "optional_and_arrays"@,
        seq![
            structure_view(
                "Bag"@,
                seq![
                    field_view("required"@, "string"@, false),
                    field_view("maybe"@, "u32"@, true),
                    field_view("many"@, "string[]"@, false),
                    field_view("maybe_many"@, "u32[]"@, true),
                ],
            ),
        ],
    )
}

fn optional_and_arrays() -> (fx: Fixture)
    ensures
        fx@ == optional_and_arrays_view(),
{
    let fields = vec![
        field("required", "string", false),
        field("maybe", "u32", true),
        field("many", "string[]", false),
        field("maybe_many", "u32[]", true),
    ];
    proof {
        lemma_units_view(fields@);
        assert(units_view(fields@) =~= optional_and_arrays_view().units[0]->Struct_fields);
    }
    let units = vec![structure("Bag", fields)];
    proof {
        lemma_units_view(units@);
    }
    let fx = Fixture { name: "optional_and_arrays", namespace: "conformance", units };
    assert(fx@ =~~= optional_and_arrays_view());
    fx
}

/// One enum `State` with the variants `Pending`, `Active` and `Closed`.
pub open spec fn enum_basic_view() -> FixtureView {
    fixture_view(
        "enum_basic"@,
        seq![
            UnitView::Enum {
                docstring: None,
                name: "State"@,
                variants: seq![
                    variant_view("Pending"@),
                    variant_view("Active"@),
                    variant_view("Closed"@),
                ],
            },
        ],
    )
}

fn enum_basic() -> (fx: Fixture)
    ensures
        fx@ == enum_basic_view(),
{
    let variants = vec![variant("Pending"), variant("Active"), variant("Closed")];
    proof {
        lemma_units_view(variants@);
        assert(units_view(variants@) =~= enum_basic_view().units[0]->Enum_variants);
    }
    let units = vec![FrozenUnit::Enum { docstring: None, name: "State".to_owned(), variants }];
    proof {
        lemma_units_view(units@);
    }
    let fx = Fixture { name: "enum_basic", namespace: "conformance", units };
    assert(fx@ =~~= enum_basic_view());
    fx
}

/// A struct `Inner` and a struct `Outer` that refers to it directly, as an
/// option and as an array.
pub open spec fn type_refs_view() -> FixtureView {
    fixture_view(
        "type_refs"@,
        seq![
            structure_view("Inner"@, seq![field_view("value"@, "s32"@, false)]),
            structure_view(
                "Outer"@,
                seq![
                    field_view("one"@, "Inner"@, false),
                    field_view("some"@, "Inner"@, true),
                    field_view("list"@, "Inner[]"@, false),
                ],
            ),
        ],
    )
}

fn type_refs() -> (fx: Fixture)
    ensures
        fx@ == type_refs_view(),
{
    let inner_fields = vec![field("value", "s32", false)];
    proof {
        lemma_units_view(inner_fields@);
        assert(units_view(inner_fields@) =~= type_refs_view().units[0]->Struct_fields);
    }
    let outer_fields = vec![
        field("one", "Inner", false),
        field("some", "Inner", true),
        field("list", "Inner[]", false),
    ];
    proof {
        lemma_units_view(outer_fields@);
        assert(units_view(outer_fields@) =~= type_refs_view().units[1]->Struct_fields);
    }
    let units = vec![structure("Inner", inner_fields), structure("Outer", outer_fields)];
    proof {
        lemma_units_view(units@);
    }
    let fx = Fixture { name: "type_refs", namespace: "conformance", units };
    assert(fx@ =~~= type_refs_view());
    fx
}

/// The error `NotFound` (ordinal 0) and the protocol `Service`, whose
/// `lookup` throws that error.
pub open spec fn protocol_view() -> FixtureView {
    fixture_view(
        "protocol"@,
        seq![
            error_view(0, "NotFound"@),
            UnitView::Protocol {
                docstring: "Conformance protocol"@,
                name: "Service"@,
                functions: seq![
                    function_view(
                        "lookup"@,
                        seq![arg_view("id"@, Primitive::S32(None))],
                        Some("Record"@),
                        seq![0u16],
                    ),
                    function_view("count"@, seq![], Some("u64"@), seq![]),
                    function_view(
                        "notify"@,
                        seq![arg_view("code"@, Primitive::U16(None))],
                        None,
                        seq![],
                    ),
                ],
            },
        ],
    )
}

fn protocol() -> (fx: Fixture)
    ensures
        fx@ == protocol_view(),
{
    let lookup_args = vec![arg("id", Primitive::S32(None))];
    let lookup_throws: Vec<u16> = vec![0];  // the ordinal of `NotFound`, below
    let lookup = function("lookup", lookup_args, Some("Record"), lookup_throws);
    let count_args: Vec<FrozenArgument> = Vec::new();
    let count_throws: Vec<u16> = Vec::new();
    let count = function("count", count_args, Some("u64"), count_throws);
    let notify_args = vec![arg("code", Primitive::U16(None))];
    let notify_throws: Vec<u16> = Vec::new();
    let notify = function("notify", notify_args, None, notify_throws);
    proof {
        assert(lookup_args@.map_values(|a: FrozenArgument| a@) =~= seq![
            arg_view("id"@, Primitive::S32(None)),
        ]);
        assert(count_args@.map_values(|a: FrozenArgument| a@) =~= Seq::<ArgumentView>::empty());
        assert(notify_args@.map_values(|a: FrozenArgument| a@) =~= seq![
            arg_view("code"@, Primitive::U16(None)),
        ]);
        assert(lookup_throws@ =~= seq![0u16]);
        assert(count_throws@ =~= Seq::<u16>::empty());
        assert(notify_throws@ =~= Seq::<u16>::empty());
    }
    let functions = vec![lookup, count, notify];
    proof {
        lemma_units_view(functions@);
        assert(units_view(functions@) =~= protocol_view().units[1]->Protocol_functions);
    }
    let units = vec![
        error(0, "NotFound"),
        FrozenUnit::Protocol {
            docstring: "Conformance protocol".to_owned(),
            name: "Service".to_owned(),
            functions,
        },
    ];
    proof {
        lemma_units_view(units@);
    }
    let fx = Fixture { name: "protocol", namespace: "conformance", units };
    assert(fx@ =~~= protocol_view());
    fx
}

/// One constant `MAX_RETRIES` of type `u8` with the value 5.
pub open spec fn constant_view() -> FixtureView {
    fixture_view(
        "constant"@,
        seq![
            UnitView::Constant {
                docstring: None,
                name: "MAX_RETRIES"@,
                kind_value: KindView::Primitive(Primitive::U8(Some(5))),
            },
        ],
    )
}

fn constant() -> (fx: Fixture)
    ensures
        fx@ == constant_view(),
{
    let units = vec![
        FrozenUnit::Constant {
            docstring: None,
            name: "MAX_RETRIES".to_owned(),
            kind_value: KindValue::Primitive(Primitive::U8(Some(5))),
        },
    ];
    proof {
        lemma_units_view(units@);
    }
    let fx = Fixture { name: "constant", namespace: "conformance", units };
    assert(fx@ =~~= constant_view());
    fx
}

/// `s` holds fixtures with the views `vs`, in order.
pub open spec fn fixtures_are(s: Seq<Fixture>, vs: Seq<FixtureView>) -> bool {
    &&& s.len() == vs.len()
    &&& forall|i: int| 0 <= i < s.len() ==> #[trigger] s[i]@ == vs[i]
}

/// The whole corpus, in order.
pub open spec fn corpus_view() -> Seq<FixtureView> {
    seq![
        primitives_view(),
        optional_and_arrays_view(),
        enum_basic_view(),
        type_refs_view(),
        protocol_view(),
        constant_view(),
    ]
}

proof fn lemma_fixture_names_differ()
    ensures
        "primitives"@ != "optional_and_arrays"@,
        "primitives"@ != "enum_basic"@,
        "primitives"@ != "type_refs"@,
        "primitives"@ != "protocol"@,
        "primitives"@ != "constant"@,
        "optional_and_arrays"@ != "enum_basic"@,
        "optional_and_arrays"@ != "type_refs"@,
        "optional_and_arrays"@ != "protocol"@,
        "optional_and_arrays"@ != "constant"@,
        "enum_basic"@ != "type_refs"@,
        "enum_basic"@ != "protocol"@,
        "enum_basic"@ != "constant"@,
        "type_refs"@ != "protocol"@,
        "type_refs"@ != "constant"@,
        "protocol"@ != "constant"@,
{
    reveal_strlit("primitives");
    reveal_strlit("optional_and_arrays");
    reveal_strlit("enum_basic");
    reveal_strlit("type_refs");
    reveal_strlit("protocol");
    reveal_strlit("constant");
    assert("primitives"@[0] != "enum_basic"@[0]);
    assert("primitives"@.len() != "optional_and_arrays"@.len());
    assert("primitives"@.len() != "type_refs"@.len());
    assert("primitives"@.len() != "protocol"@.len());
    assert("primitives"@.len() != "constant"@.len());
    assert("optional_and_arrays"@.len() != "enum_basic"@.len());
    assert("optional_and_arrays"@.len() != "type_refs"@.len());
    assert("optional_and_arrays"@.len() != "protocol"@.len());
    assert("optional_and_arrays"@.len() != "constant"@.len());
    assert("enum_basic"@.len() != "type_refs"@.len());
    assert("enum_basic"@.len() != "protocol"@.len());
    assert("enum_basic"@.len() != "constant"@.len());
    assert("type_refs"@.len() != "protocol"@.len());
    assert("type_refs"@.len() != "constant"@.len());
    assert("protocol"@[0] != "constant"@[0]);
}

/// Every fixture, in a stable order. No two fixtures share a name, so each
/// has a golden file of its own.
pub fn corpus() -> (r: Vec<Fixture>)
    ensures
        fixtures_are(r@, corpus_view()),
        forall|i: int, j: int|
            0 <= i < r@.len() && 0 <= j < r@.len() && i != j ==> #[trigger] r@[i].name@
                != #[trigger] r@[j].name@,
{
    proof {
        lemma_fixture_names_differ();
    }
    let r = vec![
        primitives(),
        optional_and_arrays(),
        enum_basic(),
        type_refs(),
        protocol(),
        constant(),
    ];
    r
}

/// Two calls of `corpus` give the same fixtures, in the same order.
pub proof fn law_corpus_is_stable(a: Seq<Fixture>, b: Seq<Fixture>)
    requires
        fixtures_are(a, corpus_view()),
        fixtures_are(b, corpus_view()),
    ensures
        a.len() == b.len(),
        forall|i: int| 0 <= i < a.len() ==> #[trigger] a[i]@ == b[i]@,
{
}

} // verus!
