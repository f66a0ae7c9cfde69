//! The frozen schema IR that generators consume: the units of one schema as
//! plain values. Source spans and generic parameters are not carried.
use vstd::prelude::*;

verus! {

/// A primitive type, with an optional literal value (for constants).
#[derive(Debug, Clone, Copy, PartialEq, Eq, Structural)]
pub enum Primitive {
    U8(Option<u8>),
    U16(Option<u16>),
    U32(Option<u32>),
    U64(Option<u64>),
    S8(Option<i8>),
    S16(Option<i16>),
    S32(Option<i32>),
    S64(Option<i64>),
}

/// The kind of a field, argument, return value or constant.
#[derive(Debug, Clone, PartialEq, Eq)]
pub enum KindValue {
    /// A primitive type.
    Primitive(Primitive),
    /// A type named by its (possibly namespaced) name, such as `u32`,
    /// `string[]` or `Inner`.
    Namespaced(String),
    /// The name of an enum variant.
    EnumVariant(String),
}

/// One argument of a protocol function.
#[derive(Debug, Clone, PartialEq, Eq)]
pub struct FrozenArgument {
    pub name: String,
    pub kind: KindValue,
}

/// One unit of a frozen schema.
#[derive(Debug, PartialEq, Eq)]
pub enum FrozenUnit {
    Field {
        docstring: Option<String>,
        optional: bool,
        name: String,
        kind_value: KindValue,
    },
    Struct {
        docstring: Option<String>,
        name: String,
        fields: Vec<FrozenUnit>,
    },
    EnumVariant(KindValue),
    Enum {
        docstring: Option<String>,
        name: String,
        variants: Vec<FrozenUnit>,
    },
    Function {
        docstring: String,
        name: String,
        arguments: Vec<FrozenArgument>,
        _return: Option<KindValue>,
        throws: Vec<u16>,
    },
    Protocol {
        docstring: String,
        name: String,
        functions: Vec<FrozenUnit>,
    },
    /// A schema-local error; `ordinal` is what a function's `throws` names.
    Error {
        docstring: Option<String>,
        ordinal: u16,
        imported_from: Option<String>,
        name: String,
        message: String,
        fields: Vec<FrozenUnit>,
    },
    Constant {
        docstring: Option<String>,
        name: String,
        kind_value: KindValue,
    },
}

/// What a [`KindValue`] holds, with names as character sequences.
pub enum KindView {
    Primitive(Primitive),
    Namespaced(Seq<char>),
    EnumVariant(Seq<char>),
}

impl View for KindValue {
    type V = KindView;

    open spec fn view(&self) -> KindView {
        match self {
            KindValue::Primitive(p) => KindView::Primitive(*p),
            KindValue::Namespaced(n) => KindView::Namespaced(n@),
            KindValue::EnumVariant(n) => KindView::EnumVariant(n@),
        }
    }
}

/// What a [`FrozenArgument`] holds.
#[verifier::ext_equal]
pub struct ArgumentView {
    pub name: Seq<char>,
    pub kind: KindView,
}

impl View for FrozenArgument {
    type V = ArgumentView;

    open spec fn view(&self) -> ArgumentView {
        ArgumentView { name: self.name@, kind: self.kind@ }
    }
}

/// What a [`FrozenUnit`] holds, nested units included.
#[verifier::ext_equal]
pub enum UnitView {
    Field { docstring: Option<Seq<char>>, optional: bool, name: Seq<char>, kind_value: KindView },
    Struct { docstring: Option<Seq<char>>, name: Seq<char>, fields: Seq<UnitView> },
    EnumVariant(KindView),
    Enum { docstring: Option<Seq<char>>, name: Seq<char>, variants: Seq<UnitView> },
    Function {
        docstring: Seq<char>,
        name: Seq<char>,
        arguments: Seq<ArgumentView>,
        _return: Option<KindView>,
        throws: Seq<u16>,
    },
    Protocol { docstring: Seq<char>, name: Seq<char>, functions: Seq<UnitView> },
    Error {
        docstring: Option<Seq<char>>,
        ordinal: u16,
        imported_from: Option<Seq<char>>,
        name: Seq<char>,
        message: Seq<char>,
        fields: Seq<UnitView>,
    },
    Constant { docstring: Option<Seq<char>>, name: Seq<char>, kind_value: KindView },
}

/// The characters of an optional string.
pub open spec fn opt_text(s: Option<String>) -> Option<Seq<char>> {
    match s {
        Some(t) => Some(t@),
        None => None,
    }
}

/// The view of an optional kind.
pub open spec fn opt_kind(k: Option<KindValue>) -> Option<KindView> {
    match k {
        Some(v) => Some(v@),
        None => None,
    }
}

/// The views of a sequence of arguments.
pub open spec fn arguments_view(s: Seq<FrozenArgument>) -> Seq<ArgumentView> {
    s.map_values(|a: FrozenArgument| a@)
}

/// The view of one unit.
pub open spec fn unit_view(u: FrozenUnit) -> UnitView
    decreases u,
{
    match u {
        FrozenUnit::Field { docstring, optional, name, kind_value } => UnitView::Field {
            docstring: opt_text(docstring),
            optional,
            name: name@,
            kind_value: kind_value@,
        },
        FrozenUnit::Struct { docstring, name, fields } => UnitView::Struct {
            docstring: opt_text(docstring),
            name: name@,
            fields: units_view(fields@),
        },
        FrozenUnit::EnumVariant(k) => UnitView::EnumVariant(k@),
        FrozenUnit::Enum { docstring, name, variants } => UnitView::Enum {
            docstring: opt_text(docstring),
            name: name@,
            variants: units_view(variants@),
        },
        FrozenUnit::Function { docstring, name, arguments, _return, throws } => UnitView::Function {
            docstring: docstring@,
            name: name@,
            arguments: arguments_view(arguments@),
            _return: opt_kind(_return),
            throws: throws@,
        },
        FrozenUnit::Protocol { docstring, name, functions } => UnitView::Protocol {
            docstring: docstring@,
            name: name@,
            functions: units_view(functions@),
        },
        FrozenUnit::Error { docstring, ordinal, imported_from, name, message, fields } =>
            UnitView::Error {
            docstring: opt_text(docstring),
            ordinal,
            imported_from: opt_text(imported_from),
            name: name@,
            message: message@,
            fields: units_view(fields@),
        },
        FrozenUnit::Constant { docstring, name, kind_value } => UnitView::Constant {
            docstring: opt_text(docstring),
            name: name@,
            kind_value: kind_value@,
        },
    }
}

/// The views of a sequence of units, in order.
pub open spec fn units_view(s: Seq<FrozenUnit>) -> Seq<UnitView>
    decreases s,
{
    if s.len() == 0 {
        Seq::empty()
    } else {
        units_view(s.drop_last()).push(unit_view(s.last()))
    }
}

impl View for FrozenUnit {
    type V = UnitView;

    open spec fn view(&self) -> UnitView {
        unit_view(*self)
    }
}

/// `units_view` keeps the length and views each unit in place.
pub proof fn lemma_units_view(s: Seq<FrozenUnit>)
    ensures
        units_view(s).len() == s.len(),
        forall|i: int| 0 <= i < s.len() ==> #[trigger] units_view(s)[i] == unit_view(s[i]),
    decreases s.len(),
{
    if s.len() > 0 {
        lemma_units_view(s.drop_last());
    }
}

} // verus!
