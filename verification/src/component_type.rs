//! The component model's type system, as host functions declare it: its
//! textual rendering and the check that a declared type matches the type a
//! component expects.
use vstd::prelude::*;
use crate::text::{decimal, format_decimal, join};

verus! {

// ---------------------------------------------------------------------------
// Mathematical model
// ---------------------------------------------------------------------------

/// The mathematical value of a component type: names are character
/// sequences and compound types hold sequences of their parts.
pub enum TypeModel {
    Bool,
    S8,
    U8,
    S16,
    U16,
    S32,
    U32,
    S64,
    U64,
    Float32,
    Float64,
    Char,
    Text,
    List(Box<TypeModel>),
    Record(Seq<(Seq<char>, TypeModel)>),
    Tuple(Seq<TypeModel>),
    Variant(Seq<(Seq<char>, Option<TypeModel>)>),
    Enum(Seq<Seq<char>>),
    Optional(Box<TypeModel>),
    Outcome(Option<Box<TypeModel>>, Option<Box<TypeModel>>),
    Flags(Seq<Seq<char>>),
}

/// The rendering of a type, as `Display` shows it (`list<u8>`,
/// `record {x: u32, y: u32}`, `result<_, string>`, ...).
pub open spec fn display(t: TypeModel) -> Seq<char>
    decreases t,
{
    match t {
        TypeModel::Bool => "bool"@,
        TypeModel::S8 => "s8"@,
        TypeModel::U8 => "u8"@,
        TypeModel::S16 => "s16"@,
        TypeModel::U16 => "u16"@,
        TypeModel::S32 => "s32"@,
        TypeModel::U32 => "u32"@,
        TypeModel::S64 => "s64"@,
        TypeModel::U64 => "u64"@,
        TypeModel::Float32 => "float32"@,
        TypeModel::Float64 => "float64"@,
        TypeModel::Char => "char"@,
        TypeModel::Text => "string"@,
        TypeModel::List(inner) => "list<"@ + display(*inner) + ">"@,
        TypeModel::Record(fields) => "record {"@ + display_fields(fields) + "}"@,
        TypeModel::Tuple(types) => "tuple<"@ + display_types(types) + ">"@,
        TypeModel::Variant(cases) => "variant {"@ + display_cases(cases) + "}"@,
        TypeModel::Enum(names) => "enum {"@ + join(names, ", "@) + "}"@,
        TypeModel::Optional(inner) => "option<"@ + display(*inner) + ">"@,
        TypeModel::Outcome(ok, err) => "result<"@
            + (match ok { Some(t) => display(*t), None => "_"@ })
            + ", "@
            + (match err { Some(t) => display(*t), None => "_"@ })
            + ">"@,
        TypeModel::Flags(names) => "flags {"@ + join(names, ", "@) + "}"@,
    }
}

/// The types of a tuple, separated by ", ".
pub open spec fn display_types(types: Seq<TypeModel>) -> Seq<char>
    decreases types,
{
    if types.len() == 0 {
        Seq::empty()
    } else if types.len() == 1 {
        display(types[0])
    } else {
        display_types(types.drop_last()) + ", "@ + display(types.last())
    }
}

/// The fields of a record as `name: type`, separated by ", ".
pub open spec fn display_fields(fields: Seq<(Seq<char>, TypeModel)>) -> Seq<char>
    decreases fields,
{
    if fields.len() == 0 {
        Seq::empty()
    } else if fields.len() == 1 {
        fields[0].0 + ": "@ + display(fields[0].1)
    } else {
        display_fields(fields.drop_last()) + ", "@ + fields.last().0 + ": "@ + display(fields.last().1)
    }
}

/// The rendering of one variant case: its name, then its payload type in
/// parentheses when it has one.
pub open spec fn display_case(case: (Seq<char>, Option<TypeModel>)) -> Seq<char>
    decreases case,
{
    match case.1 {
        Some(t) => case.0 + "("@ + display(t) + ")"@,
        None => case.0,
    }
}

/// The cases of a variant, separated by ", ".
pub open spec fn display_cases(cases: Seq<(Seq<char>, Option<TypeModel>)>) -> Seq<char>
    decreases cases,
{
    if cases.len() == 0 {
        Seq::empty()
    } else if cases.len() == 1 {
        display_case(cases[0])
    } else {
        display_cases(cases.drop_last()) + ", "@ + display_case(cases.last())
    }
}

/// A mismatch message with `prefix` in front, or no mismatch.
pub open spec fn prefixed(prefix: Seq<char>, r: Option<Seq<char>>) -> Option<Seq<char>> {
    match r {
        Some(m) => Some(prefix + m),
        None => None,
    }
}

/// The message for two counts that differ: `<what> mismatch: declared has
/// <d> <unit>, expected has <e>`.
pub open spec fn count_message(what: Seq<char>, d: nat, unit: Seq<char>, e: nat) -> Seq<char> {
    what + " mismatch: declared has "@ + decimal(d) + " "@ + unit + ", expected has "@ + decimal(e)
}

/// The message for two names that differ.
pub open spec fn name_message(what: Seq<char>, d: Seq<char>, e: Seq<char>) -> Seq<char> {
    what + " mismatch: declared has '"@ + d + "', expected has '"@ + e + "'"@
}

/// Whether `declared` matches `expected`: `None` when it does, otherwise
/// the description of the first difference found.
pub open spec fn type_mismatch(declared: TypeModel, expected: TypeModel) -> Option<Seq<char>>
    decreases declared,
{
    match (declared, expected) {
        (TypeModel::Bool, TypeModel::Bool) => None,
        (TypeModel::S8, TypeModel::S8) => None,
        (TypeModel::U8, TypeModel::U8) => None,
        (TypeModel::S16, TypeModel::S16) => None,
        (TypeModel::U16, TypeModel::U16) => None,
        (TypeModel::S32, TypeModel::S32) => None,
        (TypeModel::U32, TypeModel::U32) => None,
        (TypeModel::S64, TypeModel::S64) => None,
        (TypeModel::U64, TypeModel::U64) => None,
        (TypeModel::Float32, TypeModel::Float32) => None,
        (TypeModel::Float64, TypeModel::Float64) => None,
        (TypeModel::Char, TypeModel::Char) => None,
        (TypeModel::Text, TypeModel::Text) => None,
        (TypeModel::List(d), TypeModel::List(e)) =>
            prefixed("list element type mismatch: "@, type_mismatch(*d, *e)),
        (TypeModel::Optional(d), TypeModel::Optional(e)) =>
            prefixed("option type mismatch: "@, type_mismatch(*d, *e)),
        (TypeModel::Record(d), TypeModel::Record(e)) =>
            if d.len() != e.len() {
                Some(count_message("record field count"@, d.len(), "fields"@, e.len()))
            } else {
                fields_mismatch(d, e)
            },
        (TypeModel::Tuple(d), TypeModel::Tuple(e)) =>
            if d.len() != e.len() {
                Some(count_message("tuple length"@, d.len(), "elements"@, e.len()))
            } else {
                elements_mismatch(d, e, 0)
            },
        (TypeModel::Variant(d), TypeModel::Variant(e)) =>
            if d.len() != e.len() {
                Some(count_message("variant case count"@, d.len(), "cases"@, e.len()))
            } else {
                cases_mismatch(d, e)
            },
        (TypeModel::Enum(d), TypeModel::Enum(e)) =>
            if d.len() != e.len() {
                Some(count_message("enum case count"@, d.len(), "cases"@, e.len()))
            } else {
                names_mismatch("enum case"@, d, e)
            },
        (TypeModel::Outcome(d_ok, d_err), TypeModel::Outcome(e_ok, e_err)) =>
            match branch_mismatch("ok"@, d_ok, e_ok) {
                Some(m) => Some(m),
                None => branch_mismatch("err"@, d_err, e_err),
            },
        (TypeModel::Flags(d), TypeModel::Flags(e)) =>
            if d.len() != e.len() {
                Some(count_message("flags count"@, d.len(), "flags"@, e.len()))
            } else {
                names_mismatch("flag"@, d, e)
            },
        _ => Some("expected "@ + display(expected) + ", got "@ + display(declared)),
    }
}

/// The first difference between the fields of two records of equal size.
pub open spec fn fields_mismatch(d: Seq<(Seq<char>, TypeModel)>, e: Seq<(Seq<char>, TypeModel)>) -> Option<Seq<char>>
    decreases d,
{
    if d.len() == 0 || e.len() == 0 {
        None
    } else if d[0].0 != e[0].0 {
        Some(name_message("record field name"@, d[0].0, e[0].0))
    } else {
        match type_mismatch(d[0].1, e[0].1) {
            Some(m) => Some("record field '"@ + d[0].0 + "' type mismatch: "@ + m),
            None => fields_mismatch(d.drop_first(), e.drop_first()),
        }
    }
}

/// The first difference between the elements of two tuples of equal
/// length, whose first elements stand at position `index`.
pub open spec fn elements_mismatch(d: Seq<TypeModel>, e: Seq<TypeModel>, index: nat) -> Option<Seq<char>>
    decreases d,
{
    if d.len() == 0 || e.len() == 0 {
        None
    } else {
        match type_mismatch(d[0], e[0]) {
            Some(m) => Some("tuple element "@ + decimal(index) + " mismatch: "@ + m),
            None => elements_mismatch(d.drop_first(), e.drop_first(), index + 1),
        }
    }
}

/// The first difference between the cases of two variants of equal size.
pub open spec fn cases_mismatch(
    d: Seq<(Seq<char>, Option<TypeModel>)>,
    e: Seq<(Seq<char>, Option<TypeModel>)>,
) -> Option<Seq<char>>
    decreases d,
{
    if d.len() == 0 || e.len() == 0 {
        None
    } else if d[0].0 != e[0].0 {
        Some(name_message("variant case name"@, d[0].0, e[0].0))
    } else {
        match (d[0].1, e[0].1) {
            (Some(dt), Some(et)) => match type_mismatch(dt, et) {
                Some(m) => Some("variant case '"@ + d[0].0 + "' type mismatch: "@ + m),
                None => cases_mismatch(d.drop_first(), e.drop_first()),
            },
            (None, None) => cases_mismatch(d.drop_first(), e.drop_first()),
            (Some(_), None) => Some("variant case '"@ + d[0].0 + "': declared has payload, expected has none"@),
            (None, Some(_)) => Some("variant case '"@ + d[0].0 + "': declared has no payload, expected has payload"@),
        }
    }
}

/// The first difference between the ok (or err) branches of two results.
pub open spec fn branch_mismatch(
    branch: Seq<char>,
    d: Option<Box<TypeModel>>,
    e: Option<Box<TypeModel>>,
) -> Option<Seq<char>>
    decreases d,
{
    match (d, e) {
        (Some(dt), Some(et)) => prefixed("result "@ + branch + " type mismatch: "@, type_mismatch(*dt, *et)),
        (None, None) => None,
        (Some(_), None) => Some("result "@ + branch + " type mismatch: declared has "@ + branch
            + " type, expected has none"@),
        (None, Some(_)) => Some("result "@ + branch + " type mismatch: declared has no "@ + branch
            + " type, expected has "@ + branch + " type"@),
    }
}

/// The first difference between two lists of names of equal size.
pub open spec fn names_mismatch(what: Seq<char>, d: Seq<Seq<char>>, e: Seq<Seq<char>>) -> Option<Seq<char>>
    decreases d.len(),
{
    if d.len() == 0 || e.len() == 0 {
        None
    } else if d[0] != e[0] {
        Some(name_message(what, d[0], e[0]))
    } else {
        names_mismatch(what, d.drop_first(), e.drop_first())
    }
}

// ---------------------------------------------------------------------------
// Laws of the matcher
// ---------------------------------------------------------------------------

/// A declared type matches an expected type exactly when the two are the
/// same type: same kinds, same names in the same order, same parts.
pub proof fn lemma_match_iff_equal(declared: TypeModel, expected: TypeModel)
    ensures
        type_mismatch(declared, expected) is None <==> declared == expected,
    decreases declared,
{
    match (declared, expected) {
        (TypeModel::List(d), TypeModel::List(e)) => {
            lemma_match_iff_equal(*d, *e);
        },
        (TypeModel::Optional(d), TypeModel::Optional(e)) => {
            lemma_match_iff_equal(*d, *e);
        },
        (TypeModel::Record(d), TypeModel::Record(e)) => {
            if d.len() == e.len() {
                lemma_fields_match_iff_equal(d, e);
            }
        },
        (TypeModel::Tuple(d), TypeModel::Tuple(e)) => {
            if d.len() == e.len() {
                lemma_elements_match_iff_equal(d, e, 0);
            }
        },
        (TypeModel::Variant(d), TypeModel::Variant(e)) => {
            if d.len() == e.len() {
                lemma_cases_match_iff_equal(d, e);
            }
        },
        (TypeModel::Enum(d), TypeModel::Enum(e)) => {
            if d.len() == e.len() {
                lemma_names_match_iff_equal("enum case"@, d, e);
            }
        },
        (TypeModel::Flags(d), TypeModel::Flags(e)) => {
            if d.len() == e.len() {
                lemma_names_match_iff_equal("flag"@, d, e);
            }
        },
        (TypeModel::Outcome(d_ok, d_err), TypeModel::Outcome(e_ok, e_err)) => {
            lemma_branch_match_iff_equal("ok"@, d_ok, e_ok);
            lemma_branch_match_iff_equal("err"@, d_err, e_err);
        },
        _ => {},
    }
}

proof fn lemma_fields_match_iff_equal(d: Seq<(Seq<char>, TypeModel)>, e: Seq<(Seq<char>, TypeModel)>)
    requires
        d.len() == e.len(),
    ensures
        fields_mismatch(d, e) is None <==> d == e,
    decreases d,
{
    if d.len() == 0 {
        assert(d =~= e);
    } else {
        lemma_match_iff_equal(d[0].1, e[0].1);
        lemma_fields_match_iff_equal(d.drop_first(), e.drop_first());
        if d[0] == e[0] && d.drop_first() == e.drop_first() {
            assert(d =~= e) by {
                assert forall|i: int| 0 <= i < d.len() implies d[i] == e[i] by {
                    if i > 0 {
                        assert(d[i] == d.drop_first()[i - 1]);
                        assert(e[i] == e.drop_first()[i - 1]);
                    }
                }
            }
        }
        if d == e {
            assert(d.drop_first() =~= e.drop_first());
        }
    }
}

proof fn lemma_elements_match_iff_equal(d: Seq<TypeModel>, e: Seq<TypeModel>, index: nat)
    requires
        d.len() == e.len(),
    ensures
        elements_mismatch(d, e, index) is None <==> d == e,
    decreases d,
{
    if d.len() == 0 {
        assert(d =~= e);
    } else {
        lemma_match_iff_equal(d[0], e[0]);
        lemma_elements_match_iff_equal(d.drop_first(), e.drop_first(), index + 1);
        if d[0] == e[0] && d.drop_first() == e.drop_first() {
            assert(d =~= e) by {
                assert forall|i: int| 0 <= i < d.len() implies d[i] == e[i] by {
                    if i > 0 {
                        assert(d[i] == d.drop_first()[i - 1]);
                        assert(e[i] == e.drop_first()[i - 1]);
                    }
                }
            }
        }
        if d == e {
            assert(d.drop_first() =~= e.drop_first());
        }
    }
}

proof fn lemma_cases_match_iff_equal(
    d: Seq<(Seq<char>, Option<TypeModel>)>,
    e: Seq<(Seq<char>, Option<TypeModel>)>,
)
    requires
        d.len() == e.len(),
    ensures
        cases_mismatch(d, e) is None <==> d == e,
    decreases d,
{
    if d.len() == 0 {
        assert(d =~= e);
    } else {
        match (d[0].1, e[0].1) {
            (Some(dt), Some(et)) => {
                lemma_match_iff_equal(dt, et);
            },
            _ => {},
        }
        lemma_cases_match_iff_equal(d.drop_first(), e.drop_first());
        if d[0] == e[0] && d.drop_first() == e.drop_first() {
            assert(d =~= e) by {
                assert forall|i: int| 0 <= i < d.len() implies d[i] == e[i] by {
                    if i > 0 {
                        assert(d[i] == d.drop_first()[i - 1]);
                        assert(e[i] == e.drop_first()[i - 1]);
                    }
                }
            }
        }
        if d == e {
            assert(d.drop_first() =~= e.drop_first());
        }
    }
}

proof fn lemma_branch_match_iff_equal(branch: Seq<char>, d: Option<Box<TypeModel>>, e: Option<Box<TypeModel>>)
    ensures
        branch_mismatch(branch, d, e) is None <==> d == e,
    decreases d,
{
    match (d, e) {
        (Some(dt), Some(et)) => {
            lemma_match_iff_equal(*dt, *et);
        },
        _ => {},
    }
}

proof fn lemma_names_match_iff_equal(what: Seq<char>, d: Seq<Seq<char>>, e: Seq<Seq<char>>)
    requires
        d.len() == e.len(),
    ensures
        names_mismatch(what, d, e) is None <==> d == e,
    decreases d.len(),
{
    if d.len() == 0 {
        assert(d =~= e);
    } else {
        lemma_names_match_iff_equal(what, d.drop_first(), e.drop_first());
        if d[0] == e[0] && d.drop_first() == e.drop_first() {
            assert(d =~= e) by {
                assert forall|i: int| 0 <= i < d.len() implies d[i] == e[i] by {
                    if i > 0 {
                        assert(d[i] == d.drop_first()[i - 1]);
                        assert(e[i] == e.drop_first()[i - 1]);
                    }
                }
            }
        }
        if d == e {
            assert(d.drop_first() =~= e.drop_first());
        }
    }
}

// ---------------------------------------------------------------------------
// Executable types
// ---------------------------------------------------------------------------

/// Standalone component type system that can be constructed independently
/// of a component instance. Used for defining host function signatures.
#[derive(Debug)]
pub enum ComponentType {
    Bool,
    S8,
    U8,
    S16,
    U16,
    S32,
    U32,
    S64,
    U64,
    Float32,
    Float64,
    Char,
    String,
    List(Box<ComponentType>),
    Record(Vec<RecordField>),
    Tuple(Vec<ComponentType>),
    Variant(Vec<VariantCase>),
    Enum(Vec<String>),
    Option(Box<ComponentType>),
    Result { ok: Option<Box<ComponentType>>, err: Option<Box<ComponentType>> },
    Flags(Vec<String>),
}

/// A named field of a record type.
#[derive(Debug)]
pub struct RecordField {
    pub name: String,
    pub ty: ComponentType,
}

/// A case of a variant type, with an optional payload type.
#[derive(Debug)]
pub struct VariantCase {
    pub name: String,
    pub ty: Option<ComponentType>,
}

/// The mathematical value of a component type.
pub open spec fn model(t: ComponentType) -> TypeModel
    decreases t,
{
    match t {
        ComponentType::Bool => TypeModel::Bool,
        ComponentType::S8 => TypeModel::S8,
        ComponentType::U8 => TypeModel::U8,
        ComponentType::S16 => TypeModel::S16,
        ComponentType::U16 => TypeModel::U16,
        ComponentType::S32 => TypeModel::S32,
        ComponentType::U32 => TypeModel::U32,
        ComponentType::S64 => TypeModel::S64,
        ComponentType::U64 => TypeModel::U64,
        ComponentType::Float32 => TypeModel::Float32,
        ComponentType::Float64 => TypeModel::Float64,
        ComponentType::Char => TypeModel::Char,
        ComponentType::String => TypeModel::Text,
        ComponentType::List(inner) => TypeModel::List(Box::new(model(*inner))),
        ComponentType::Record(fields) => TypeModel::Record(model_fields(fields@)),
        ComponentType::Tuple(types) => TypeModel::Tuple(model_types(types@)),
        ComponentType::Variant(cases) => TypeModel::Variant(model_cases(cases@)),
        ComponentType::Enum(names) => TypeModel::Enum(model_names(names@)),
        ComponentType::Option(inner) => TypeModel::Optional(Box::new(model(*inner))),
        ComponentType::Result { ok, err } => TypeModel::Outcome(
            match ok { Some(t) => Some(Box::new(model(*t))), None => None },
            match err { Some(t) => Some(Box::new(model(*t))), None => None },
        ),
        ComponentType::Flags(names) => TypeModel::Flags(model_names(names@)),
    }
}

/// The models of a sequence of types.
pub open spec fn model_types(types: Seq<ComponentType>) -> Seq<TypeModel>
    decreases types,
{
    if types.len() == 0 {
        Seq::empty()
    } else {
        model_types(types.drop_last()).push(model(types.last()))
    }
}

/// The models of the fields of a record.
pub open spec fn model_fields(fields: Seq<RecordField>) -> Seq<(Seq<char>, TypeModel)>
    decreases fields,
{
    if fields.len() == 0 {
        Seq::empty()
    } else {
        model_fields(fields.drop_last()).push((fields.last().name@, model(fields.last().ty)))
    }
}

/// The models of the cases of a variant.
pub open spec fn model_cases(cases: Seq<VariantCase>) -> Seq<(Seq<char>, Option<TypeModel>)>
    decreases cases,
{
    if cases.len() == 0 {
        Seq::empty()
    } else {
        model_cases(cases.drop_last()).push((
            cases.last().name@,
            match cases.last().ty { Some(t) => Some(model(t)), None => None },
        ))
    }
}

/// The character sequences of a list of names.
pub open spec fn model_names(names: Seq<String>) -> Seq<Seq<char>> {
    names.map_values(|n: String| n@)
}

impl View for ComponentType {
    type V = TypeModel;

    open spec fn view(&self) -> TypeModel {
        model(*self)
    }
}

/// The model of a list of types is the list of their models.
pub proof fn lemma_model_types(types: Seq<ComponentType>)
    ensures
        model_types(types).len() == types.len(),
        forall|i: int| 0 <= i < types.len() ==> #[trigger] model_types(types)[i] == model(types[i]),
    decreases types.len(),
{
    if types.len() > 0 {
        lemma_model_types(types.drop_last());
    }
}

/// The model of a list of record fields is the list of their names and
/// type models.
pub proof fn lemma_model_fields(fields: Seq<RecordField>)
    ensures
        model_fields(fields).len() == fields.len(),
        forall|i: int| 0 <= i < fields.len() ==> #[trigger] model_fields(fields)[i] == (fields[i].name@, model(fields[i].ty)),
    decreases fields.len(),
{
    if fields.len() > 0 {
        lemma_model_fields(fields.drop_last());
    }
}

/// The model of a list of variant cases is the list of their names and
/// payload type models.
pub proof fn lemma_model_cases(cases: Seq<VariantCase>)
    ensures
        model_cases(cases).len() == cases.len(),
        forall|i: int| 0 <= i < cases.len() ==> #[trigger] model_cases(cases)[i] == (
            cases[i].name@,
            match cases[i].ty { Some(t) => Some(model(t)), None => None },
        ),
    decreases cases.len(),
{
    if cases.len() > 0 {
        lemma_model_cases(cases.drop_last());
    }
}

/// Joins names with ", ".
fn join_names(names: &Vec<String>) -> (s: String)
    ensures
        s@ == join(model_names(names@), ", "@),
{
    let ghost m = model_names(names@);
    let mut s = String::new();
    let mut i: usize = 0;
    while i < names.len()
        invariant
            i <= names@.len(),
            m == model_names(names@),
            m.len() == names@.len(),
            s@ == join(m.take(i as int), ", "@),
        decreases names@.len() - i,
    {
        if i > 0 {
            s.append(", ");
        }
        s.append(names[i].as_str());
        assert(m.take(i + 1).drop_last() =~= m.take(i as int));
        i = i + 1;
    }
    assert(m.take(names@.len() as int) =~= m);
    s
}

impl ComponentType {
    /// The rendering of the type, as `Display` shows it.
    #[verifier::loop_isolation(false)]
    pub fn to_string(&self) -> (s: String)
        ensures
            s@ == display(self@),
        decreases self,
    {
        match self {
            ComponentType::Bool => String::from_str("bool"),
            ComponentType::S8 => String::from_str("s8"),
            ComponentType::U8 => String::from_str("u8"),
            ComponentType::S16 => String::from_str("s16"),
            ComponentType::U16 => String::from_str("u16"),
            ComponentType::S32 => String::from_str("s32"),
            ComponentType::U32 => String::from_str("u32"),
            ComponentType::S64 => String::from_str("s64"),
            ComponentType::U64 => String::from_str("u64"),
            ComponentType::Float32 => String::from_str("float32"),
            ComponentType::Float64 => String::from_str("float64"),
            ComponentType::Char => String::from_str("char"),
            ComponentType::String => String::from_str("string"),
            ComponentType::List(inner) => {
                let mut s = String::from_str("list<");
                let t = inner.to_string();
                s.append(t.as_str());
                s.append(">");
                s
            },
            ComponentType::Option(inner) => {
                let mut s = String::from_str("option<");
                let t = inner.to_string();
                s.append(t.as_str());
                s.append(">");
                s
            },
            ComponentType::Record(fields) => {
                let ghost m = model_fields(fields@);
                proof { lemma_model_fields(fields@); }
                let mut body = String::new();
                let mut i: usize = 0;
                while i < fields.len()
                    invariant
                        i <= fields@.len(),
                        body@ == display_fields(m.take(i as int)),
                    decreases fields@.len() - i,
                {
                    if i > 0 {
                        body.append(", ");
                    }
                    body.append(fields[i].name.as_str());
                    body.append(": ");
                    let t = fields[i].ty.to_string();
                    body.append(t.as_str());
                    assert(m.take(i + 1).drop_last() =~= m.take(i as int));
                    i = i + 1;
                }
                assert(m.take(fields@.len() as int) =~= m);
                let mut s = String::from_str("record {");
                s.append(body.as_str());
                s.append("}");
                s
            },
            ComponentType::Tuple(types) => {
                let ghost m = model_types(types@);
                proof { lemma_model_types(types@); }
                let mut body = String::new();
                let mut i: usize = 0;
                while i < types.len()
                    invariant
                        i <= types@.len(),
                        body@ == display_types(m.take(i as int)),
                    decreases types@.len() - i,
                {
                    if i > 0 {
                        body.append(", ");
                    }
                    let t = types[i].to_string();
                    body.append(t.as_str());
                    assert(m.take(i + 1).drop_last() =~= m.take(i as int));
                    i = i + 1;
                }
                assert(m.take(types@.len() as int) =~= m);
                let mut s = String::from_str("tuple<");
                s.append(body.as_str());
                s.append(">");
                s
            },
            ComponentType::Variant(cases) => {
                let ghost m = model_cases(cases@);
                proof { lemma_model_cases(cases@); }
                let mut body = String::new();
                let mut i: usize = 0;
                while i < cases.len()
                    invariant
                        i <= cases@.len(),
                        body@ == display_cases(m.take(i as int)),
                    decreases cases@.len() - i,
                {
                    if i > 0 {
                        body.append(", ");
                    }
                    let ghost before = body@;
                    body.append(cases[i].name.as_str());
                    match &cases[i].ty {
                        Some(ty) => {
                            body.append("(");
                            let t = ty.to_string();
                            body.append(t.as_str());
                            body.append(")");
                            assert(m[i as int].1 == Some(model(*ty)));
                            assert(body@ =~= before + display_case(m[i as int]));
                        },
                        None => {
                            assert(body@ =~= before + display_case(m[i as int]));
                        },
                    }
                    assert(m.take(i + 1).drop_last() =~= m.take(i as int));
                    i = i + 1;
                }
                assert(m.take(cases@.len() as int) =~= m);
                let mut s = String::from_str("variant {");
                s.append(body.as_str());
                s.append("}");
                s
            },
            ComponentType::Enum(names) => {
                let mut s = String::from_str("enum {");
                let body = join_names(names);
                s.append(body.as_str());
                s.append("}");
                s
            },
            ComponentType::Flags(names) => {
                let mut s = String::from_str("flags {");
                let body = join_names(names);
                s.append(body.as_str());
                s.append("}");
                s
            },
            ComponentType::Result { ok, err } => {
                let mut s = String::from_str("result<");
                match ok {
                    Some(t) => {
                        let r = t.to_string();
                        s.append(r.as_str());
                    },
                    None => {
                        s.append("_");
                    },
                }
                s.append(", ");
                match err {
                    Some(t) => {
                        let r = t.to_string();
                        s.append(r.as_str());
                    },
                    None => {
                        s.append("_");
                    },
                }
                s.append(">");
                s
            },
        }
    }
}

fn prefix_message(prefix: &str, m: String) -> (r: String)
    ensures
        r@ == prefix@ + m@,
{
    let mut r = String::from_str(prefix);
    r.append(m.as_str());
    r
}

fn count_message_exec(what: &str, d: usize, unit: &str, e: usize) -> (r: String)
    ensures
        r@ == count_message(what@, d as nat, unit@, e as nat),
{
    let mut r = String::from_str(what);
    r.append(" mismatch: declared has ");
    let ds = format_decimal(d as u64);
    r.append(ds.as_str());
    r.append(" ");
    r.append(unit);
    r.append(", expected has ");
    let es = format_decimal(e as u64);
    r.append(es.as_str());
    r
}

fn name_message_exec(what: &str, d: &str, e: &str) -> (r: String)
    ensures
        r@ == name_message(what@, d@, e@),
{
    let mut r = String::from_str(what);
    r.append(" mismatch: declared has '");
    r.append(d);
    r.append("', expected has '");
    r.append(e);
    r.append("'");
    r
}

/// The outcome of the matcher as a `Result`, for the contracts of the
/// executable matcher.
pub open spec fn match_outcome(r: Result<(), String>, m: Option<Seq<char>>) -> bool {
    match m {
        None => r is Ok,
        Some(msg) => r is Err && r->Err_0@ == msg,
    }
}

fn names_match(what: &str, d: &Vec<String>, e: &Vec<String>) -> (r: Result<(), String>)
    requires
        d@.len() == e@.len(),
    ensures
        match_outcome(r, names_mismatch(what@, model_names(d@), model_names(e@))),
{
    let ghost dm = model_names(d@);
    let ghost em = model_names(e@);
    let mut i: usize = 0;
    assert(dm.skip(0) =~= dm);
    assert(em.skip(0) =~= em);
    while i < d.len()
        invariant
            i <= d@.len(),
            d@.len() == e@.len(),
            dm == model_names(d@),
            em == model_names(e@),
            names_mismatch(what@, dm, em) == names_mismatch(what@, dm.skip(i as int), em.skip(i as int)),
        decreases d@.len() - i,
    {
        assert(dm.skip(i as int)[0] == d@[i as int]@);
        assert(em.skip(i as int)[0] == e@[i as int]@);
        if d[i] != e[i] {
            return Err(name_message_exec(what, d[i].as_str(), e[i].as_str()));
        }
        assert(dm.skip(i as int).drop_first() =~= dm.skip(i + 1));
        assert(em.skip(i as int).drop_first() =~= em.skip(i + 1));
        i = i + 1;
    }
    Ok(())
}

fn branch_match(branch: &str, d: &Option<Box<ComponentType>>, e: &Option<Box<ComponentType>>) -> (r: Result<(), String>)
    ensures
        match_outcome(r, branch_mismatch(branch@,
            match d { Some(t) => Some(Box::new(model(**t))), None => None },
            match e { Some(t) => Some(Box::new(model(**t))), None => None })),
    decreases d,
{
    match (d, e) {
        (Some(dt), Some(et)) => match types_match(dt, et) {
            Ok(()) => Ok(()),
            Err(m) => {
                let mut r = String::from_str("result ");
                r.append(branch);
                r.append(" type mismatch: ");
                r.append(m.as_str());
                Err(r)
            },
        },
        (None, None) => Ok(()),
        (Some(_), None) => {
            let mut r = String::from_str("result ");
            r.append(branch);
            r.append(" type mismatch: declared has ");
            r.append(branch);
            r.append(" type, expected has none");
            Err(r)
        },
        (None, Some(_)) => {
            let mut r = String::from_str("result ");
            r.append(branch);
            r.append(" type mismatch: declared has no ");
            r.append(branch);
            r.append(" type, expected has ");
            r.append(branch);
            r.append(" type");
            Err(r)
        },
    }
}

/// Compares two component types for compatibility. Returns `Ok(())` if the
/// types match, and an error describing the first difference otherwise.
#[verifier::loop_isolation(false)]
pub fn types_match(declared: &ComponentType, expected: &ComponentType) -> (r: Result<(), String>)
    ensures
        match_outcome(r, type_mismatch(declared@, expected@)),
    decreases declared,
{
    match (declared, expected) {
        (ComponentType::Bool, ComponentType::Bool) => Ok(()),
        (ComponentType::S8, ComponentType::S8) => Ok(()),
        (ComponentType::U8, ComponentType::U8) => Ok(()),
        (ComponentType::S16, ComponentType::S16) => Ok(()),
        (ComponentType::U16, ComponentType::U16) => Ok(()),
        (ComponentType::S32, ComponentType::S32) => Ok(()),
        (ComponentType::U32, ComponentType::U32) => Ok(()),
        (ComponentType::S64, ComponentType::S64) => Ok(()),
        (ComponentType::U64, ComponentType::U64) => Ok(()),
        (ComponentType::Float32, ComponentType::Float32) => Ok(()),
        (ComponentType::Float64, ComponentType::Float64) => Ok(()),
        (ComponentType::Char, ComponentType::Char) => Ok(()),
        (ComponentType::String, ComponentType::String) => Ok(()),
        (ComponentType::List(d), ComponentType::List(e)) => match types_match(d, e) {
            Ok(()) => Ok(()),
            Err(m) => Err(prefix_message("list element type mismatch: ", m)),
        },
        (ComponentType::Option(d), ComponentType::Option(e)) => match types_match(d, e) {
            Ok(()) => Ok(()),
            Err(m) => Err(prefix_message("option type mismatch: ", m)),
        },
        (ComponentType::Record(d), ComponentType::Record(e)) => {
            proof {
                lemma_model_fields(d@);
                lemma_model_fields(e@);
            }
            if d.len() != e.len() {
                return Err(count_message_exec("record field count", d.len(), "fields", e.len()));
            }
            let ghost dm = model_fields(d@);
            let ghost em = model_fields(e@);
            assert(dm.skip(0) =~= dm);
            assert(em.skip(0) =~= em);
            let mut i: usize = 0;
            while i < d.len()
                invariant
                    i <= d@.len(),
                    fields_mismatch(dm, em) == fields_mismatch(dm.skip(i as int), em.skip(i as int)),
                decreases d@.len() - i,
            {
                assert(dm.skip(i as int)[0] == dm[i as int]);
                assert(em.skip(i as int)[0] == em[i as int]);
                if d[i].name != e[i].name {
                    return Err(name_message_exec("record field name", d[i].name.as_str(), e[i].name.as_str()));
                }
                match types_match(&d[i].ty, &e[i].ty) {
                    Ok(()) => {},
                    Err(m) => {
                        let mut r = String::from_str("record field '");
                        r.append(d[i].name.as_str());
                        r.append("' type mismatch: ");
                        r.append(m.as_str());
                        return Err(r);
                    },
                }
                assert(dm.skip(i as int).drop_first() =~= dm.skip(i + 1));
                assert(em.skip(i as int).drop_first() =~= em.skip(i + 1));
                i = i + 1;
            }
            Ok(())
        },
        (ComponentType::Tuple(d), ComponentType::Tuple(e)) => {
            proof {
                lemma_model_types(d@);
                lemma_model_types(e@);
            }
            if d.len() != e.len() {
                return Err(count_message_exec("tuple length", d.len(), "elements", e.len()));
            }
            let ghost dm = model_types(d@);
            let ghost em = model_types(e@);
            assert(dm.skip(0) =~= dm);
            assert(em.skip(0) =~= em);
            let mut i: usize = 0;
            while i < d.len()
                invariant
                    i <= d@.len(),
                    elements_mismatch(dm, em, 0) == elements_mismatch(dm.skip(i as int), em.skip(i as int), i as nat),
                decreases d@.len() - i,
            {
                assert(dm.skip(i as int)[0] == dm[i as int]);
                assert(em.skip(i as int)[0] == em[i as int]);
                match types_match(&d[i], &e[i]) {
                    Ok(()) => {},
                    Err(m) => {
                        let mut r = String::from_str("tuple element ");
                        let idx = format_decimal(i as u64);
                        r.append(idx.as_str());
                        r.append(" mismatch: ");
                        r.append(m.as_str());
                        return Err(r);
                    },
                }
                assert(dm.skip(i as int).drop_first() =~= dm.skip(i + 1));
                assert(em.skip(i as int).drop_first() =~= em.skip(i + 1));
                i = i + 1;
            }
            Ok(())
        },
        (ComponentType::Variant(d), ComponentType::Variant(e)) => {
            proof {
                lemma_model_cases(d@);
                lemma_model_cases(e@);
            }
            if d.len() != e.len() {
                return Err(count_message_exec("variant case count", d.len(), "cases", e.len()));
            }
            let ghost dm = model_cases(d@);
            let ghost em = model_cases(e@);
            assert(dm.skip(0) =~= dm);
            assert(em.skip(0) =~= em);
            let mut i: usize = 0;
            while i < d.len()
                invariant
                    i <= d@.len(),
                    cases_mismatch(dm, em) == cases_mismatch(dm.skip(i as int), em.skip(i as int)),
                decreases d@.len() - i,
            {
                assert(dm.skip(i as int)[0] == dm[i as int]);
                assert(em.skip(i as int)[0] == em[i as int]);
                if d[i].name != e[i].name {
                    return Err(name_message_exec("variant case name", d[i].name.as_str(), e[i].name.as_str()));
                }
                match (&d[i].ty, &e[i].ty) {
                    (Some(dt), Some(et)) => {
                        match types_match(dt, et) {
                            Ok(()) => {},
                            Err(m) => {
                                let mut r = String::from_str("variant case '");
                                r.append(d[i].name.as_str());
                                r.append("' type mismatch: ");
                                r.append(m.as_str());
                                return Err(r);
                            },
                        }
                    },
                    (None, None) => {},
                    (Some(_), None) => {
                        let mut r = String::from_str("variant case '");
                        r.append(d[i].name.as_str());
                        r.append("': declared has payload, expected has none");
                        return Err(r);
                    },
                    (None, Some(_)) => {
                        let mut r = String::from_str("variant case '");
                        r.append(d[i].name.as_str());
                        r.append("': declared has no payload, expected has payload");
                        return Err(r);
                    },
                }
                assert(dm.skip(i as int).drop_first() =~= dm.skip(i + 1));
                assert(em.skip(i as int).drop_first() =~= em.skip(i + 1));
                i = i + 1;
            }
            Ok(())
        },
        (ComponentType::Enum(d), ComponentType::Enum(e)) => {
            if d.len() != e.len() {
                return Err(count_message_exec("enum case count", d.len(), "cases", e.len()));
            }
            names_match("enum case", d, e)
        },
        (ComponentType::Flags(d), ComponentType::Flags(e)) => {
            if d.len() != e.len() {
                return Err(count_message_exec("flags count", d.len(), "flags", e.len()));
            }
            names_match("flag", d, e)
        },
        (ComponentType::Result { ok: d_ok, err: d_err }, ComponentType::Result { ok: e_ok, err: e_err }) => {
            match branch_match("ok", d_ok, e_ok) {
                Ok(()) => branch_match("err", d_err, e_err),
                Err(m) => Err(m),
            }
        },
        _ => {
            let mut r = String::from_str("expected ");
            let es = expected.to_string();
            r.append(es.as_str());
            r.append(", got ");
            let ds = declared.to_string();
            r.append(ds.as_str());
            Err(r)
        },
    }
}

impl ComponentType {
    /// A copy of the type.
    #[verifier::loop_isolation(false)]
    pub fn duplicate(&self) -> (r: ComponentType)
        ensures
            r@ == self@,
        decreases self,
    {
        match self {
            ComponentType::Bool => ComponentType::Bool,
            ComponentType::S8 => ComponentType::S8,
            ComponentType::U8 => ComponentType::U8,
            ComponentType::S16 => ComponentType::S16,
            ComponentType::U16 => ComponentType::U16,
            ComponentType::S32 => ComponentType::S32,
            ComponentType::U32 => ComponentType::U32,
            ComponentType::S64 => ComponentType::S64,
            ComponentType::U64 => ComponentType::U64,
            ComponentType::Float32 => ComponentType::Float32,
            ComponentType::Float64 => ComponentType::Float64,
            ComponentType::Char => ComponentType::Char,
            ComponentType::String => ComponentType::String,
            ComponentType::List(inner) => ComponentType::List(Box::new(inner.duplicate())),
            ComponentType::Option(inner) => ComponentType::Option(Box::new(inner.duplicate())),
            ComponentType::Record(fields) => {
                let mut v: Vec<RecordField> = Vec::new();
                let mut i: usize = 0;
                while i < fields.len()
                    invariant
                        i <= fields@.len(),
                        model_fields(v@) == model_fields(fields@.take(i as int)),
                    decreases fields@.len() - i,
                {
                    let f = RecordField { name: fields[i].name.clone(), ty: fields[i].ty.duplicate() };
                    let ghost old_v = v@;
                    v.push(f);
                    assert(v@.drop_last() =~= old_v);
                    assert(fields@.take(i + 1).drop_last() =~= fields@.take(i as int));
                    i = i + 1;
                }
                assert(fields@.take(fields@.len() as int) =~= fields@);
                ComponentType::Record(v)
            },
            ComponentType::Tuple(types) => {
                let mut v: Vec<ComponentType> = Vec::new();
                let mut i: usize = 0;
                while i < types.len()
                    invariant
                        i <= types@.len(),
                        model_types(v@) == model_types(types@.take(i as int)),
                    decreases types@.len() - i,
                {
                    let t = types[i].duplicate();
                    let ghost old_v = v@;
                    v.push(t);
                    assert(v@.drop_last() =~= old_v);
                    assert(types@.take(i + 1).drop_last() =~= types@.take(i as int));
                    i = i + 1;
                }
                assert(types@.take(types@.len() as int) =~= types@);
                ComponentType::Tuple(v)
            },
            ComponentType::Variant(cases) => {
                let mut v: Vec<VariantCase> = Vec::new();
                let mut i: usize = 0;
                while i < cases.len()
                    invariant
                        i <= cases@.len(),
                        model_cases(v@) == model_cases(cases@.take(i as int)),
                    decreases cases@.len() - i,
                {
                    let ty = match &cases[i].ty {
                        Some(t) => Some(t.duplicate()),
                        None => None,
                    };
                    let c = VariantCase { name: cases[i].name.clone(), ty };
                    let ghost old_v = v@;
                    v.push(c);
                    assert(v@.drop_last() =~= old_v);
                    assert(cases@.take(i + 1).drop_last() =~= cases@.take(i as int));
                    i = i + 1;
                }
                assert(cases@.take(cases@.len() as int) =~= cases@);
                ComponentType::Variant(v)
            },
            ComponentType::Enum(names) => ComponentType::Enum(copy_names(names)),
            ComponentType::Flags(names) => ComponentType::Flags(copy_names(names)),
            ComponentType::Result { ok, err } => {
                let ok2 = match ok {
                    Some(t) => Some(Box::new(t.duplicate())),
                    None => None,
                };
                let err2 = match err {
                    Some(t) => Some(Box::new(t.duplicate())),
                    None => None,
                };
                ComponentType::Result { ok: ok2, err: err2 }
            },
        }
    }
}

pub(crate) fn copy_names(names: &Vec<String>) -> (r: Vec<String>)
    ensures
        model_names(r@) == model_names(names@),
{
    let mut v: Vec<String> = Vec::new();
    let mut i: usize = 0;
    while i < names.len()
        invariant
            i <= names@.len(),
            v@.len() == i,
            forall|j: int| 0 <= j < i ==> v@[j]@ == names@[j]@,
        decreases names@.len() - i,
    {
        v.push(names[i].clone());
        i = i + 1;
    }
    assert(model_names(v@) =~= model_names(names@));
    v
}

/// A component type as the Ruby class `Wasmtime::Component::Type` holds it.
pub struct RbComponentType {
    inner: ComponentType,
}

impl View for RbComponentType {
    type V = TypeModel;

    closed spec fn view(&self) -> TypeModel {
        self.inner@
    }
}

impl RbComponentType {
    pub fn new(inner: ComponentType) -> (t: RbComponentType)
        ensures
            t@ == inner@,
    {
        RbComponentType { inner }
    }

    /// The component type held.
    pub fn inner(&self) -> (t: &ComponentType)
        ensures
            t@ == self@,
    {
        &self.inner
    }
}

/// A copy of the component type that a `Wasmtime::Component::Type` holds.
pub fn extract_component_type(value: &RbComponentType) -> (t: ComponentType)
    ensures
        t@ == value@,
{
    value.inner.duplicate()
}

/// Factory methods for creating component types.
pub struct TypeFactory;

impl TypeFactory {
    /// The `bool` type.
    pub fn bool() -> (t: RbComponentType)
        ensures
            t@ == TypeModel::Bool,
    {
        RbComponentType::new(ComponentType::Bool)
    }

    /// The `s8` type.
    pub fn s8() -> (t: RbComponentType)
        ensures
            t@ == TypeModel::S8,
    {
        RbComponentType::new(ComponentType::S8)
    }

    /// The `u8` type.
    pub fn u8() -> (t: RbComponentType)
        ensures
            t@ == TypeModel::U8,
    {
        RbComponentType::new(ComponentType::U8)
    }

    /// The `s16` type.
    pub fn s16() -> (t: RbComponentType)
        ensures
            t@ == TypeModel::S16,
    {
        RbComponentType::new(ComponentType::S16)
    }

    /// The `u16` type.
    pub fn u16() -> (t: RbComponentType)
        ensures
            t@ == TypeModel::U16,
    {
        RbComponentType::new(ComponentType::U16)
    }

    /// The `s32` type.
    pub fn s32() -> (t: RbComponentType)
        ensures
            t@ == TypeModel::S32,
    {
        RbComponentType::new(ComponentType::S32)
    }

    /// The `u32` type.
    pub fn u32() -> (t: RbComponentType)
        ensures
            t@ == TypeModel::U32,
    {
        RbComponentType::new(ComponentType::U32)
    }

    /// The `s64` type.
    pub fn s64() -> (t: RbComponentType)
        ensures
            t@ == TypeModel::S64,
    {
        RbComponentType::new(ComponentType::S64)
    }

    /// The `u64` type.
    pub fn u64() -> (t: RbComponentType)
        ensures
            t@ == TypeModel::U64,
    {
        RbComponentType::new(ComponentType::U64)
    }

    /// The `float32` type.
    pub fn float32() -> (t: RbComponentType)
        ensures
            t@ == TypeModel::Float32,
    {
        RbComponentType::new(ComponentType::Float32)
    }

    /// The `float64` type.
    pub fn float64() -> (t: RbComponentType)
        ensures
            t@ == TypeModel::Float64,
    {
        RbComponentType::new(ComponentType::Float64)
    }

    /// The `char` type.
    pub fn char() -> (t: RbComponentType)
        ensures
            t@ == TypeModel::Char,
    {
        RbComponentType::new(ComponentType::Char)
    }

    /// The `string` type.
    pub fn string() -> (t: RbComponentType)
        ensures
            t@ == TypeModel::Text,
    {
        RbComponentType::new(ComponentType::String)
    }

    /// A list of `element_type`.
    pub fn list(element_type: &RbComponentType) -> (t: RbComponentType)
        ensures
            t@ == TypeModel::List(Box::new(element_type@)),
    {
        RbComponentType::new(ComponentType::List(Box::new(element_type.inner.duplicate())))
    }

    /// An option of `inner_type`.
    pub fn option(inner_type: &RbComponentType) -> (t: RbComponentType)
        ensures
            t@ == TypeModel::Optional(Box::new(inner_type@)),
    {
        RbComponentType::new(ComponentType::Option(Box::new(inner_type.inner.duplicate())))
    }

    /// A result whose ok and err branches have the given types, or none.
    pub fn result(ok_type: Option<&RbComponentType>, err_type: Option<&RbComponentType>) -> (t: RbComponentType)
        ensures
            t@ == TypeModel::Outcome(
                match ok_type { Some(o) => Some(Box::new(o@)), None => None },
                match err_type { Some(e) => Some(Box::new(e@)), None => None },
            ),
    {
        let ok = match ok_type {
            Some(o) => Some(Box::new(o.inner.duplicate())),
            None => None,
        };
        let err = match err_type {
            Some(e) => Some(Box::new(e.inner.duplicate())),
            None => None,
        };
        RbComponentType::new(ComponentType::Result { ok, err })
    }

    /// A record with the given fields, in order.
    pub fn record(fields: &Vec<(String, &RbComponentType)>) -> (t: RbComponentType)
        ensures
            t@ == TypeModel::Record(fields@.map_values(|f: (String, &RbComponentType)| (f.0@, f.1@))),
    {
        let mut v: Vec<RecordField> = Vec::new();
        let mut i: usize = 0;
        while i < fields.len()
            invariant
                i <= fields@.len(),
                model_fields(v@) == fields@.take(i as int).map_values(|f: (String, &RbComponentType)| (f.0@, f.1@)),
            decreases fields@.len() - i,
        {
            let f = RecordField { name: fields[i].0.clone(), ty: fields[i].1.inner.duplicate() };
            let ghost old_v = v@;
            v.push(f);
            assert(v@.drop_last() =~= old_v);
            assert(fields@.take(i + 1).map_values(|f: (String, &RbComponentType)| (f.0@, f.1@))
                =~= fields@.take(i as int).map_values(|f: (String, &RbComponentType)| (f.0@, f.1@)).push((fields@[i as int].0@, fields@[i as int].1@)));
            i = i + 1;
        }
        assert(fields@.take(fields@.len() as int) =~= fields@);
        RbComponentType::new(ComponentType::Record(v))
    }

    /// A tuple of the given types, in order.
    pub fn tuple(types: &Vec<&RbComponentType>) -> (t: RbComponentType)
        ensures
            t@ == TypeModel::Tuple(types@.map_values(|x: &RbComponentType| x@)),
    {
        let mut v: Vec<ComponentType> = Vec::new();
        let mut i: usize = 0;
        while i < types.len()
            invariant
                i <= types@.len(),
                model_types(v@) == types@.take(i as int).map_values(|x: &RbComponentType| x@),
            decreases types@.len() - i,
        {
            let t = types[i].inner.duplicate();
            let ghost old_v = v@;
            v.push(t);
            assert(v@.drop_last() =~= old_v);
            assert(types@.take(i + 1).map_values(|x: &RbComponentType| x@)
                =~= types@.take(i as int).map_values(|x: &RbComponentType| x@).push(types@[i as int]@));
            i = i + 1;
        }
        assert(types@.take(types@.len() as int) =~= types@);
        RbComponentType::new(ComponentType::Tuple(v))
    }

    /// A variant with the given cases (a name and an optional payload type).
    pub fn variant(cases: &Vec<(String, Option<&RbComponentType>)>) -> (t: RbComponentType)
        ensures
            t@ == TypeModel::Variant(cases@.map_values(|c: (String, Option<&RbComponentType>)|
                (c.0@, match c.1 { Some(x) => Some(x@), None => None }))),
    {
        let mut v: Vec<VariantCase> = Vec::new();
        let mut i: usize = 0;
        while i < cases.len()
            invariant
                i <= cases@.len(),
                model_cases(v@) == cases@.take(i as int).map_values(|c: (String, Option<&RbComponentType>)|
                    (c.0@, match c.1 { Some(x) => Some(x@), None => None })),
            decreases cases@.len() - i,
        {
            let ty = match cases[i].1 {
                Some(x) => Some(x.inner.duplicate()),
                None => None,
            };
            let c = VariantCase { name: cases[i].0.clone(), ty };
            let ghost old_v = v@;
            v.push(c);
            assert(v@.drop_last() =~= old_v);
            assert(cases@.take(i + 1).map_values(|c: (String, Option<&RbComponentType>)|
                    (c.0@, match c.1 { Some(x) => Some(x@), None => None }))
                =~= cases@.take(i as int).map_values(|c: (String, Option<&RbComponentType>)|
                    (c.0@, match c.1 { Some(x) => Some(x@), None => None })).push(
                    (cases@[i as int].0@, match cases@[i as int].1 { Some(x) => Some(x@), None => None })));
            i = i + 1;
        }
        assert(cases@.take(cases@.len() as int) =~= cases@);
        RbComponentType::new(ComponentType::Variant(v))
    }

    /// An enum with the given case names.
    pub fn enum_type(cases: &Vec<String>) -> (t: RbComponentType)
        ensures
            t@ == TypeModel::Enum(model_names(cases@)),
    {
        RbComponentType::new(ComponentType::Enum(copy_names(cases)))
    }

    /// A flags type with the given flag names.
    pub fn flags(flag_names: &Vec<String>) -> (t: RbComponentType)
        ensures
            t@ == TypeModel::Flags(model_names(flag_names@)),
    {
        RbComponentType::new(ComponentType::Flags(copy_names(flag_names)))
    }
}

/// Every type matches itself.
pub proof fn lemma_types_match_reflexive(t: TypeModel)
    ensures
        type_mismatch(t, t) is None,
{
    lemma_match_iff_equal(t, t);
}

/// Whether two types match does not depend on which one is the declared
/// one (the messages do).
pub proof fn lemma_types_match_symmetric(a: TypeModel, b: TypeModel)
    ensures
        type_mismatch(a, b) is None <==> type_mismatch(b, a) is None,
{
    lemma_match_iff_equal(a, b);
    lemma_match_iff_equal(b, a);
}

/// A copy of a type matches the type it was copied from.
pub proof fn lemma_duplicate_matches(t: ComponentType, copy: ComponentType)
    requires
        copy@ == t@,
    ensures
        type_mismatch(copy@, t@) is None,
{
    lemma_match_iff_equal(copy@, t@);
}

} // verus!
