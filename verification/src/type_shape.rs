//! The shape of a component type as Wasmtime describes it, and which of
//! them the library's component types can stand for: resources, maps,
//! futures, streams and error contexts are refused for host functions.
use vstd::prelude::*;
use crate::component_type::{
    copy_names, model, model_cases, model_fields, model_names, model_types, ComponentType, RecordField,
    TypeModel, VariantCase,
};

verus! {

/// A component type as Wasmtime describes it: one variant per kind.
pub enum TypeShape {
    Bool,
    S8,
    U8,
    S16,
    U16,
    S32,
    U32,
    S64,
    U64,
    Float32,
    Float64,
    Char,
    String,
    List(Box<TypeShape>),
    Record(Vec<ShapeField>),
    Tuple(Vec<TypeShape>),
    Variant(Vec<ShapeCase>),
    Enum(Vec<String>),
    Option(Box<TypeShape>),
    Result { ok: Option<Box<TypeShape>>, err: Option<Box<TypeShape>> },
    Flags(Vec<String>),
    Own,
    Borrow,
    MapType,
    Future,
    Stream,
    ErrorContext,
}

/// A field of a record shape.
pub struct ShapeField {
    pub name: String,
    pub ty: TypeShape,
}

/// A case of a variant shape, with an optional payload.
pub struct ShapeCase {
    pub name: String,
    pub ty: Option<TypeShape>,
}

/// The message for a resource type.
pub open spec fn resource_refusal() -> Seq<char> {
    "resource types (own/borrow) are not yet supported for host function validation"@
}

/// The message for a refused kind (`map`, `future`, `stream`).
pub open spec fn kind_refusal(kind: Seq<char>) -> Seq<char> {
    kind + " types are not yet supported for host function validation"@
}

/// The component type that a shape stands for, or the message of the
/// first refused type met, left to right.
pub open spec fn shape_outcome(s: TypeShape) -> Result<TypeModel, Seq<char>>
    decreases s,
{
    match s {
        TypeShape::Bool => Ok(TypeModel::Bool),
        TypeShape::S8 => Ok(TypeModel::S8),
        TypeShape::U8 => Ok(TypeModel::U8),
        TypeShape::S16 => Ok(TypeModel::S16),
        TypeShape::U16 => Ok(TypeModel::U16),
        TypeShape::S32 => Ok(TypeModel::S32),
        TypeShape::U32 => Ok(TypeModel::U32),
        TypeShape::S64 => Ok(TypeModel::S64),
        TypeShape::U64 => Ok(TypeModel::U64),
        TypeShape::Float32 => Ok(TypeModel::Float32),
        TypeShape::Float64 => Ok(TypeModel::Float64),
        TypeShape::Char => Ok(TypeModel::Char),
        TypeShape::String => Ok(TypeModel::Text),
        TypeShape::List(inner) => match shape_outcome(*inner) {
            Ok(t) => Ok(TypeModel::List(Box::new(t))),
            Err(m) => Err(m),
        },
        TypeShape::Record(fields) => match fields_outcome(fields@) {
            Ok(fs) => Ok(TypeModel::Record(fs)),
            Err(m) => Err(m),
        },
        TypeShape::Tuple(types) => match types_outcome(types@) {
            Ok(ts) => Ok(TypeModel::Tuple(ts)),
            Err(m) => Err(m),
        },
        TypeShape::Variant(cases) => match cases_outcome(cases@) {
            Ok(cs) => Ok(TypeModel::Variant(cs)),
            Err(m) => Err(m),
        },
        TypeShape::Enum(names) => Ok(TypeModel::Enum(model_names(names@))),
        TypeShape::Option(inner) => match shape_outcome(*inner) {
            Ok(t) => Ok(TypeModel::Optional(Box::new(t))),
            Err(m) => Err(m),
        },
        TypeShape::Result { ok, err } => {
            let ok_r: Result<Option<Box<TypeModel>>, Seq<char>> = match ok {
                Some(t) => match shape_outcome(*t) {
                    Ok(x) => Ok(Some(Box::new(x))),
                    Err(m) => Err(m),
                },
                None => Ok(None),
            };
            let err_r: Result<Option<Box<TypeModel>>, Seq<char>> = match err {
                Some(t) => match shape_outcome(*t) {
                    Ok(x) => Ok(Some(Box::new(x))),
                    Err(m) => Err(m),
                },
                None => Ok(None),
            };
            match ok_r {
                Err(m) => Err(m),
                Ok(o) => match err_r {
                    Err(m) => Err(m),
                    Ok(e) => Ok(TypeModel::Outcome(o, e)),
                },
            }
        },
        TypeShape::Flags(names) => Ok(TypeModel::Flags(model_names(names@))),
        TypeShape::Own => Err(resource_refusal()),
        TypeShape::Borrow => Err(resource_refusal()),
        TypeShape::MapType => Err(kind_refusal("map"@)),
        TypeShape::Future => Err(kind_refusal("future"@)),
        TypeShape::Stream => Err(kind_refusal("stream"@)),
        TypeShape::ErrorContext => Err(kind_refusal("error-context"@)),
    }
}

/// The types of a tuple shape, or the first refusal.
pub open spec fn types_outcome(types: Seq<TypeShape>) -> Result<Seq<TypeModel>, Seq<char>>
    decreases types,
{
    if types.len() == 0 {
        Ok(Seq::empty())
    } else {
        match types_outcome(types.drop_last()) {
            Err(m) => Err(m),
            Ok(ts) => match shape_outcome(types.last()) {
                Ok(t) => Ok(ts.push(t)),
                Err(m) => Err(m),
            },
        }
    }
}

/// The fields of a record shape, or the first refusal.
pub open spec fn fields_outcome(fields: Seq<ShapeField>) -> Result<Seq<(Seq<char>, TypeModel)>, Seq<char>>
    decreases fields,
{
    if fields.len() == 0 {
        Ok(Seq::empty())
    } else {
        match fields_outcome(fields.drop_last()) {
            Err(m) => Err(m),
            Ok(fs) => match shape_outcome(fields.last().ty) {
                Ok(t) => Ok(fs.push((fields.last().name@, t))),
                Err(m) => Err(m),
            },
        }
    }
}

/// The cases of a variant shape, or the first refusal.
pub open spec fn cases_outcome(cases: Seq<ShapeCase>) -> Result<Seq<(Seq<char>, Option<TypeModel>)>, Seq<char>>
    decreases cases,
{
    if cases.len() == 0 {
        Ok(Seq::empty())
    } else {
        match cases_outcome(cases.drop_last()) {
            Err(m) => Err(m),
            Ok(cs) => match cases.last().ty {
                None => Ok(cs.push((cases.last().name@, None))),
                Some(t) => match shape_outcome(t) {
                    Ok(x) => Ok(cs.push((cases.last().name@, Some(x)))),
                    Err(m) => Err(m),
                },
            },
        }
    }
}

proof fn lemma_types_err_prefix(types: Seq<TypeShape>, k: int)
    requires
        0 <= k <= types.len(),
        types_outcome(types.take(k)) is Err,
    ensures
        types_outcome(types) == types_outcome(types.take(k)),
    decreases types.len(),
{
    if types.len() == k {
        assert(types.take(k) =~= types);
    } else {
        assert(types.drop_last().take(k) =~= types.take(k));
        lemma_types_err_prefix(types.drop_last(), k);
    }
}

proof fn lemma_fields_err_prefix(fields: Seq<ShapeField>, k: int)
    requires
        0 <= k <= fields.len(),
        fields_outcome(fields.take(k)) is Err,
    ensures
        fields_outcome(fields) == fields_outcome(fields.take(k)),
    decreases fields.len(),
{
    if fields.len() == k {
        assert(fields.take(k) =~= fields);
    } else {
        assert(fields.drop_last().take(k) =~= fields.take(k));
        lemma_fields_err_prefix(fields.drop_last(), k);
    }
}

proof fn lemma_cases_err_prefix(cases: Seq<ShapeCase>, k: int)
    requires
        0 <= k <= cases.len(),
        cases_outcome(cases.take(k)) is Err,
    ensures
        cases_outcome(cases) == cases_outcome(cases.take(k)),
    decreases cases.len(),
{
    if cases.len() == k {
        assert(cases.take(k) =~= cases);
    } else {
        assert(cases.drop_last().take(k) =~= cases.take(k));
        lemma_cases_err_prefix(cases.drop_last(), k);
    }
}

/// The component type that a shape stands for, or the message of the
/// first refused type met, left to right (`resource types (own/borrow)
/// ...`, `map types ...`, `future types ...`, `stream types ...`,
/// `error-context types ...`).
#[verifier::loop_isolation(false)]
pub fn component_type_of(shape: &TypeShape) -> (r: Result<ComponentType, String>)
    ensures
        match r {
            Ok(t) => shape_outcome(*shape) == Ok::<TypeModel, Seq<char>>(t@),
            Err(m) => shape_outcome(*shape) == Err::<TypeModel, Seq<char>>(m@),
        },
    decreases shape,
{
    match shape {
        TypeShape::Bool => Ok(ComponentType::Bool),
        TypeShape::S8 => Ok(ComponentType::S8),
        TypeShape::U8 => Ok(ComponentType::U8),
        TypeShape::S16 => Ok(ComponentType::S16),
        TypeShape::U16 => Ok(ComponentType::U16),
        TypeShape::S32 => Ok(ComponentType::S32),
        TypeShape::U32 => Ok(ComponentType::U32),
        TypeShape::S64 => Ok(ComponentType::S64),
        TypeShape::U64 => Ok(ComponentType::U64),
        TypeShape::Float32 => Ok(ComponentType::Float32),
        TypeShape::Float64 => Ok(ComponentType::Float64),
        TypeShape::Char => Ok(ComponentType::Char),
        TypeShape::String => Ok(ComponentType::String),
        TypeShape::List(inner) => match component_type_of(inner) {
            Ok(t) => Ok(ComponentType::List(Box::new(t))),
            Err(m) => Err(m),
        },
        TypeShape::Option(inner) => match component_type_of(inner) {
            Ok(t) => Ok(ComponentType::Option(Box::new(t))),
            Err(m) => Err(m),
        },
        TypeShape::Record(fields) => {
            let mut v: Vec<RecordField> = Vec::new();
            let mut i: usize = 0;
            assert(fields@.take(0) =~= Seq::<ShapeField>::empty());
            while i < fields.len()
                invariant
                    i <= fields@.len(),
                    fields_outcome(fields@.take(i as int)) == Ok::<Seq<(Seq<char>, TypeModel)>, Seq<char>>(model_fields(v@)),
                decreases fields@.len() - i,
            {
                assert(fields@.take(i + 1).drop_last() =~= fields@.take(i as int));
                assert(fields@.take(i + 1).last() == fields@[i as int]);
                match component_type_of(&fields[i].ty) {
                    Ok(t) => {
                        let f = RecordField { name: fields[i].name.clone(), ty: t };
                        let ghost old_v = v@;
                        v.push(f);
                        assert(v@.drop_last() =~= old_v);
                    },
                    Err(m) => {
                        proof {
                            lemma_fields_err_prefix(fields@, i + 1);
                        }
                        return Err(m);
                    },
                }
                i = i + 1;
            }
            assert(fields@.take(fields@.len() as int) =~= fields@);
            Ok(ComponentType::Record(v))
        },
        TypeShape::Tuple(types) => {
            let mut v: Vec<ComponentType> = Vec::new();
            let mut i: usize = 0;
            assert(types@.take(0) =~= Seq::<TypeShape>::empty());
            while i < types.len()
                invariant
                    i <= types@.len(),
                    types_outcome(types@.take(i as int)) == Ok::<Seq<TypeModel>, Seq<char>>(model_types(v@)),
                decreases types@.len() - i,
            {
                assert(types@.take(i + 1).drop_last() =~= types@.take(i as int));
                assert(types@.take(i + 1).last() == types@[i as int]);
                match component_type_of(&types[i]) {
                    Ok(t) => {
                        let ghost old_v = v@;
                        v.push(t);
                        assert(v@.drop_last() =~= old_v);
                    },
                    Err(m) => {
                        proof {
                            lemma_types_err_prefix(types@, i + 1);
                        }
                        return Err(m);
                    },
                }
                i = i + 1;
            }
            assert(types@.take(types@.len() as int) =~= types@);
            Ok(ComponentType::Tuple(v))
        },
        TypeShape::Variant(cases) => {
            let mut v: Vec<VariantCase> = Vec::new();
            let mut i: usize = 0;
            assert(cases@.take(0) =~= Seq::<ShapeCase>::empty());
            while i < cases.len()
                invariant
                    i <= cases@.len(),
                    cases_outcome(cases@.take(i as int)) == Ok::<Seq<(Seq<char>, Option<TypeModel>)>, Seq<char>>(model_cases(v@)),
                decreases cases@.len() - i,
            {
                assert(cases@.take(i + 1).drop_last() =~= cases@.take(i as int));
                assert(cases@.take(i + 1).last() == cases@[i as int]);
                let ty = match &cases[i].ty {
                    None => None,
                    Some(t) => match component_type_of(t) {
                        Ok(x) => Some(x),
                        Err(m) => {
                            proof {
                                lemma_cases_err_prefix(cases@, i + 1);
                            }
                            return Err(m);
                        },
                    },
                };
                let c = VariantCase { name: cases[i].name.clone(), ty };
                let ghost old_v = v@;
                v.push(c);
                assert(v@.drop_last() =~= old_v);
                i = i + 1;
            }
            assert(cases@.take(cases@.len() as int) =~= cases@);
            Ok(ComponentType::Variant(v))
        },
        TypeShape::Enum(names) => Ok(ComponentType::Enum(copy_names(names))),
        TypeShape::Flags(names) => Ok(ComponentType::Flags(copy_names(names))),
        TypeShape::Result { ok, err } => {
            let ok2 = match ok {
                Some(t) => match component_type_of(t) {
                    Ok(x) => Some(Box::new(x)),
                    Err(m) => return Err(m),
                },
                None => None,
            };
            let err2 = match err {
                Some(t) => match component_type_of(t) {
                    Ok(x) => Some(Box::new(x)),
                    Err(m) => return Err(m),
                },
                None => None,
            };
            Ok(ComponentType::Result { ok: ok2, err: err2 })
        },
        TypeShape::Own | TypeShape::Borrow => Err(String::from_str(
            "resource types (own/borrow) are not yet supported for host function validation",
        )),
        TypeShape::MapType => {
            proof {
                reveal_strlit("map types are not yet supported for host function validation");
                reveal_strlit("map");
                reveal_strlit(" types are not yet supported for host function validation");
                assert(kind_refusal("map"@) =~= "map types are not yet supported for host function validation"@);
            }
            Err(String::from_str("map types are not yet supported for host function validation"))
        },
        TypeShape::Future => {
            proof {
                reveal_strlit("future types are not yet supported for host function validation");
                reveal_strlit("future");
                reveal_strlit(" types are not yet supported for host function validation");
                assert(kind_refusal("future"@) =~= "future types are not yet supported for host function validation"@);
            }
            Err(String::from_str("future types are not yet supported for host function validation"))
        },
        TypeShape::Stream => {
            proof {
                reveal_strlit("stream types are not yet supported for host function validation");
                reveal_strlit("stream");
                reveal_strlit(" types are not yet supported for host function validation");
                assert(kind_refusal("stream"@) =~= "stream types are not yet supported for host function validation"@);
            }
            Err(String::from_str("stream types are not yet supported for host function validation"))
        },
        TypeShape::ErrorContext => {
            proof {
                reveal_strlit("error-context types are not yet supported for host function validation");
                reveal_strlit("error-context");
                reveal_strlit(" types are not yet supported for host function validation");
                assert(kind_refusal("error-context"@) =~= "error-context types are not yet supported for host function validation"@);
            }
            Err(String::from_str("error-context types are not yet supported for host function validation"))
        },
    }
}



/// Whether a component type has the structure of a shape: the same kind at
/// every node, the same names in the same order, and parts that match the
/// shape's parts.
pub open spec fn shape_matches(s: TypeShape, t: TypeModel) -> bool
    decreases s,
{
    match s {
        TypeShape::Bool => t == TypeModel::Bool,
        TypeShape::S8 => t == TypeModel::S8,
        TypeShape::U8 => t == TypeModel::U8,
        TypeShape::S16 => t == TypeModel::S16,
        TypeShape::U16 => t == TypeModel::U16,
        TypeShape::S32 => t == TypeModel::S32,
        TypeShape::U32 => t == TypeModel::U32,
        TypeShape::S64 => t == TypeModel::S64,
        TypeShape::U64 => t == TypeModel::U64,
        TypeShape::Float32 => t == TypeModel::Float32,
        TypeShape::Float64 => t == TypeModel::Float64,
        TypeShape::Char => t == TypeModel::Char,
        TypeShape::String => t == TypeModel::Text,
        TypeShape::List(inner) => t matches TypeModel::List(x) && shape_matches(*inner, *x),
        TypeShape::Option(inner) => t matches TypeModel::Optional(x) && shape_matches(*inner, *x),
        TypeShape::Record(fields) => t matches TypeModel::Record(fs) && fields_match(fields@, fs),
        TypeShape::Tuple(types) => t matches TypeModel::Tuple(ts) && shapes_match(types@, ts),
        TypeShape::Variant(cases) => t matches TypeModel::Variant(cs) && cases_match(cases@, cs),
        TypeShape::Enum(names) => t == TypeModel::Enum(names@.map_values(|n: String| n@)),
        TypeShape::Flags(names) => t == TypeModel::Flags(names@.map_values(|n: String| n@)),
        TypeShape::Result { ok, err } => t matches TypeModel::Outcome(o, e)
            && (match ok {
                None => o is None,
                Some(x) => (o matches Some(y) && shape_matches(*x, *y)),
            })
            && (match err {
                None => e is None,
                Some(x) => (e matches Some(y) && shape_matches(*x, *y)),
            }),
        _ => false,
    }
}

/// Whether the types of a tuple match the shapes one to one.
pub open spec fn shapes_match(shapes: Seq<TypeShape>, types: Seq<TypeModel>) -> bool
    decreases shapes,
{
    shapes.len() == types.len() && (shapes.len() == 0 || (
        shapes_match(shapes.drop_last(), types.drop_last()) && shape_matches(shapes.last(), types.last())
    ))
}

/// Whether the fields of a record match the field shapes one to one.
pub open spec fn fields_match(shapes: Seq<ShapeField>, fields: Seq<(Seq<char>, TypeModel)>) -> bool
    decreases shapes,
{
    shapes.len() == fields.len() && (shapes.len() == 0 || (
        fields_match(shapes.drop_last(), fields.drop_last())
        && fields.last().0 == shapes.last().name@
        && shape_matches(shapes.last().ty, fields.last().1)
    ))
}

/// Whether the cases of a variant match the case shapes one to one.
pub open spec fn cases_match(shapes: Seq<ShapeCase>, cases: Seq<(Seq<char>, Option<TypeModel>)>) -> bool
    decreases shapes,
{
    shapes.len() == cases.len() && (shapes.len() == 0 || (
        cases_match(shapes.drop_last(), cases.drop_last())
        && cases.last().0 == shapes.last().name@
        && match shapes.last().ty {
            None => cases.last().1 is None,
            Some(x) => (cases.last().1 matches Some(y) && shape_matches(x, y)),
        }
    ))
}

/// Whether a shape holds no kind that host functions refuse (resources,
/// maps, futures, streams, error contexts), at any depth.
pub open spec fn shape_supported(s: TypeShape) -> bool
    decreases s,
{
    match s {
        TypeShape::List(inner) => shape_supported(*inner),
        TypeShape::Option(inner) => shape_supported(*inner),
        TypeShape::Record(fields) => fields_supported(fields@),
        TypeShape::Tuple(types) => shapes_supported(types@),
        TypeShape::Variant(cases) => cases_supported(cases@),
        TypeShape::Result { ok, err } => (match ok { Some(x) => shape_supported(*x), None => true })
            && (match err { Some(x) => shape_supported(*x), None => true }),
        TypeShape::Own | TypeShape::Borrow | TypeShape::MapType | TypeShape::Future | TypeShape::Stream
            | TypeShape::ErrorContext => false,
        _ => true,
    }
}

/// Whether no shape of a list holds a refused kind.
pub open spec fn shapes_supported(shapes: Seq<TypeShape>) -> bool
    decreases shapes,
{
    shapes.len() == 0 || (shapes_supported(shapes.drop_last()) && shape_supported(shapes.last()))
}

/// Whether no field shape holds a refused kind.
pub open spec fn fields_supported(shapes: Seq<ShapeField>) -> bool
    decreases shapes,
{
    shapes.len() == 0 || (fields_supported(shapes.drop_last()) && shape_supported(shapes.last().ty))
}

/// Whether no case payload shape holds a refused kind.
pub open spec fn cases_supported(shapes: Seq<ShapeCase>) -> bool
    decreases shapes,
{
    shapes.len() == 0 || (cases_supported(shapes.drop_last()) && match shapes.last().ty {
        Some(x) => shape_supported(x),
        None => true,
    })
}

/// A shape is described by a component type exactly when it holds no
/// refused kind, and then the type has the shape's structure: the same
/// kind at every node (an `option` stays an `option`, a `list` a `list`,
/// ...), with the same names and parts.
pub proof fn lemma_shape_structure(s: TypeShape)
    ensures
        shape_outcome(s) is Ok <==> shape_supported(s),
        shape_outcome(s) is Ok ==> shape_matches(s, shape_outcome(s)->Ok_0),
    decreases s,
{
    match s {
        TypeShape::List(inner) => lemma_shape_structure(*inner),
        TypeShape::Option(inner) => lemma_shape_structure(*inner),
        TypeShape::Record(fields) => lemma_fields_structure(fields@),
        TypeShape::Tuple(types) => lemma_shapes_structure(types@),
        TypeShape::Variant(cases) => lemma_cases_structure(cases@),
        TypeShape::Result { ok, err } => {
            match ok {
                Some(x) => lemma_shape_structure(*x),
                None => {},
            }
            match err {
                Some(x) => lemma_shape_structure(*x),
                None => {},
            }
        },
        _ => {},
    }
}

proof fn lemma_shapes_structure(shapes: Seq<TypeShape>)
    ensures
        types_outcome(shapes) is Ok <==> shapes_supported(shapes),
        types_outcome(shapes) is Ok ==> shapes_match(shapes, types_outcome(shapes)->Ok_0),
    decreases shapes,
{
    if shapes.len() > 0 {
        lemma_shapes_structure(shapes.drop_last());
        lemma_shape_structure(shapes.last());
        if types_outcome(shapes) is Ok {
            let ts = types_outcome(shapes)->Ok_0;
            assert(ts.drop_last() =~= types_outcome(shapes.drop_last())->Ok_0);
        }
    }
}

proof fn lemma_fields_structure(shapes: Seq<ShapeField>)
    ensures
        fields_outcome(shapes) is Ok <==> fields_supported(shapes),
        fields_outcome(shapes) is Ok ==> fields_match(shapes, fields_outcome(shapes)->Ok_0),
    decreases shapes,
{
    if shapes.len() > 0 {
        lemma_fields_structure(shapes.drop_last());
        lemma_shape_structure(shapes.last().ty);
        if fields_outcome(shapes) is Ok {
            let fs = fields_outcome(shapes)->Ok_0;
            assert(fs.drop_last() =~= fields_outcome(shapes.drop_last())->Ok_0);
        }
    }
}

proof fn lemma_cases_structure(shapes: Seq<ShapeCase>)
    ensures
        cases_outcome(shapes) is Ok <==> cases_supported(shapes),
        cases_outcome(shapes) is Ok ==> cases_match(shapes, cases_outcome(shapes)->Ok_0),
    decreases shapes,
{
    if shapes.len() > 0 {
        lemma_cases_structure(shapes.drop_last());
        match shapes.last().ty {
            Some(x) => lemma_shape_structure(x),
            None => {},
        }
        if cases_outcome(shapes) is Ok {
            let cs = cases_outcome(shapes)->Ok_0;
            assert(cs.drop_last() =~= cases_outcome(shapes.drop_last())->Ok_0);
        }
    }
}

} // verus!
