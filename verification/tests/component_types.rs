use wasmtime_rb::type_shape::{component_type_of, ShapeCase, ShapeField, TypeShape};
use wasmtime_rb::component_type::{
    extract_component_type, types_match, ComponentType, RecordField, TypeFactory, VariantCase,
};

fn s(x: &str) -> String {
    x.to_string()
}

#[test]
fn primitive_types_display_their_names() {
    assert_eq!(ComponentType::Bool.to_string(), "bool");
    assert_eq!(ComponentType::S64.to_string(), "s64");
    assert_eq!(ComponentType::Float32.to_string(), "float32");
    assert_eq!(ComponentType::String.to_string(), "string");
    assert_eq!(ComponentType::Char.to_string(), "char");
}

#[test]
fn compound_types_display_their_parts() {
    let rec = ComponentType::Record(vec![
        RecordField { name: s("x"), ty: ComponentType::S32 },
        RecordField { name: s("tags"), ty: ComponentType::List(Box::new(ComponentType::String)) },
    ]);
    assert_eq!(rec.to_string(), "record {x: s32, tags: list<string>}");
    let var = ComponentType::Variant(vec![
        VariantCase { name: s("circle"), ty: Some(ComponentType::U32) },
        VariantCase { name: s("none"), ty: None },
    ]);
    assert_eq!(var.to_string(), "variant {circle(u32), none}");
    let res = ComponentType::Result { ok: Some(Box::new(ComponentType::U8)), err: None };
    assert_eq!(res.to_string(), "result<u8, _>");
    let tup = ComponentType::Tuple(vec![ComponentType::S8, ComponentType::Option(Box::new(ComponentType::Bool))]);
    assert_eq!(tup.to_string(), "tuple<s8, option<bool>>");
    assert_eq!(ComponentType::Enum(vec![s("a"), s("b")]).to_string(), "enum {a, b}");
    assert_eq!(ComponentType::Flags(vec![s("r"), s("w")]).to_string(), "flags {r, w}");
}

#[test]
fn equal_types_match() {
    let t = ComponentType::List(Box::new(ComponentType::Tuple(vec![ComponentType::U8, ComponentType::String])));
    let u = ComponentType::List(Box::new(ComponentType::Tuple(vec![ComponentType::U8, ComponentType::String])));
    assert_eq!(types_match(&t, &u), Ok(()));
    assert_eq!(types_match(&t, &t.duplicate()), Ok(()));
}

#[test]
fn kind_mismatch_names_both_types() {
    assert_eq!(types_match(&ComponentType::U8, &ComponentType::S8), Err(s("expected s8, got u8")));
    let d = ComponentType::List(Box::new(ComponentType::U8));
    let e = ComponentType::List(Box::new(ComponentType::String));
    assert_eq!(types_match(&d, &e), Err(s("list element type mismatch: expected string, got u8")));
    let d = ComponentType::Option(Box::new(ComponentType::Bool));
    let e = ComponentType::Option(Box::new(ComponentType::Char));
    assert_eq!(types_match(&d, &e), Err(s("option type mismatch: expected char, got bool")));
}

#[test]
fn record_mismatches() {
    let one = ComponentType::Record(vec![RecordField { name: s("x"), ty: ComponentType::S32 }]);
    let two = ComponentType::Record(vec![
        RecordField { name: s("x"), ty: ComponentType::S32 },
        RecordField { name: s("y"), ty: ComponentType::S32 },
    ]);
    assert_eq!(
        types_match(&one, &two),
        Err(s("record field count mismatch: declared has 1 fields, expected has 2"))
    );
    let renamed = ComponentType::Record(vec![RecordField { name: s("z"), ty: ComponentType::S32 }]);
    assert_eq!(
        types_match(&one, &renamed),
        Err(s("record field name mismatch: declared has 'x', expected has 'z'"))
    );
    let retyped = ComponentType::Record(vec![RecordField { name: s("x"), ty: ComponentType::U32 }]);
    assert_eq!(
        types_match(&one, &retyped),
        Err(s("record field 'x' type mismatch: expected u32, got s32"))
    );
}

#[test]
fn tuple_mismatches() {
    let d = ComponentType::Tuple(vec![ComponentType::U8, ComponentType::U8]);
    let e = ComponentType::Tuple(vec![ComponentType::U8]);
    assert_eq!(types_match(&d, &e), Err(s("tuple length mismatch: declared has 2 elements, expected has 1")));
    let e2 = ComponentType::Tuple(vec![ComponentType::U8, ComponentType::S8]);
    assert_eq!(types_match(&d, &e2), Err(s("tuple element 1 mismatch: expected s8, got u8")));
}

#[test]
fn variant_mismatches() {
    let d = ComponentType::Variant(vec![VariantCase { name: s("a"), ty: Some(ComponentType::U8) }]);
    let e = ComponentType::Variant(vec![VariantCase { name: s("a"), ty: None }]);
    assert_eq!(types_match(&d, &e), Err(s("variant case 'a': declared has payload, expected has none")));
    assert_eq!(types_match(&e, &d), Err(s("variant case 'a': declared has no payload, expected has payload")));
    let f = ComponentType::Variant(vec![VariantCase { name: s("b"), ty: None }]);
    assert_eq!(types_match(&e, &f), Err(s("variant case name mismatch: declared has 'a', expected has 'b'")));
    let g = ComponentType::Variant(vec![]);
    assert_eq!(types_match(&e, &g), Err(s("variant case count mismatch: declared has 1 cases, expected has 0")));
}

#[test]
fn enum_flags_and_result_mismatches() {
    let d = ComponentType::Enum(vec![s("a"), s("b")]);
    let e = ComponentType::Enum(vec![s("a"), s("c")]);
    assert_eq!(types_match(&d, &e), Err(s("enum case mismatch: declared has 'b', expected has 'c'")));
    let f1 = ComponentType::Flags(vec![s("r")]);
    let f2 = ComponentType::Flags(vec![s("r"), s("w")]);
    assert_eq!(types_match(&f1, &f2), Err(s("flags count mismatch: declared has 1 flags, expected has 2")));
    let r1 = ComponentType::Result { ok: Some(Box::new(ComponentType::U8)), err: None };
    let r2 = ComponentType::Result { ok: None, err: None };
    assert_eq!(
        types_match(&r1, &r2),
        Err(s("result ok type mismatch: declared has ok type, expected has none"))
    );
    let r3 = ComponentType::Result { ok: None, err: Some(Box::new(ComponentType::String)) };
    assert_eq!(
        types_match(&r2, &r3),
        Err(s("result err type mismatch: declared has no err type, expected has err type"))
    );
}

#[test]
fn matching_is_symmetric_on_concrete_types() {
    let a = ComponentType::Tuple(vec![ComponentType::U8]);
    let b = ComponentType::Tuple(vec![ComponentType::U8]);
    assert_eq!(types_match(&a, &b).is_ok(), types_match(&b, &a).is_ok());
    let c = ComponentType::Tuple(vec![ComponentType::S8]);
    assert_eq!(types_match(&a, &c).is_ok(), types_match(&c, &a).is_ok());
}

#[test]
fn type_factory_builds_types() {
    let list = TypeFactory::list(&TypeFactory::u8());
    assert_eq!(extract_component_type(&list).to_string(), "list<u8>");
    let res = TypeFactory::result(Some(&TypeFactory::string()), None);
    assert_eq!(res.inner().to_string(), "result<string, _>");
    let x = TypeFactory::s32();
    let rec = TypeFactory::record(&vec![(s("x"), &x), (s("y"), &x)]);
    assert_eq!(rec.inner().to_string(), "record {x: s32, y: s32}");
    let t = TypeFactory::tuple(&vec![&x, &list]);
    assert_eq!(t.inner().to_string(), "tuple<s32, list<u8>>");
    let v = TypeFactory::variant(&vec![(s("some"), Some(&x)), (s("none"), None)]);
    assert_eq!(v.inner().to_string(), "variant {some(s32), none}");
    assert_eq!(TypeFactory::enum_type(&vec![s("red")]).inner().to_string(), "enum {red}");
    assert_eq!(TypeFactory::flags(&vec![s("a"), s("b")]).inner().to_string(), "flags {a, b}");
    assert_eq!(TypeFactory::option(&TypeFactory::bool()).inner().to_string(), "option<bool>");
    assert_eq!(TypeFactory::float64().inner().to_string(), "float64");
    assert_eq!(TypeFactory::char().inner().to_string(), "char");
}

#[test]
fn shapes_become_component_types() {
    let shape = TypeShape::Record(vec![
        ShapeField { name: s("xs"), ty: TypeShape::List(Box::new(TypeShape::U8)) },
        ShapeField {
            name: s("v"),
            ty: TypeShape::Variant(vec![
                ShapeCase { name: s("none"), ty: None },
                ShapeCase { name: s("some"), ty: Some(TypeShape::Tuple(vec![TypeShape::S32, TypeShape::String])) },
            ]),
        },
        ShapeField {
            name: s("r"),
            ty: TypeShape::Result { ok: None, err: Some(Box::new(TypeShape::Enum(vec![s("a"), s("b")]))) },
        },
    ]);
    let t = component_type_of(&shape).unwrap();
    assert_eq!(
        t.to_string(),
        "record {xs: list<u8>, v: variant {none, some(tuple<s32, string>)}, r: result<_, enum {a, b}>}"
    );
}

#[test]
fn unsupported_shapes_are_refused_with_the_first_refusal() {
    let refusal = |shape: TypeShape| component_type_of(&shape).unwrap_err();
    assert_eq!(
        refusal(TypeShape::Own),
        "resource types (own/borrow) are not yet supported for host function validation"
    );
    assert_eq!(refusal(TypeShape::MapType), "map types are not yet supported for host function validation");
    assert_eq!(
        refusal(TypeShape::Tuple(vec![TypeShape::Bool, TypeShape::Stream, TypeShape::Future])),
        "stream types are not yet supported for host function validation"
    );
    assert_eq!(
        refusal(TypeShape::Option(Box::new(TypeShape::ErrorContext))),
        "error-context types are not yet supported for host function validation"
    );
    assert_eq!(
        refusal(TypeShape::Result { ok: Some(Box::new(TypeShape::Borrow)), err: Some(Box::new(TypeShape::Future)) }),
        "resource types (own/borrow) are not yet supported for host function validation"
    );
}
