use wasmtime_rb::component_type::{ComponentType, RecordField, VariantCase};
use wasmtime_rb::component_value::{
    component_val_to_rb, convert_params, rb_to_component_val, results_to_rb, ComponentVal, RbInput,
    RbKind, RbOutput,
};
use wasmtime_rb::errors::{ErrorClass, RbError};

fn no(what: &str) -> RbError {
    RbError::Error { class: ErrorClass::Type, message: format!("no {what}") }
}

fn plain(kind: RbKind, classname: &str, inspect: &str) -> RbInput {
    RbInput {
        kind,
        classname: classname.to_string(),
        inspect: inspect.to_string(),
        as_s8: Err(no("s8")),
        as_u8: Err(no("u8")),
        as_s16: Err(no("s16")),
        as_u16: Err(no("u16")),
        as_s32: Err(no("s32")),
        as_u32: Err(no("u32")),
        as_s64: Err(no("s64")),
        as_u64: Err(no("u64")),
        as_f32: Err(no("f32")),
        as_f64: Err(no("f64")),
        as_char: Err(no("char")),
        as_string: Err(no("string")),
        as_flags: Err(no("flags")),
        as_array: Err(no("array")),
        as_hash: Err(no("hash")),
        variant_name: Err(no("name")),
        variant_value: Err(no("value")),
        is_ok: Err(no("ok?")),
        ok_value: Err(no("ok")),
        error_value: Err(no("error")),
    }
}

fn nil() -> RbInput {
    plain(RbKind::Nil, "NilClass", "nil")
}

fn boolean(b: bool) -> RbInput {
    if b {
        plain(RbKind::True, "TrueClass", "true")
    } else {
        plain(RbKind::False, "FalseClass", "false")
    }
}

fn range(what: &str) -> RbError {
    RbError::Error { class: ErrorClass::Foreign(7), message: format!("integer out of range for {what}") }
}

fn integer(i: i128) -> RbInput {
    let mut n = plain(RbKind::Other, "Integer", &i.to_string());
    n.as_s8 = i8::try_from(i).map_err(|_| range("s8"));
    n.as_u8 = u8::try_from(i).map_err(|_| range("u8"));
    n.as_s16 = i16::try_from(i).map_err(|_| range("s16"));
    n.as_u16 = u16::try_from(i).map_err(|_| range("u16"));
    n.as_s32 = i32::try_from(i).map_err(|_| range("s32"));
    n.as_u32 = u32::try_from(i).map_err(|_| range("u32"));
    n.as_s64 = i64::try_from(i).map_err(|_| range("s64"));
    n.as_u64 = u64::try_from(i).map_err(|_| range("u64"));
    n.as_f64 = Ok((i as f64).to_bits());
    n.as_f32 = Ok((i as f32).to_bits());
    n
}

fn string(s: &str) -> RbInput {
    let mut n = plain(RbKind::Other, "String", &format!("{s:?}"));
    n.as_string = Ok(s.to_string());
    let mut chars = s.chars();
    n.as_char = match (chars.next(), chars.next()) {
        (Some(c), None) => Ok(c),
        _ => Err(no("single char")),
    };
    n
}

fn array(items: Vec<RbInput>) -> RbInput {
    let mut n = plain(RbKind::Other, "Array", "[...]");
    let names: Option<Vec<String>> = items.iter().map(|i| i.as_string.as_ref().ok().cloned()).collect();
    n.as_flags = names.ok_or_else(|| no("string item"));
    n.as_array = Ok(items);
    n
}

fn hash(entries: Vec<(&str, RbInput)>) -> RbInput {
    let mut n = plain(RbKind::Other, "Hash", "{...}");
    n.as_hash = Ok(entries.into_iter().map(|(k, v)| (k.to_string(), v)).collect());
    n
}

fn variant(name: &str, value: RbInput) -> RbInput {
    let mut n = plain(RbKind::Other, "Wasmtime::Component::Variant", "#<Variant>");
    n.variant_name = Ok(name.to_string());
    n.variant_value = Ok(Box::new(value));
    n
}

fn outcome(ok: bool, value: RbInput) -> RbInput {
    let mut n = plain(RbKind::Other, "Wasmtime::Component::Result", "#<Result>");
    n.is_ok = Ok(ok);
    if ok {
        n.ok_value = Ok(Box::new(value));
    } else {
        n.error_value = Ok(Box::new(value));
    }
    n
}

fn message(e: &RbError) -> (ErrorClass, String) {
    match e {
        RbError::Error { class, message } => (*class, message.clone()),
        RbError::Exception { class, message } => (*class, message.clone()),
        RbError::Jump => (ErrorClass::Base, "<jump>".to_string()),
    }
}

fn point_type() -> ComponentType {
    ComponentType::Record(vec![
        RecordField { name: "x".to_string(), ty: ComponentType::S32 },
        RecordField { name: "y".to_string(), ty: ComponentType::S32 },
    ])
}

fn shape_type() -> ComponentType {
    ComponentType::Variant(vec![
        VariantCase { name: "circle".to_string(), ty: Some(ComponentType::U32) },
        VariantCase { name: "none".to_string(), ty: None },
    ])
}

#[test]
fn bool_accepts_only_true_and_false() {
    assert_eq!(rb_to_component_val(&boolean(true), &ComponentType::Bool).unwrap(), ComponentVal::Bool(true));
    assert_eq!(rb_to_component_val(&boolean(false), &ComponentType::Bool).unwrap(), ComponentVal::Bool(false));
    let e = rb_to_component_val(&integer(1), &ComponentType::Bool).unwrap_err();
    assert_eq!(message(&e), (ErrorClass::Type, "no implicit conversion of Integer into boolean".to_string()));
    let e = rb_to_component_val(&nil(), &ComponentType::Bool).unwrap_err();
    assert_eq!(message(&e), (ErrorClass::Type, "no implicit conversion of NilClass into boolean".to_string()));
}

#[test]
fn integers_take_ruby_conversion() {
    assert_eq!(rb_to_component_val(&integer(-5), &ComponentType::S8).unwrap(), ComponentVal::S8(-5));
    assert_eq!(rb_to_component_val(&integer(200), &ComponentType::U8).unwrap(), ComponentVal::U8(200));
    assert_eq!(rb_to_component_val(&integer(70000), &ComponentType::U32).unwrap(), ComponentVal::U32(70000));
    assert_eq!(rb_to_component_val(&integer(-1), &ComponentType::S64).unwrap(), ComponentVal::S64(-1));
    let e = rb_to_component_val(&integer(300), &ComponentType::U8).unwrap_err();
    assert_eq!(message(&e), (ErrorClass::Foreign(7), "integer out of range for u8".to_string()));
}

#[test]
fn floats_keep_their_bits() {
    assert_eq!(rb_to_component_val(&integer(2), &ComponentType::Float64).unwrap(), ComponentVal::Float64(2.0f64.to_bits()));
    assert_eq!(rb_to_component_val(&integer(2), &ComponentType::Float32).unwrap(), ComponentVal::Float32(2.0f32.to_bits()));
}

#[test]
fn strings_chars_and_enums() {
    assert_eq!(rb_to_component_val(&string("hi"), &ComponentType::String).unwrap(), ComponentVal::String("hi".to_string()));
    assert_eq!(rb_to_component_val(&string("é"), &ComponentType::Char).unwrap(), ComponentVal::Char('é'));
    let e = ComponentType::Enum(vec!["a".to_string(), "b".to_string()]);
    assert_eq!(rb_to_component_val(&string("b"), &e).unwrap(), ComponentVal::Enum("b".to_string()));
    let err = rb_to_component_val(&integer(1), &ComponentType::String).unwrap_err();
    assert_eq!(message(&err), (ErrorClass::Type, "no string".to_string()));
}

#[test]
fn lists_report_the_failing_index() {
    let t = ComponentType::List(Box::new(ComponentType::U8));
    let v = rb_to_component_val(&array(vec![integer(1), integer(2)]), &t).unwrap();
    assert_eq!(v, ComponentVal::List(vec![ComponentVal::U8(1), ComponentVal::U8(2)]));
    let e = rb_to_component_val(&array(vec![integer(1), integer(256), integer(-1)]), &t).unwrap_err();
    assert_eq!(message(&e), (ErrorClass::Foreign(7), "integer out of range for u8 (list item at index 1)".to_string()));
    let e = rb_to_component_val(&integer(3), &t).unwrap_err();
    assert_eq!(message(&e), (ErrorClass::Type, "no array".to_string()));
}

#[test]
fn tuples_check_their_length() {
    let t = ComponentType::Tuple(vec![ComponentType::S32, ComponentType::String]);
    let v = rb_to_component_val(&array(vec![integer(1), string("a")]), &t).unwrap();
    assert_eq!(v, ComponentVal::Tuple(vec![ComponentVal::S32(1), ComponentVal::String("a".to_string())]));
    let e = rb_to_component_val(&array(vec![integer(1)]), &t).unwrap_err();
    assert_eq!(message(&e), (ErrorClass::Type, "invalid array length for tuple (given 1, expected 2)".to_string()));
    let e = rb_to_component_val(&array(vec![integer(1), integer(2)]), &t).unwrap_err();
    assert_eq!(message(&e), (ErrorClass::Type, "no string (tuple value at index 1)".to_string()));
}

#[test]
fn records_read_fields_by_name() {
    let v = rb_to_component_val(&hash(vec![("y", integer(2)), ("x", integer(1))]), &point_type()).unwrap();
    assert_eq!(
        v,
        ComponentVal::Record(vec![("x".to_string(), ComponentVal::S32(1)), ("y".to_string(), ComponentVal::S32(2))])
    );
    let e = rb_to_component_val(&hash(vec![("x", integer(1))]), &point_type()).unwrap_err();
    assert_eq!(message(&e), (ErrorClass::Base, "struct field missing: y".to_string()));
    let e = rb_to_component_val(&hash(vec![("x", string("a")), ("y", integer(1))]), &point_type()).unwrap_err();
    assert_eq!(message(&e), (ErrorClass::Type, "no s32 (struct field \"x\")".to_string()));
}

#[test]
fn variants_find_their_case() {
    let v = rb_to_component_val(&variant("circle", integer(3)), &shape_type()).unwrap();
    assert_eq!(v, ComponentVal::Variant("circle".to_string(), Some(Box::new(ComponentVal::U32(3)))));
    let v = rb_to_component_val(&variant("none", nil()), &shape_type()).unwrap();
    assert_eq!(v, ComponentVal::Variant("none".to_string(), None));
    let e = rb_to_component_val(&variant("square", nil()), &shape_type()).unwrap_err();
    assert_eq!(
        message(&e),
        (ErrorClass::Base, "invalid variant case \"square\", valid cases: [\"circle\", \"none\"]".to_string())
    );
    let e = rb_to_component_val(&variant("none", integer(1)), &shape_type()).unwrap_err();
    assert_eq!(message(&e), (ErrorClass::Base, "expected no value for variant case \"none\", got 1".to_string()));
    let e = rb_to_component_val(&variant("circle", integer(-1)), &shape_type()).unwrap_err();
    assert_eq!(
        message(&e),
        (ErrorClass::Foreign(7), "integer out of range for u32 (variant value for \"circle\")".to_string())
    );
}

#[test]
fn options_map_nil_to_none() {
    let t = ComponentType::Option(Box::new(ComponentType::U8));
    assert_eq!(rb_to_component_val(&nil(), &t).unwrap(), ComponentVal::Option(None));
    assert_eq!(rb_to_component_val(&integer(4), &t).unwrap(), ComponentVal::Option(Some(Box::new(ComponentVal::U8(4)))));
}

#[test]
fn results_follow_their_branch() {
    let t = ComponentType::Result { ok: Some(Box::new(ComponentType::U8)), err: None };
    assert_eq!(
        rb_to_component_val(&outcome(true, integer(1)), &t).unwrap(),
        ComponentVal::Result(Ok(Some(Box::new(ComponentVal::U8(1)))))
    );
    assert_eq!(rb_to_component_val(&outcome(false, nil()), &t).unwrap(), ComponentVal::Result(Err(None)));
    let e = rb_to_component_val(&outcome(false, integer(1)), &t).unwrap_err();
    assert_eq!(message(&e), (ErrorClass::Base, "expected nil for result<O, _> error branch, got 1".to_string()));
    let t2 = ComponentType::Result { ok: None, err: None };
    let e = rb_to_component_val(&outcome(true, string("x")), &t2).unwrap_err();
    assert_eq!(message(&e), (ErrorClass::Base, "expected nil for result<_, E> ok branch, got \"x\"".to_string()));
}

#[test]
fn flags_are_lists_of_names() {
    let t = ComponentType::Flags(vec!["a".to_string(), "b".to_string()]);
    let v = rb_to_component_val(&array(vec![string("a")]), &t).unwrap();
    assert_eq!(v, ComponentVal::Flags(vec!["a".to_string()]));
}

#[test]
fn values_go_to_ruby() {
    assert_eq!(component_val_to_rb(&ComponentVal::U16(7)).unwrap(), RbOutput::Integer(7));
    assert_eq!(component_val_to_rb(&ComponentVal::Option(None)).unwrap(), RbOutput::Nil);
    assert_eq!(component_val_to_rb(&ComponentVal::Enum("red".to_string())).unwrap(), RbOutput::Str("red".to_string()));
    assert_eq!(
        component_val_to_rb(&ComponentVal::Flags(vec!["a".to_string()])).unwrap(),
        RbOutput::Array(vec![RbOutput::Str("a".to_string())])
    );
    assert_eq!(
        component_val_to_rb(&ComponentVal::Variant("none".to_string(), None)).unwrap(),
        RbOutput::Variant { name: "none".to_string(), value: Box::new(RbOutput::Nil) }
    );
    assert_eq!(
        component_val_to_rb(&ComponentVal::Result(Err(Some(Box::new(ComponentVal::Bool(true)))))).unwrap(),
        RbOutput::Outcome { ok: false, value: Box::new(RbOutput::Bool(true)) }
    );
    assert_eq!(
        component_val_to_rb(&ComponentVal::Record(vec![("x".to_string(), ComponentVal::S8(-1))])).unwrap(),
        RbOutput::Hash(vec![("x".to_string(), RbOutput::Integer(-1))])
    );
}

#[test]
fn resources_are_not_implemented() {
    let e = component_val_to_rb(&ComponentVal::Resource).unwrap_err();
    assert_eq!(message(&e), (ErrorClass::NotImplemented, "Resource not implemented".to_string()));
    let rec = ComponentVal::Record(vec![("r".to_string(), ComponentVal::Resource)]);
    let e = component_val_to_rb(&rec).unwrap_err();
    assert_eq!(
        message(&e),
        (ErrorClass::NotImplemented, "Resource not implemented (struct field \"r\")".to_string())
    );
}

/// The Ruby value that Ruby reads back from an object built for a value.
fn read_back(o: &RbOutput) -> RbInput {
    match o {
        RbOutput::Nil => nil(),
        RbOutput::Bool(b) => boolean(*b),
        RbOutput::Integer(i) => integer(*i),
        RbOutput::Str(s) => string(s),
        RbOutput::Array(items) => array(items.iter().map(read_back).collect()),
        RbOutput::Hash(es) => hash(es.iter().map(|(k, v)| (k.as_str(), read_back(v))).collect()),
        RbOutput::Variant { name, value } => variant(name, read_back(value)),
        RbOutput::Outcome { ok, value } => outcome(*ok, read_back(value)),
        RbOutput::Char(c) => string(&c.to_string()),
        RbOutput::Float32(b) => {
            let mut n = plain(RbKind::Other, "Float", "1.0");
            n.as_f32 = Ok(*b);
            n
        },
        RbOutput::Float64(b) => {
            let mut n = plain(RbKind::Other, "Float", "1.0");
            n.as_f64 = Ok(*b);
            n
        },
    }
}

#[test]
fn values_roundtrip_through_ruby() {
    let t = ComponentType::List(Box::new(ComponentType::Tuple(vec![
        point_type(),
        shape_type(),
        ComponentType::Option(Box::new(ComponentType::String)),
    ])));
    let v = ComponentVal::List(vec![ComponentVal::Tuple(vec![
        ComponentVal::Record(vec![("x".to_string(), ComponentVal::S32(-3)), ("y".to_string(), ComponentVal::S32(4))]),
        ComponentVal::Variant("circle".to_string(), Some(Box::new(ComponentVal::U32(9)))),
        ComponentVal::Option(Some(Box::new(ComponentVal::String("hey".to_string())))),
    ])]);
    let o = component_val_to_rb(&v).unwrap();
    let back = rb_to_component_val(&read_back(&o), &t).unwrap();
    assert_eq!(back, v);
}

#[test]
fn params_check_count_and_index() {
    let types = vec![ComponentType::U8, ComponentType::String];
    let e = convert_params(&vec![integer(1)], &types).unwrap_err();
    assert_eq!(message(&e), (ErrorClass::Argument, "wrong number of arguments (given 1, expected 2)".to_string()));
    let e = convert_params(&vec![integer(1), integer(2)], &types).unwrap_err();
    assert_eq!(message(&e), (ErrorClass::Type, "no string (param at index 1)".to_string()));
    let v = convert_params(&vec![integer(1), string("s")], &types).unwrap();
    assert_eq!(v, vec![ComponentVal::U8(1), ComponentVal::String("s".to_string())]);
}

#[test]
fn results_pack_by_count() {
    assert_eq!(results_to_rb(&vec![]).unwrap(), RbOutput::Nil);
    assert_eq!(results_to_rb(&vec![ComponentVal::U8(1)]).unwrap(), RbOutput::Integer(1));
    assert_eq!(
        results_to_rb(&vec![ComponentVal::U8(1), ComponentVal::Bool(false)]).unwrap(),
        RbOutput::Array(vec![RbOutput::Integer(1), RbOutput::Bool(false)])
    );
}
