//! The WebAssembly value types as Ruby names them (`:i32`, `:funcref`, ...).
use vstd::prelude::*;
use crate::errors::{is_error, ErrorClass, RbError};
use crate::symbol_enum::{entries, symbol_error_message, Needle, StaticId, SymbolEnum};

verus! {

/// A WebAssembly value type, with the reference types that Ruby code can
/// name: nullable function and extern references.
#[derive(Clone, Copy, Debug, PartialEq, Eq, Structural)]
pub enum ValType {
    I32,
    I64,
    F32,
    F64,
    V128,
    FuncRef,
    ExternRef,
}

/// A WebAssembly reference type that Ruby code can name.
#[derive(Clone, Copy, Debug, PartialEq, Eq, Structural)]
pub enum RefType {
    FuncRef,
    ExternRef,
}

/// The Ruby name of a value type.
pub open spec fn val_type_name(t: ValType) -> Seq<char> {
    match t {
        ValType::I32 => "i32"@,
        ValType::I64 => "i64"@,
        ValType::F32 => "f32"@,
        ValType::F64 => "f64"@,
        ValType::V128 => "v128"@,
        ValType::FuncRef => "funcref"@,
        ValType::ExternRef => "externref"@,
    }
}

/// The value types by their Ruby names.
pub fn val_type_mapping() -> (m: SymbolEnum<'static, ValType>)
    ensures
        m.spec_what() == "WebAssembly type"@,
        entries(m) == seq![
            ("i32"@, ValType::I32),
            ("i64"@, ValType::I64),
            ("f32"@, ValType::F32),
            ("f64"@, ValType::F64),
            ("v128"@, ValType::V128),
            ("funcref"@, ValType::FuncRef),
            ("externref"@, ValType::ExternRef),
        ],
{
    let mut v: Vec<(StaticId, ValType)> = Vec::new();
    v.push((StaticId::intern_str("i32"), ValType::I32));
    v.push((StaticId::intern_str("i64"), ValType::I64));
    v.push((StaticId::intern_str("f32"), ValType::F32));
    v.push((StaticId::intern_str("f64"), ValType::F64));
    v.push((StaticId::intern_str("v128"), ValType::V128));
    v.push((StaticId::intern_str("funcref"), ValType::FuncRef));
    v.push((StaticId::intern_str("externref"), ValType::ExternRef));
    let m = SymbolEnum::new("WebAssembly type", v);
    assert(entries(m) =~= seq![
        ("i32"@, ValType::I32),
        ("i64"@, ValType::I64),
        ("f32"@, ValType::F32),
        ("f64"@, ValType::F64),
        ("v128"@, ValType::V128),
        ("funcref"@, ValType::FuncRef),
        ("externref"@, ValType::ExternRef),
    ]);
    m
}

impl ValType {
    /// The symbol that names the type.
    pub fn to_sym(&self) -> (s: StaticId)
        ensures
            s.spec_name() == val_type_name(*self),
    {
        match self {
            ValType::I32 => StaticId::intern_str("i32"),
            ValType::I64 => StaticId::intern_str("i64"),
            ValType::F32 => StaticId::intern_str("f32"),
            ValType::F64 => StaticId::intern_str("f64"),
            ValType::V128 => StaticId::intern_str("v128"),
            ValType::FuncRef => StaticId::intern_str("funcref"),
            ValType::ExternRef => StaticId::intern_str("externref"),
        }
    }
}

impl RefType {
    /// The symbol that names the reference type.
    pub fn to_sym(&self) -> (s: StaticId)
        ensures
            s.spec_name() == match self {
                RefType::FuncRef => "funcref"@,
                RefType::ExternRef => "externref"@,
            },
    {
        match self {
            RefType::FuncRef => StaticId::intern_str("funcref"),
            RefType::ExternRef => StaticId::intern_str("externref"),
        }
    }
}

/// The value type that a Ruby value names, or an `ArgumentError` listing
/// the valid names.
pub fn to_val_type(mapping: &SymbolEnum<'static, ValType>, value: &Needle) -> (r: Result<ValType, RbError>)
    ensures
        mapping.found(value) is Some ==> r == Ok::<ValType, RbError>(mapping.found(value).unwrap()),
        mapping.found(value) is None ==> r is Err && is_error(r->Err_0, ErrorClass::Argument,
            symbol_error_message(mapping.spec_what(), mapping.names(), value.inspect_view())),
{
    mapping.get(value)
}

/// The position of the first value that names none of the symbols.
pub open spec fn first_unfound(mapping: SymbolEnum<'static, ValType>, values: Seq<Needle>) -> Option<int>
    decreases values.len(),
{
    if values.len() == 0 {
        None
    } else if mapping.found(&values[0]) is None {
        Some(0)
    } else {
        match first_unfound(mapping, values.drop_first()) {
            Some(i) => Some(i + 1),
            None => None,
        }
    }
}

proof fn lemma_first_unfound(mapping: SymbolEnum<'static, ValType>, values: Seq<Needle>, i: int)
    requires
        0 <= i < values.len(),
        forall|j: int| 0 <= j < i ==> #[trigger] mapping.found(&values[j]) is Some,
        mapping.found(&values[i]) is None,
    ensures
        first_unfound(mapping, values) == Some(i),
    decreases i,
{
    if i > 0 {
        assert(mapping.found(&values[0]) is Some);
        let rest = values.drop_first();
        assert forall|j: int| 0 <= j < i - 1 implies #[trigger] mapping.found(&rest[j]) is Some by {
            assert(rest[j] == values[j + 1]);
        }
        assert(rest[i - 1] == values[i]);
        lemma_first_unfound(mapping, rest, i - 1);
    }
}

proof fn lemma_all_found(mapping: SymbolEnum<'static, ValType>, values: Seq<Needle>)
    requires
        forall|j: int| 0 <= j < values.len() ==> #[trigger] mapping.found(&values[j]) is Some,
    ensures
        first_unfound(mapping, values) is None,
    decreases values.len(),
{
    if values.len() > 0 {
        let rest = values.drop_first();
        assert forall|j: int| 0 <= j < rest.len() implies #[trigger] mapping.found(&rest[j]) is Some by {
            assert(rest[j] == values[j + 1]);
        }
        lemma_all_found(mapping, rest);
    }
}

/// The value types that a list of Ruby values names, in order, or the
/// error for the first value that names none.
pub fn to_val_type_vec(mapping: &SymbolEnum<'static, ValType>, values: &Vec<Needle>) -> (r: Result<Vec<ValType>, RbError>)
    ensures
        first_unfound(*mapping, values@) is None ==> r is Ok
            && r->Ok_0@.len() == values@.len()
            && forall|i: int| 0 <= i < values@.len() ==> r->Ok_0@[i] == mapping.found(&values@[i]).unwrap(),
        first_unfound(*mapping, values@) matches Some(k) ==> r is Err && is_error(r->Err_0, ErrorClass::Argument,
            symbol_error_message(mapping.spec_what(), mapping.names(), values@[k].inspect_view())),
{
    let mut out: Vec<ValType> = Vec::new();
    let mut i: usize = 0;
    while i < values.len()
        invariant
            i <= values@.len(),
            out@.len() == i,
            forall|j: int| 0 <= j < i ==> #[trigger] mapping.found(&values@[j]) is Some
                && out@[j] == mapping.found(&values@[j]).unwrap(),
        decreases values@.len() - i,
    {
        match mapping.get(&values[i]) {
            Ok(t) => out.push(t),
            Err(e) => {
                proof { lemma_first_unfound(*mapping, values@, i as int); }
                return Err(e);
            },
        }
        i = i + 1;
    }
    proof { lemma_all_found(*mapping, values@); }
    Ok(out)
}

} // verus!
