//! Core WebAssembly values and their conversion to and from Ruby objects.
//!
//! Function references are held by values of type `F` and extern
//! references by values of type `X`; floats by their IEEE bits. A Ruby
//! value reaches the conversion as `CoreInput`: whether it is `nil`, and
//! Ruby's answer to each conversion a value type may ask of it.
use vstd::prelude::*;
use crate::convert::ValType;
use crate::errors::{err_view, ErrView, ErrorClass, RbError};
use crate::component_value::copy_error;

verus! {

/// A core WebAssembly value.
#[derive(Debug, PartialEq)]
pub enum WasmVal<F, X> {
    I32(i32),
    I64(i64),
    F32(u32),
    F64(u64),
    V128(u128),
    FuncRef(Option<F>),
    ExternRef(Option<X>),
    /// A value of another kind (GC references, ...), by its debug text.
    Unsupported(String),
}

/// The Ruby object for a core value.
#[derive(Debug, PartialEq)]
pub enum CoreOutput<F, X> {
    Nil,
    Integer(i64),
    /// A `Float` of the `f32` with these bits.
    Float32(u32),
    /// A `Float` of the `f64` with these bits.
    Float64(u64),
    /// The `Wasmtime::Func` for a function reference.
    Func(F),
    /// The Ruby object that an extern reference holds.
    Extern(X),
}

/// The message of the error for a `v128` going to Ruby.
pub open spec fn v128_to_ruby_message() -> Seq<char> {
    "converting from v128 to Ruby unsupported"@
}

/// The message of the error for a value of another kind going to Ruby.
pub open spec fn unsupported_value_message(debug: Seq<char>) -> Seq<char> {
    "cannot convert value: "@ + debug + " to Ruby value"@
}

/// The Ruby object for a core value, or the error for kinds Ruby cannot
/// hold.
pub open spec fn core_out<F, X>(v: WasmVal<F, X>) -> Result<CoreOutput<F, X>, ErrView> {
    match v {
        WasmVal::I32(i) => Ok(CoreOutput::Integer(i as i64)),
        WasmVal::I64(i) => Ok(CoreOutput::Integer(i)),
        WasmVal::F32(b) => Ok(CoreOutput::Float32(b)),
        WasmVal::F64(b) => Ok(CoreOutput::Float64(b)),
        WasmVal::FuncRef(None) => Ok(CoreOutput::Nil),
        WasmVal::FuncRef(Some(f)) => Ok(CoreOutput::Func(f)),
        WasmVal::ExternRef(None) => Ok(CoreOutput::Nil),
        WasmVal::ExternRef(Some(x)) => Ok(CoreOutput::Extern(x)),
        WasmVal::V128(_) => Err(ErrView::Raised(ErrorClass::Base, v128_to_ruby_message())),
        WasmVal::Unsupported(d) => Err(ErrView::Raised(ErrorClass::Base, unsupported_value_message(d@))),
    }
}

/// Converts a core value to the Ruby object that stands for it.
pub fn to_ruby_value<F, X>(v: WasmVal<F, X>) -> (r: Result<CoreOutput<F, X>, RbError>)
    ensures
        match r {
            Ok(o) => core_out(v) == Ok::<CoreOutput<F, X>, ErrView>(o),
            Err(e) => core_out(v) == Err::<CoreOutput<F, X>, ErrView>(err_view(e)),
        },
{
    match v {
        WasmVal::I32(i) => Ok(CoreOutput::Integer(i as i64)),
        WasmVal::I64(i) => Ok(CoreOutput::Integer(i)),
        WasmVal::F32(b) => Ok(CoreOutput::Float32(b)),
        WasmVal::F64(b) => Ok(CoreOutput::Float64(b)),
        WasmVal::FuncRef(None) => Ok(CoreOutput::Nil),
        WasmVal::FuncRef(Some(f)) => Ok(CoreOutput::Func(f)),
        WasmVal::ExternRef(None) => Ok(CoreOutput::Nil),
        WasmVal::ExternRef(Some(x)) => Ok(CoreOutput::Extern(x)),
        WasmVal::V128(_) => Err(RbError::Error {
            class: ErrorClass::Base,
            message: String::from_str("converting from v128 to Ruby unsupported"),
        }),
        WasmVal::Unsupported(d) => {
            let mut m = String::from_str("cannot convert value: ");
            m.append(d.as_str());
            m.append(" to Ruby value");
            Err(RbError::Error { class: ErrorClass::Base, message: m })
        },
    }
}

/// A Ruby value given for a core value, with Ruby's answer to each
/// conversion that a value type may ask of it.
pub struct CoreInput<F> {
    pub is_nil: bool,
    pub as_i32: Result<i32, RbError>,
    pub as_i64: Result<i64, RbError>,
    /// The bits of the `f32` the value converts to.
    pub as_f32: Result<u32, RbError>,
    /// The bits of the `f64` the value converts to.
    pub as_f64: Result<u64, RbError>,
    /// The function the value is (a `Wasmtime::Func`).
    pub as_func: Result<F, RbError>,
}

/// A core value to pass to WebAssembly, or the instruction to wrap the
/// Ruby value itself in a new extern reference.
#[derive(Debug, PartialEq)]
pub enum WasmArg<F> {
    Val(WasmVal<F, ()>),
    WrapAsExternRef,
}

/// The message of the error for a Ruby value going to a `v128`.
pub open spec fn v128_from_ruby_message() -> Seq<char> {
    "converting from Ruby to v128 not supported"@
}

/// What converting `n` to a value of type `ty` gives: an `externref`
/// always wraps the value itself (`nil` too); a `funcref` is null for `nil`,
/// else the function; numbers are Ruby's conversions.
pub open spec fn core_arg<F>(n: CoreInput<F>, ty: ValType) -> Result<WasmArg<F>, ErrView> {
    match ty {
        ValType::ExternRef => Ok(WasmArg::WrapAsExternRef),
        ValType::FuncRef => if n.is_nil {
            Ok(WasmArg::Val(WasmVal::FuncRef(None)))
        } else {
            match n.as_func {
                Ok(f) => Ok(WasmArg::Val(WasmVal::FuncRef(Some(f)))),
                Err(e) => Err(err_view(e)),
            }
        },
        ValType::I32 => match n.as_i32 {
            Ok(i) => Ok(WasmArg::Val(WasmVal::I32(i))),
            Err(e) => Err(err_view(e)),
        },
        ValType::I64 => match n.as_i64 {
            Ok(i) => Ok(WasmArg::Val(WasmVal::I64(i))),
            Err(e) => Err(err_view(e)),
        },
        ValType::F32 => match n.as_f32 {
            Ok(b) => Ok(WasmArg::Val(WasmVal::F32(b))),
            Err(e) => Err(err_view(e)),
        },
        ValType::F64 => match n.as_f64 {
            Ok(b) => Ok(WasmArg::Val(WasmVal::F64(b))),
            Err(e) => Err(err_view(e)),
        },
        ValType::V128 => Err(ErrView::Raised(ErrorClass::Base, v128_from_ruby_message())),
    }
}

/// The value of a conversion's outcome.
pub open spec fn arg_view<F>(r: Result<WasmArg<F>, RbError>) -> Result<WasmArg<F>, ErrView> {
    match r {
        Ok(a) => Ok(a),
        Err(e) => Err(err_view(e)),
    }
}

/// Converts a Ruby value to a core value of type `ty`.
pub fn to_wasm_val<F: Copy>(n: &CoreInput<F>, ty: ValType) -> (r: Result<WasmArg<F>, RbError>)
    ensures
        arg_view(r) == core_arg(*n, ty),
        match answer_error(*n, ty) {
            Some(e) => r == Err::<WasmArg<F>, RbError>(e),
            None => true,
        },
{
    match ty {
        ValType::ExternRef => Ok(WasmArg::WrapAsExternRef),
        ValType::FuncRef => if n.is_nil {
            Ok(WasmArg::Val(WasmVal::FuncRef(None)))
        } else {
            match &n.as_func {
                Ok(f) => Ok(WasmArg::Val(WasmVal::FuncRef(Some(*f)))),
                Err(e) => Err(copy_error(e)),
            }
        },
        ValType::I32 => match &n.as_i32 {
            Ok(i) => Ok(WasmArg::Val(WasmVal::I32(*i))),
            Err(e) => Err(copy_error(e)),
        },
        ValType::I64 => match &n.as_i64 {
            Ok(i) => Ok(WasmArg::Val(WasmVal::I64(*i))),
            Err(e) => Err(copy_error(e)),
        },
        ValType::F32 => match &n.as_f32 {
            Ok(b) => Ok(WasmArg::Val(WasmVal::F32(*b))),
            Err(e) => Err(copy_error(e)),
        },
        ValType::F64 => match &n.as_f64 {
            Ok(b) => Ok(WasmArg::Val(WasmVal::F64(*b))),
            Err(e) => Err(copy_error(e)),
        },
        ValType::V128 => Err(RbError::Error {
            class: ErrorClass::Base,
            message: String::from_str("converting from Ruby to v128 not supported"),
        }),
    }
}

/// The error of the Ruby conversion that a value of type `ty` asks for, if
/// that conversion failed: it is passed on as it is.
pub open spec fn answer_error<F>(n: CoreInput<F>, ty: ValType) -> Option<RbError> {
    match ty {
        ValType::FuncRef => if !n.is_nil && n.as_func is Err { Some(n.as_func->Err_0) } else { None },
        ValType::I32 => if n.as_i32 is Err { Some(n.as_i32->Err_0) } else { None },
        ValType::I64 => if n.as_i64 is Err { Some(n.as_i64->Err_0) } else { None },
        ValType::F32 => if n.as_f32 is Err { Some(n.as_f32->Err_0) } else { None },
        ValType::F64 => if n.as_f64 is Err { Some(n.as_f64->Err_0) } else { None },
        _ => None,
    }
}

/// Whether `n` is what Ruby gives back for the object built from `o`:
/// `nil` for `Nil`, and the numeric conversions that fit answer the number.
pub open spec fn core_reads_back<F, X>(n: CoreInput<F>, o: CoreOutput<F, X>) -> bool {
    match o {
        CoreOutput::Nil => n.is_nil,
        CoreOutput::Integer(i) => !n.is_nil
            && (i32::MIN <= i <= i32::MAX ==> n.as_i32 == Ok::<i32, RbError>(i as i32))
            && n.as_i64 == Ok::<i64, RbError>(i),
        CoreOutput::Float32(b) => !n.is_nil && n.as_f32 == Ok::<u32, RbError>(b),
        CoreOutput::Float64(b) => !n.is_nil && n.as_f64 == Ok::<u64, RbError>(b),
        CoreOutput::Func(f) => !n.is_nil && n.as_func == Ok::<F, RbError>(f),
        CoreOutput::Extern(_) => true,
    }
}

/// The type of a number or function reference.
pub open spec fn core_type_of<F, X>(v: WasmVal<F, X>) -> Option<ValType> {
    match v {
        WasmVal::I32(_) => Some(ValType::I32),
        WasmVal::I64(_) => Some(ValType::I64),
        WasmVal::F32(_) => Some(ValType::F32),
        WasmVal::F64(_) => Some(ValType::F64),
        WasmVal::FuncRef(_) => Some(ValType::FuncRef),
        _ => None,
    }
}

/// A number or function reference, converted to Ruby and back with its
/// type, is the same value, as long as Ruby reads back what was built.
pub proof fn lemma_core_roundtrip<F>(v: WasmVal<F, ()>, ty: ValType, n: CoreInput<F>)
    requires
        core_type_of(v) == Some(ty),
        core_out(v) matches Ok(out) && core_reads_back(n, out),
    ensures
        core_arg(n, ty) == Ok::<WasmArg<F>, ErrView>(WasmArg::Val(v)),
{
}

/// Whether a core value is a null reference: a null function reference or
/// a null extern reference (`ref.null func`, `ref.null extern`).
pub open spec fn is_null_ref<F, X>(v: WasmVal<F, X>) -> bool {
    v == WasmVal::<F, X>::FuncRef(None) || v == WasmVal::<F, X>::ExternRef(None)
}

/// A core value becomes Ruby's `nil` exactly when it is a null reference,
/// function or extern; a reference that is not null becomes the function
/// or the Ruby object it refers to.
pub proof fn lemma_null_refs_are_nil<F, X>(v: WasmVal<F, X>)
    ensures
        core_out(v) == Ok::<CoreOutput<F, X>, ErrView>(CoreOutput::Nil) <==> is_null_ref(v),
        forall|f: F| v == WasmVal::<F, X>::FuncRef(Some(f))
            ==> core_out(v) == Ok::<CoreOutput<F, X>, ErrView>(CoreOutput::Func(f)),
        forall|x: X| v == WasmVal::<F, X>::ExternRef(Some(x))
            ==> core_out(v) == Ok::<CoreOutput<F, X>, ErrView>(CoreOutput::Extern(x)),
{
}

/// Whether a value stored in a global or table of type `ty` must be kept
/// alive by the store: a non-`nil` Ruby object behind an `externref`.
pub fn retains_value(ty: ValType, is_nil: bool) -> (r: bool)
    ensures
        r == (ty == ValType::ExternRef && !is_nil),
{
    match ty {
        ValType::ExternRef => !is_nil,
        _ => false,
    }
}

} // verus!
