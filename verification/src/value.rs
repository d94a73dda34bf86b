//! The Ruby values that the library inspects, as plain data.
use vstd::prelude::*;
use crate::symbol_enum::Needle;

verus! {

/// A Ruby value as far as option decoding looks into it. Every value also
/// comes with the texts of its `to_s` and `inspect` (see `RbArg`).
pub enum RbValue {
    Nil,
    Bool(bool),
    Symbol(String),
    /// A `Wasmtime::PoolingAllocationConfig`.
    PoolingAllocationConfig,
    /// Any other object.
    Other,
}

/// A Ruby value with the texts that error messages quote, and Ruby's
/// answers to the conversions that options ask of it.
pub struct RbArg {
    pub value: RbValue,
    pub to_s: String,
    pub inspect: String,
    /// The value as a size (`usize`), when Ruby converts it to one.
    pub as_size: Option<usize>,
    /// The value as a `String` (`to_str`), when Ruby converts it to one.
    pub as_string: Option<String>,
}

/// Ruby truthiness: everything but `nil` and `false` is true.
pub open spec fn truthy(v: RbValue) -> bool {
    match v {
        RbValue::Nil => false,
        RbValue::Bool(b) => b,
        _ => true,
    }
}

/// Ruby truthiness.
pub fn is_truthy(v: &RbValue) -> (r: bool)
    ensures
        r == truthy(*v),
{
    match v {
        RbValue::Nil => false,
        RbValue::Bool(b) => *b,
        _ => true,
    }
}

/// The argument as a needle for a symbol enumeration: a symbol is looked up
/// by its name, anything else is not one of the symbols.
pub open spec fn needle_of(a: RbArg) -> Needle {
    match a.value {
        RbValue::Symbol(name) => Needle::Symbol { name, inspect: a.inspect },
        _ => Needle::Other { inspect: a.inspect },
    }
}

/// The needle for `a`, as `needle_of` describes it.
pub fn to_needle(a: &RbArg) -> (n: Needle)
    ensures
        n.symbol_name() == needle_of(*a).symbol_name(),
        n.inspect_view() == needle_of(*a).inspect_view(),
{
    match &a.value {
        RbValue::Symbol(name) => Needle::Symbol { name: name.clone(), inspect: a.inspect.clone() },
        _ => Needle::Other { inspect: a.inspect.clone() },
    }
}

} // verus!
