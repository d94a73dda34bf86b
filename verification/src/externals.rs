//! Externs (functions, globals, memories, tables) and their types as Ruby
//! sees them, the conversions between their kinds, and traps.
use vstd::prelude::*;
use crate::errors::{is_error, ErrorClass, RbError};
use crate::text::{hex_lower, zero_pad, format_hex_padded};

verus! {

/// The kind of an extern.
#[derive(Clone, Copy, Debug, PartialEq, Eq, Structural)]
pub enum ExternKind {
    Func,
    Global,
    Memory,
    Table,
}

/// The Ruby class of an extern of a kind.
pub open spec fn extern_class(k: ExternKind) -> Seq<char> {
    match k {
        ExternKind::Func => "Wasmtime::Func"@,
        ExternKind::Global => "Wasmtime::Global"@,
        ExternKind::Memory => "Wasmtime::Memory"@,
        ExternKind::Table => "Wasmtime::Table"@,
    }
}

/// The Ruby class of an extern type of a kind.
pub open spec fn extern_type_class(k: ExternKind) -> Seq<char> {
    match k {
        ExternKind::Func => "Wasmtime::FuncType"@,
        ExternKind::Global => "Wasmtime::GlobalType"@,
        ExternKind::Memory => "Wasmtime::MemoryType"@,
        ExternKind::Table => "Wasmtime::TableType"@,
    }
}

/// The Ruby class of an extern of a kind.
pub fn extern_class_name(k: ExternKind) -> (s: &'static str)
    ensures
        s@ == extern_class(k),
{
    match k {
        ExternKind::Func => "Wasmtime::Func",
        ExternKind::Global => "Wasmtime::Global",
        ExternKind::Memory => "Wasmtime::Memory",
        ExternKind::Table => "Wasmtime::Table",
    }
}

/// The Ruby class of an extern type of a kind.
pub fn extern_type_class_name(k: ExternKind) -> (s: &'static str)
    ensures
        s@ == extern_type_class(k),
{
    match k {
        ExternKind::Func => "Wasmtime::FuncType",
        ExternKind::Global => "Wasmtime::GlobalType",
        ExternKind::Memory => "Wasmtime::MemoryType",
        ExternKind::Table => "Wasmtime::TableType",
    }
}

/// The message of a `ConversionError`.
pub open spec fn conversion_message(from: Seq<char>, to: Seq<char>) -> Seq<char> {
    "cannot convert "@ + from + " to "@ + to
}

/// The `ConversionError` for converting an object of class `from` to the
/// class `to`.
pub fn conversion_error(from: &str, to: &str) -> (e: RbError)
    ensures
        is_error(e, ErrorClass::Conversion, conversion_message(from@, to@)),
{
    let mut m = String::from_str("cannot convert ");
    m.append(from);
    m.append(" to ");
    m.append(to);
    RbError::Error { class: ErrorClass::Conversion, message: m }
}

/// An extern: a function, global, memory or table, held by values of the
/// types `F`, `G`, `M` and `T`.
pub enum Extern<F, G, M, T> {
    Func(F),
    Global(G),
    Memory(M),
    Table(T),
}

impl<F, G, M, T> Extern<F, G, M, T> {
    pub open spec fn kind(&self) -> ExternKind {
        match self {
            Extern::Func(_) => ExternKind::Func,
            Extern::Global(_) => ExternKind::Global,
            Extern::Memory(_) => ExternKind::Memory,
            Extern::Table(_) => ExternKind::Table,
        }
    }

    fn kind_of(&self) -> (k: ExternKind)
        ensures
            k == self.kind(),
    {
        match self {
            Extern::Func(_) => ExternKind::Func,
            Extern::Global(_) => ExternKind::Global,
            Extern::Memory(_) => ExternKind::Memory,
            Extern::Table(_) => ExternKind::Table,
        }
    }

    /// The function, or a `ConversionError` for another kind.
    pub fn to_func(&self) -> (r: Result<&F, RbError>)
        ensures
            match self {
                Extern::Func(f) => r == Ok::<&F, RbError>(f),
                _ => r is Err && is_error(r->Err_0, ErrorClass::Conversion,
                    conversion_message(extern_class(self.kind()), extern_class(ExternKind::Func))),
            },
    {
        match self {
            Extern::Func(f) => Ok(f),
            _ => Err(conversion_error(extern_class_name(self.kind_of()), extern_class_name(ExternKind::Func))),
        }
    }

    /// The global, or a `ConversionError` for another kind.
    pub fn to_global(&self) -> (r: Result<&G, RbError>)
        ensures
            match self {
                Extern::Global(g) => r == Ok::<&G, RbError>(g),
                _ => r is Err && is_error(r->Err_0, ErrorClass::Conversion,
                    conversion_message(extern_class(self.kind()), extern_class(ExternKind::Global))),
            },
    {
        match self {
            Extern::Global(g) => Ok(g),
            _ => Err(conversion_error(extern_class_name(self.kind_of()), extern_class_name(ExternKind::Global))),
        }
    }

    /// The memory, or a `ConversionError` for another kind.
    pub fn to_memory(&self) -> (r: Result<&M, RbError>)
        ensures
            match self {
                Extern::Memory(m) => r == Ok::<&M, RbError>(m),
                _ => r is Err && is_error(r->Err_0, ErrorClass::Conversion,
                    conversion_message(extern_class(self.kind()), extern_class(ExternKind::Memory))),
            },
    {
        match self {
            Extern::Memory(m) => Ok(m),
            _ => Err(conversion_error(extern_class_name(self.kind_of()), extern_class_name(ExternKind::Memory))),
        }
    }

    /// The table, or a `ConversionError` for another kind.
    pub fn to_table(&self) -> (r: Result<&T, RbError>)
        ensures
            match self {
                Extern::Table(t) => r == Ok::<&T, RbError>(t),
                _ => r is Err && is_error(r->Err_0, ErrorClass::Conversion,
                    conversion_message(extern_class(self.kind()), extern_class(ExternKind::Table))),
            },
    {
        match self {
            Extern::Table(t) => Ok(t),
            _ => Err(conversion_error(extern_class_name(self.kind_of()), extern_class_name(ExternKind::Table))),
        }
    }
}

/// The type of an extern: a function, global, memory or table type, held
/// by values of the types `F`, `G`, `M` and `T`.
pub enum ExternType<F, G, M, T> {
    Func(F),
    Global(G),
    Memory(M),
    Table(T),
}

impl<F, G, M, T> ExternType<F, G, M, T> {
    pub open spec fn kind(&self) -> ExternKind {
        match self {
            ExternType::Func(_) => ExternKind::Func,
            ExternType::Global(_) => ExternKind::Global,
            ExternType::Memory(_) => ExternKind::Memory,
            ExternType::Table(_) => ExternKind::Table,
        }
    }

    fn kind_of(&self) -> (k: ExternKind)
        ensures
            k == self.kind(),
    {
        match self {
            ExternType::Func(_) => ExternKind::Func,
            ExternType::Global(_) => ExternKind::Global,
            ExternType::Memory(_) => ExternKind::Memory,
            ExternType::Table(_) => ExternKind::Table,
        }
    }

    /// The function type, or a `ConversionError` naming the type's class
    /// and `Wasmtime::Func`.
    pub fn to_func_type(&self) -> (r: Result<&F, RbError>)
        ensures
            match self {
                ExternType::Func(f) => r == Ok::<&F, RbError>(f),
                _ => r is Err && is_error(r->Err_0, ErrorClass::Conversion,
                    conversion_message(extern_type_class(self.kind()), extern_class(ExternKind::Func))),
            },
    {
        match self {
            ExternType::Func(f) => Ok(f),
            _ => Err(conversion_error(extern_type_class_name(self.kind_of()), extern_class_name(ExternKind::Func))),
        }
    }

    /// The global type, or a `ConversionError` naming the type's class and
    /// `Wasmtime::Global`.
    pub fn to_global_type(&self) -> (r: Result<&G, RbError>)
        ensures
            match self {
                ExternType::Global(g) => r == Ok::<&G, RbError>(g),
                _ => r is Err && is_error(r->Err_0, ErrorClass::Conversion,
                    conversion_message(extern_type_class(self.kind()), extern_class(ExternKind::Global))),
            },
    {
        match self {
            ExternType::Global(g) => Ok(g),
            _ => Err(conversion_error(extern_type_class_name(self.kind_of()), extern_class_name(ExternKind::Global))),
        }
    }

    /// The memory type, or a `ConversionError` naming the type's class and
    /// `Wasmtime::Memory`.
    pub fn to_memory_type(&self) -> (r: Result<&M, RbError>)
        ensures
            match self {
                ExternType::Memory(m) => r == Ok::<&M, RbError>(m),
                _ => r is Err && is_error(r->Err_0, ErrorClass::Conversion,
                    conversion_message(extern_type_class(self.kind()), extern_class(ExternKind::Memory))),
            },
    {
        match self {
            ExternType::Memory(m) => Ok(m),
            _ => Err(conversion_error(extern_type_class_name(self.kind_of()), extern_class_name(ExternKind::Memory))),
        }
    }

    /// The table type, or a `ConversionError` naming the type's class and
    /// `Wasmtime::Table`.
    pub fn to_table_type(&self) -> (r: Result<&T, RbError>)
        ensures
            match self {
                ExternType::Table(t) => r == Ok::<&T, RbError>(t),
                _ => r is Err && is_error(r->Err_0, ErrorClass::Conversion,
                    conversion_message(extern_type_class(self.kind()), extern_class(ExternKind::Table))),
            },
    {
        match self {
            ExternType::Table(t) => Ok(t),
            _ => Err(conversion_error(extern_type_class_name(self.kind_of()), extern_class_name(ExternKind::Table))),
        }
    }
}

/// What Wasmtime exports or imports: an extern the library supports, or
/// one it does not (shared memories, exception tags).
#[derive(Clone, Copy, Debug, PartialEq, Eq, Structural)]
pub enum ExternSource {
    Supported(ExternKind),
    SharedMemory,
    Tag,
}

/// The message of the error for shared memories.
pub open spec fn shared_memory_message() -> Seq<char> {
    "shared memory not supported"@
}

/// The message of the error for exception tags.
pub open spec fn tag_message() -> Seq<char> {
    "exception handling not yet implemented"@
}

/// The kind of the Ruby object for an extern, or the `NotImplementedError`
/// for the kinds the library does not support.
pub fn wrap_kind(source: ExternSource) -> (r: Result<ExternKind, RbError>)
    ensures
        match source {
            ExternSource::Supported(k) => r == Ok::<ExternKind, RbError>(k),
            ExternSource::SharedMemory => r is Err && is_error(r->Err_0, ErrorClass::NotImplemented, shared_memory_message()),
            ExternSource::Tag => r is Err && is_error(r->Err_0, ErrorClass::NotImplemented, tag_message()),
        },
{
    match source {
        ExternSource::Supported(k) => Ok(k),
        ExternSource::SharedMemory => Err(RbError::Error {
            class: ErrorClass::NotImplemented,
            message: String::from_str("shared memory not supported"),
        }),
        ExternSource::Tag => Err(RbError::Error {
            class: ErrorClass::NotImplemented,
            message: String::from_str("exception handling not yet implemented"),
        }),
    }
}

/// The name of an export's kind, as `Export#type_name` gives it.
pub open spec fn kind_name(k: ExternKind) -> Seq<char> {
    match k {
        ExternKind::Func => "func"@,
        ExternKind::Global => "global"@,
        ExternKind::Table => "table"@,
        ExternKind::Memory => "memory"@,
    }
}

/// The name of an export's kind.
pub fn export_type_name(k: ExternKind) -> (s: &'static str)
    ensures
        s@ == kind_name(k),
{
    match k {
        ExternKind::Func => "func",
        ExternKind::Global => "global",
        ExternKind::Table => "table",
        ExternKind::Memory => "memory",
    }
}

/// A Ruby object given where an extern is expected: one of the four
/// extern classes, or anything else (with its `inspect`).
pub enum ExternCandidate<F, G, M, T> {
    Extern(Extern<F, G, M, T>),
    Other { inspect: String },
}

/// The message of the error for an object that is no extern.
pub open spec fn unexpected_extern_message(inspect: Seq<char>) -> Seq<char> {
    "unexpected extern: "@ + inspect
}

/// The extern an object stands for, or a `TypeError` for any other object.
pub fn to_extern<F, G, M, T>(candidate: ExternCandidate<F, G, M, T>) -> (r: Result<Extern<F, G, M, T>, RbError>)
    ensures
        match candidate {
            ExternCandidate::Extern(e) => r == Ok::<Extern<F, G, M, T>, RbError>(e),
            ExternCandidate::Other { inspect } => r is Err
                && is_error(r->Err_0, ErrorClass::Type, unexpected_extern_message(inspect@)),
        },
{
    match candidate {
        ExternCandidate::Extern(e) => Ok(e),
        ExternCandidate::Other { inspect } => {
            let mut m = String::from_str("unexpected extern: ");
            m.append(inspect.as_str());
            Err(RbError::Error { class: ErrorClass::Type, message: m })
        },
    }
}

/// An object's `inspect` with its class, address (16 hex digits) and one
/// instance variable.
pub open spec fn inspect_text(class: Seq<char>, address: u64, ivar: Seq<char>, value: Seq<char>) -> Seq<char> {
    "#<"@ + class + ":0x"@ + zero_pad(hex_lower(address as nat), 16) + " @"@ + ivar + "="@ + value + ">"@
}

/// Formats an object's `inspect` from its class, address and one instance
/// variable with its value's `inspect`.
pub fn inspect_object(class: &str, address: u64, ivar: &str, value: &str) -> (s: String)
    ensures
        s@ == inspect_text(class@, address, ivar@, value@),
{
    let mut s = String::from_str("#<");
    s.append(class);
    s.append(":0x");
    let hex = format_hex_padded(address, 16);
    s.append(hex.as_str());
    s.append(" @");
    s.append(ivar);
    s.append("=");
    s.append(value);
    s.append(">");
    s
}

/// The `inspect` of a `Wasmtime::Extern` at `address` whose value's
/// `inspect` is `inner`.
pub fn extern_inspect(address: u64, inner: &str) -> (s: String)
    ensures
        s@ == inspect_text("Wasmtime::Extern"@, address, "value"@, inner@),
{
    inspect_object("Wasmtime::Extern", address, "value", inner)
}

// ---------------------------------------------------------------------------
// Traps
// ---------------------------------------------------------------------------

/// Why WebAssembly code trapped.
#[derive(Clone, Copy, Debug, PartialEq, Eq, Structural)]
pub enum TrapKind {
    HeapMisaligned,
    TableOutOfBounds,
    IndirectCallToNull,
    BadSignature,
    IntegerOverflow,
    IntegerDivisionByZero,
    BadConversionToInteger,
    UnreachableCodeReached,
    Interrupt,
    AlwaysTrapAdapter,
    OutOfFuel,
    /// Any other trap.
    Unknown,
}

/// The constant of `Wasmtime::Trap` that names a trap's code.
pub open spec fn trap_constant(k: TrapKind) -> Seq<char> {
    match k {
        TrapKind::HeapMisaligned => "HEAP_MISALIGNED"@,
        TrapKind::TableOutOfBounds => "TABLE_OUT_OF_BOUNDS"@,
        TrapKind::IndirectCallToNull => "INDIRECT_CALL_TO_NULL"@,
        TrapKind::BadSignature => "BAD_SIGNATURE"@,
        TrapKind::IntegerOverflow => "INTEGER_OVERFLOW"@,
        TrapKind::IntegerDivisionByZero => "INTEGER_DIVISION_BY_ZERO"@,
        TrapKind::BadConversionToInteger => "BAD_CONVERSION_TO_INTEGER"@,
        TrapKind::UnreachableCodeReached => "UNREACHABLE_CODE_REACHED"@,
        TrapKind::Interrupt => "INTERRUPT"@,
        TrapKind::AlwaysTrapAdapter => "ALWAYS_TRAP_ADAPTER"@,
        TrapKind::OutOfFuel => "OUT_OF_FUEL"@,
        TrapKind::Unknown => "UNKNOWN"@,
    }
}

/// The name of the constant of `Wasmtime::Trap` for a trap's code.
pub fn trap_code(k: TrapKind) -> (s: &'static str)
    ensures
        s@ == trap_constant(k),
{
    match k {
        TrapKind::HeapMisaligned => "HEAP_MISALIGNED",
        TrapKind::TableOutOfBounds => "TABLE_OUT_OF_BOUNDS",
        TrapKind::IndirectCallToNull => "INDIRECT_CALL_TO_NULL",
        TrapKind::BadSignature => "BAD_SIGNATURE",
        TrapKind::IntegerOverflow => "INTEGER_OVERFLOW",
        TrapKind::IntegerDivisionByZero => "INTEGER_DIVISION_BY_ZERO",
        TrapKind::BadConversionToInteger => "BAD_CONVERSION_TO_INTEGER",
        TrapKind::UnreachableCodeReached => "UNREACHABLE_CODE_REACHED",
        TrapKind::Interrupt => "INTERRUPT",
        TrapKind::AlwaysTrapAdapter => "ALWAYS_TRAP_ADAPTER",
        TrapKind::OutOfFuel => "OUT_OF_FUEL",
        TrapKind::Unknown => "UNKNOWN",
    }
}

/// The `inspect` of a `Wasmtime::Trap` at `address` whose code's `inspect`
/// is `code`.
pub fn trap_inspect(address: u64, code: &str) -> (s: String)
    ensures
        s@ == inspect_text("Wasmtime::Trap"@, address, "trap_code"@, code@),
{
    inspect_object("Wasmtime::Trap", address, "trap_code", code)
}

} // verus!
