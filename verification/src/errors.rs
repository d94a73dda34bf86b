//! Error messages and the error values shared by the library.
use vstd::prelude::*;

verus! {

/// The text of the error raised when a Store lacks the WASI configuration
/// that a linker with WASI support requires.
pub open spec fn missing_wasi_message(wasi_version: Seq<char>, option_name: Seq<char>) -> Seq<char> {
    "Store is missing "@ + wasi_version + " configuration.\n\nWhen using `wasi: true`, the Store given to\n`Linker#instantiate` must have a "@
        + wasi_version + " configuration.\nTo fix this, provide the `wasi_config` when creating the Store:\nWasmtime::Store.new(engine, "@
        + option_name + ": WasiConfig.new)"@
}

/// Message for a Store that misses its WASI (preview 2) configuration.
pub fn missing_wasi_ctx_error() -> (msg: String)
    ensures
        msg@ == missing_wasi_message("WASI"@, "wasi_config"@),
{
    missing_wasi_error("WASI", "wasi_config")
}

/// Message for a Store that misses its WASI preview 1 configuration.
pub fn missing_wasi_p1_ctx_error() -> (msg: String)
    ensures
        msg@ == missing_wasi_message("WASI p1"@, "wasi_p1_config"@),
{
    missing_wasi_error("WASI p1", "wasi_p1_config")
}

/// Builds the missing-WASI message for the given WASI version and the name
/// of the Store option that provides it.
pub fn missing_wasi_error(wasi_version: &str, option_name: &str) -> (msg: String)
    ensures
        msg@ == missing_wasi_message(wasi_version@, option_name@),
{
    let mut msg = String::from_str("Store is missing ");
    msg.append(wasi_version);
    msg.append(" configuration.\n\nWhen using `wasi: true`, the Store given to\n`Linker#instantiate` must have a ");
    msg.append(wasi_version);
    msg.append(" configuration.\nTo fix this, provide the `wasi_config` when creating the Store:\nWasmtime::Store.new(engine, ");
    msg.append(option_name);
    msg.append(": WasiConfig.new)");
    msg
}

} // verus!

verus! {

/// The Ruby exception classes that the library raises.
#[derive(Clone, Copy, Debug, PartialEq, Eq, Structural)]
pub enum ErrorClass {
    /// `Wasmtime::Error`, the base class of the gem's errors.
    Base,
    /// `Wasmtime::ResultError`: a Ruby-backed function returned bad results.
    Result,
    /// `Wasmtime::ConversionError`: an extern converted to the wrong kind.
    Conversion,
    /// `Wasmtime::WasiExit`: a WASI program called `exit`.
    WasiExit,
    /// Ruby's `ArgumentError`.
    Argument,
    /// Ruby's `TypeError`.
    Type,
    /// Ruby's `NotImplementedError`.
    NotImplemented,
    /// Ruby's `RuntimeError`.
    Runtime,
    /// Any other Ruby exception class, by the `VALUE` that identifies it.
    Foreign(u64),
}

/// A Ruby error as the library sees it: an error built from a class and a
/// message, a raised exception (with its message), or a non-local jump
/// (`break`, `throw`, ...) that carries no message.
#[derive(Debug, Clone, PartialEq)]
pub enum RbError {
    Error { class: ErrorClass, message: String },
    Exception { class: ErrorClass, message: String },
    Jump,
}

impl RbError {
    /// An error of the base class `Wasmtime::Error` with the given message.
    pub fn base(message: String) -> (e: RbError)
        ensures
            e == (RbError::Error { class: ErrorClass::Base, message }),
    {
        RbError::Error { class: ErrorClass::Base, message }
    }

    /// An error of the given class with the given message.
    pub fn new(class: ErrorClass, message: String) -> (e: RbError)
        ensures
            e == (RbError::Error { class, message }),
    {
        RbError::Error { class, message }
    }
}

/// Whether `e` is an error of class `class` with message `msg`.
pub open spec fn is_error(e: RbError, class: ErrorClass, msg: Seq<char>) -> bool {
    e matches RbError::Error { class: c, message } && c == class && message@ == msg
}

/// What appending `extra` to the message of `e` yields: errors and
/// exceptions become errors of the same class whose message is extended,
/// jumps stay as they are.
pub open spec fn appended(e: RbError, extra: Seq<char>) -> Option<(ErrorClass, Seq<char>)> {
    match e {
        RbError::Error { class, message } => Some((class, message@ + extra)),
        RbError::Exception { class, message } => Some((class, message@ + extra)),
        RbError::Jump => None,
    }
}

/// An error as contracts speak of it: a class with a message, or a jump.
pub enum ErrView {
    Raised(ErrorClass, Seq<char>),
    Jump,
}

/// The class and message of `e`, or `Jump`.
pub open spec fn err_view(e: RbError) -> ErrView {
    match e {
        RbError::Error { class, message } => ErrView::Raised(class, message@),
        RbError::Exception { class, message } => ErrView::Raised(class, message@),
        RbError::Jump => ErrView::Jump,
    }
}

/// `e` with `extra` appended to its message (a jump stays as it is).
pub open spec fn with_context(e: ErrView, extra: Seq<char>) -> ErrView {
    match e {
        ErrView::Raised(class, message) => ErrView::Raised(class, message + extra),
        ErrView::Jump => ErrView::Jump,
    }
}

/// Utilities for reformatting error messages.
pub trait ExceptionMessage: Sized {
    /// Append a message to an exception.
    fn append(self, extra: &str) -> (r: Self);
}

impl ExceptionMessage for RbError {
    fn append(self, extra: &str) -> (r: RbError)
        ensures
            match appended(self, extra@) {
                Some((class, message)) => r matches RbError::Error { class: c, message: m }
                    && c == class && m@ == message,
                None => r == self,
            },
            err_view(r) == with_context(err_view(self), extra@),
    {
        match self {
            RbError::Error { class, message } => {
                let mut m = message;
                m.append(extra);
                RbError::Error { class, message: m }
            },
            RbError::Exception { class, message } => {
                let mut m = message;
                m.append(extra);
                RbError::Error { class, message: m }
            },
            RbError::Jump => RbError::Jump,
        }
    }
}

} // verus!
