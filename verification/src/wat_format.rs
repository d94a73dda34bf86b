//! Converting the WebAssembly text format into the binary format.
use vstd::prelude::*;
use crate::errors::{is_error, ErrorClass, RbError};

verus! {

/// `wat::parse_str`: parses `text` as the WebAssembly text format and
/// encodes it in the binary format, or gives the parser's message. Nothing
/// is claimed of the outcome: besides the text, it depends on the process's
/// environment (`WAST_STRICT_COMPONENT_INDICES` decides whether the legacy
/// component index syntax is accepted).
#[verifier::external_body]
fn wat_parse_str(text: &str) -> Result<Vec<u8>, String> {
    match wat::parse_str(text) {
        Ok(bytes) => Ok(bytes),
        Err(e) => Err(e.to_string()),
    }
}

/// What `Wasmtime.wat2wasm` answers for what the parser gave: the bytes of
/// the binary module, or a `Wasmtime::Error` with the parser's message.
pub fn wat_result(parsed: Result<Vec<u8>, String>) -> (r: Result<Vec<u8>, RbError>)
    ensures
        match parsed {
            Ok(bytes) => r matches Ok(b) && b@ == bytes@,
            Err(message) => r is Err && is_error(r->Err_0, ErrorClass::Base, message@),
        },
{
    match parsed {
        Ok(bytes) => Ok(bytes),
        Err(message) => Err(RbError::Error { class: ErrorClass::Base, message }),
    }
}

/// The "Wasmtime" Ruby module, where module functions hang.
pub struct Wasmtime;

impl Wasmtime {
    /// Converts a WAT string into Wasm: the bytes of the binary module, or a
    /// `Wasmtime::Error` with the parser's message (see `wat_result`).
    pub fn wat2wasm(wat: &str) -> (r: Result<Vec<u8>, RbError>)
        ensures
            r is Err ==> r->Err_0 matches RbError::Error { class: ErrorClass::Base, .. },
    {
        wat_result(wat_parse_str(wat))
    }
}

} // verus!
