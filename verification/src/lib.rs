//! Verified core of the Ruby embedding of Wasmtime: the component type
//! system and its matcher, bounded output buffers, linear-memory accessors,
//! symbol-backed enumerations, configuration decoding and the bookkeeping
//! that the Ruby objects keep around Wasmtime's runtime objects.
pub mod errors;
pub mod text;
pub mod symbol_enum;
pub mod component_type;
pub mod output_buffer;
pub mod memory;
pub mod wat_format;
pub mod stdin;
pub mod convert;
pub mod value;
pub mod config;
pub mod component_value;
pub mod func_call;
pub mod handles;
pub mod store_data;
pub mod wasi_config;
pub mod externals;
pub mod wasm_value;
pub mod linking;
pub mod images;
pub mod type_shape;
