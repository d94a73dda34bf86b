# wasmtime_rb

The core of a Ruby embedding of [Wasmtime](https://wasmtime.dev), written in
Verus: every decision the Ruby API makes (type matching of component
functions, conversions of values between Ruby and WebAssembly, bounds checks
on linear memory, option decoding, error messages, the lifetimes of callers,
linker instances and resources) is a verified function with a contract.

Layout:

- `src/` — the verified library.
  - `component_type.rs`, `component_value.rs`, `type_shape.rs`: component
    model types, their matcher and display, the types Wasmtime describes
    and which of them are refused, values and their conversion from and to
    Ruby objects (with the round-trip law).
  - `func_call.rs`, `wasm_value.rs`, `convert.rs`: calls of core functions
    and Ruby blocks, core values, value-type symbols.
  - `memory.rs`, `output_buffer.rs`: linear-memory accessors and guards,
    size-limited output streams.
  - `config.rs`, `symbol_enum.rs`, `value.rs`: engine options and the symbol
    enumerations Ruby code names values by.
  - `store_data.rs`, `handles.rs`, `linking.rs`, `externals.rs`,
    `wasi_config.rs`: store bookkeeping and limits, expiring handles,
    linking checks, externs and traps, WASI configuration.
  - `errors.rs`, `text.rs`, `wat_format.rs`, `stdin.rs`, `images.rs`:
    errors, text formatting, the WAT converter, file-backed stdin and the
    memory that compiled code reports.
- `tests/` — tests of the library on concrete values.
- `app/` — the Ruby extension itself (magnus glue): it reads Ruby values
  into the library's plain forms, calls Wasmtime, and raises the library's
  errors in Ruby.
