use std::sync::Arc;
use wasmtime_rb::errors::{
    missing_wasi_ctx_error, missing_wasi_error, missing_wasi_p1_ctx_error, ErrorClass, ExceptionMessage, RbError,
};
use wasmtime_rb::images::image_size;
use wasmtime_rb::output_buffer::{portion_to_write, OutputLimitedBuffer};
use wasmtime_rb::stdin::FileStdinStream;
use wasmtime_rb::text::{format_decimal, format_hex_lower, format_hex_padded, str_eq};
use wasmtime_rb::wat_format::{wat_result, Wasmtime};

#[test]
fn missing_wasi_messages_name_the_version_and_option() {
    assert_eq!(
        missing_wasi_ctx_error(),
        "Store is missing WASI configuration.\n\nWhen using `wasi: true`, the Store given to\n`Linker#instantiate` must have a WASI configuration.\nTo fix this, provide the `wasi_config` when creating the Store:\nWasmtime::Store.new(engine, wasi_config: WasiConfig.new)"
    );
    assert!(missing_wasi_p1_ctx_error().starts_with("Store is missing WASI p1 configuration."));
    assert!(missing_wasi_p1_ctx_error().ends_with("Wasmtime::Store.new(engine, wasi_p1_config: WasiConfig.new)"));
    assert!(missing_wasi_error("X", "y").contains("must have a X configuration"));
}

#[test]
fn appending_extends_messages_and_keeps_jumps() {
    let e = RbError::new(ErrorClass::Type, "bad".to_string()).append(" (here)");
    assert_eq!(e, RbError::Error { class: ErrorClass::Type, message: "bad (here)".to_string() });
    let x = RbError::Exception { class: ErrorClass::Runtime, message: "boom".to_string() }.append("!");
    assert_eq!(x, RbError::Error { class: ErrorClass::Runtime, message: "boom!".to_string() });
    assert_eq!(RbError::Jump.append("ignored"), RbError::Jump);
    assert_eq!(RbError::base("m".to_string()), RbError::Error { class: ErrorClass::Base, message: "m".to_string() });
}

#[test]
fn numbers_format_in_decimal_and_hex() {
    assert_eq!(format_decimal(0), "0");
    assert_eq!(format_decimal(1234567890), "1234567890");
    assert_eq!(format_hex_lower(255), "ff");
    assert_eq!(format_hex_lower(0), "0");
    assert_eq!(format_hex_padded(0xabc, 8), "00000abc");
    assert_eq!(format_hex_padded(u64::MAX, 4), "ffffffffffffffff");
    assert!(str_eq("abc", "abc"));
    assert!(!str_eq("abc", "abd"));
}

#[test]
fn write_portion_is_cut_at_capacity() {
    assert_eq!(portion_to_write(2, 3, 10, false).ok(), Some(3));
    assert_eq!(portion_to_write(8, 5, 10, false).ok(), Some(2));
    assert_eq!(portion_to_write(10, 0, 10, false).ok(), Some(0));
    assert_eq!(portion_to_write(12, 4, 10, false).ok(), Some(0));
    assert_eq!(portion_to_write(10, 4, 10, false).ok(), Some(0));
    assert_eq!(portion_to_write(0, 1, 10, true).unwrap_err().message, "Cannot write to a frozen buffer.");
}

#[test]
fn output_buffer_truncates_past_capacity() {
    let mut b = OutputLimitedBuffer::new(b"ab".to_vec(), false, 5);
    b.write(b"cd").unwrap();
    assert_eq!(b.contents(), &b"abcd".to_vec());
    b.write(b"efgh").unwrap();
    assert_eq!(b.contents(), &b"abcde".to_vec());
    b.write(b"ij").unwrap();
    assert_eq!(b.contents(), &b"abcde".to_vec());
    assert_eq!(b.check_write().ok(), Some(usize::MAX));
    assert!(b.flush().is_ok());
    assert!(!b.is_terminal());
}

#[test]
fn frozen_buffers_refuse_writes() {
    let mut b = OutputLimitedBuffer::new(Vec::new(), true, 5);
    assert_eq!(b.write(b"x").unwrap_err().message, "Cannot write to a frozen buffer.");
    assert!(b.contents().is_empty());
}

#[test]
fn two_writes_equal_one_concatenated_write() {
    let mut a = OutputLimitedBuffer::new(Vec::new(), false, 6);
    a.write(b"abcd").unwrap();
    a.write(b"efgh").unwrap();
    let mut b = OutputLimitedBuffer::new(Vec::new(), false, 6);
    b.write(b"abcdefgh").unwrap();
    assert_eq!(a.contents(), b.contents());
}

#[test]
fn wat2wasm_encodes_modules() {
    let bytes = Wasmtime::wat2wasm("(module)").unwrap();
    assert_eq!(bytes, b"\0asm\x01\0\0\0".to_vec());
    let e = Wasmtime::wat2wasm("(module").unwrap_err();
    match e {
        RbError::Error { class, message } => {
            assert_eq!(class, ErrorClass::Base);
            assert!(!message.is_empty());
            assert_ne!(message, "(module");
        },
        _ => panic!("expected an error"),
    }
}

#[test]
fn stdin_streams_keep_their_file() {
    let s = FileStdinStream::new(42u32);
    assert_eq!(**s.file(), 42);
    assert!(Arc::strong_count(s.file()) >= 1);
    assert!(!s.isatty());
}

#[test]
fn image_sizes_count_the_bytes_between_start_and_end() {
    assert_eq!(image_size(4096, 12288), 8192);
    assert_eq!(image_size(100, 101), 1);
    assert_eq!(image_size(500, 500), 0);
    assert_eq!(image_size(800, 200), 0);
}

#[test]
fn a_buffer_past_its_capacity_truncates_everything() {
    let mut b = OutputLimitedBuffer::new(b"abcdef".to_vec(), false, 4);
    assert!(b.write(b"xyz").is_ok());
    assert_eq!(b.contents(), &b"abcdef".to_vec());
    assert!(b.write(b"").is_ok());
    assert_eq!(b.contents(), &b"abcdef".to_vec());
}

#[test]
fn parser_outcomes_become_bytes_or_base_errors() {
    assert_eq!(wat_result(Ok(vec![0, 97, 115, 109])).unwrap(), vec![0, 97, 115, 109]);
    match wat_result(Err("expected `(`".to_string())).unwrap_err() {
        RbError::Error { class, message } => {
            assert_eq!(class, ErrorClass::Base);
            assert_eq!(message, "expected `(`");
        },
        other => panic!("unexpected {other:?}"),
    }
}
