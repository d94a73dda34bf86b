use wasmtime_rb::errors::{ErrorClass, RbError};
use wasmtime_rb::memory::{
    le_bytes_of, read, read_cstring, read_i32, read_i64, read_u32, read_u64, read_utf8,
    write_cstring, write_i32, write_i64, write_u32, write_u64, MemoryGuard, Slice, WASM_PAGE_SIZE,
};

fn message(e: &RbError) -> (ErrorClass, String) {
    match e {
        RbError::Error { class, message } => (*class, message.clone()),
        RbError::Exception { class, message } => (*class, message.clone()),
        RbError::Jump => (ErrorClass::Base, String::new()),
    }
}

fn oob() -> (ErrorClass, String) {
    (ErrorClass::Base, "out of bounds memory access".to_string())
}

#[test]
fn page_size_is_64k() {
    assert_eq!(WASM_PAGE_SIZE, 65536);
}

#[test]
fn read_gives_the_bytes_in_bounds() {
    let data = [1u8, 2, 3, 4, 5];
    assert_eq!(read(&data, 1, 3).unwrap(), vec![2, 3, 4]);
    assert_eq!(read(&data, 5, 0).unwrap(), Vec::<u8>::new());
    assert_eq!(message(&read(&data, 3, 3).unwrap_err()), oob());
    assert_eq!(message(&read(&data, usize::MAX, 2).unwrap_err()), oob());
}

#[test]
fn read_utf8_decodes_or_reports() {
    let data = "héllo".as_bytes();
    assert_eq!(read_utf8(data, 0, data.len()).unwrap(), "héllo");
    let bad = [0x61u8, 0xff, 0x62];
    let e = read_utf8(&bad, 0, 3).unwrap_err();
    let expected = std::str::from_utf8(&bad).unwrap_err().to_string();
    assert_eq!(message(&e), (ErrorClass::Base, expected));
    assert_eq!(message(&read_utf8(&bad, 2, 2).unwrap_err()), oob());
}

#[test]
fn write_then_read_gives_back_the_bytes() {
    let mut data = [0u8; 8];
    wasmtime_rb::memory::write(&mut data, 2, &[9, 8, 7]).unwrap();
    assert_eq!(data, [0, 0, 9, 8, 7, 0, 0, 0]);
    assert_eq!(read(&data, 2, 3).unwrap(), vec![9, 8, 7]);
    let e = wasmtime_rb::memory::write(&mut data, 6, &[1, 2, 3]).unwrap_err();
    assert_eq!(message(&e), oob());
    assert_eq!(data, [0, 0, 9, 8, 7, 0, 0, 0]);
}

#[test]
fn integers_are_little_endian() {
    let mut data = [0u8; 16];
    write_u32(&mut data, 0, 0x0102_0304).unwrap();
    assert_eq!(&data[0..4], &[4, 3, 2, 1]);
    assert_eq!(read_u32(&data, 0).unwrap(), 0x0102_0304);
    write_i32(&mut data, 4, -2).unwrap();
    assert_eq!(read_i32(&data, 4).unwrap(), -2);
    write_u64(&mut data, 8, 0x1122_3344_5566_7788).unwrap();
    assert_eq!(data[8], 0x88);
    assert_eq!(read_u64(&data, 8).unwrap(), 0x1122_3344_5566_7788);
    write_i64(&mut data, 8, i64::MIN).unwrap();
    assert_eq!(read_i64(&data, 8).unwrap(), i64::MIN);
    assert_eq!(message(&read_u64(&data, 9).unwrap_err()), oob());
    assert_eq!(le_bytes_of(0x0a0b, 3), vec![0x0b, 0x0a, 0]);
}

#[test]
fn cstrings_stop_at_the_first_nul() {
    let data = [b'h', b'i', 0, b'x'];
    assert_eq!(read_cstring(&data, 0), b"hi".to_vec());
    assert_eq!(read_cstring(&data, 3), b"x".to_vec());
    assert_eq!(read_cstring(&data, 9), Vec::<u8>::new());
}

#[test]
fn write_cstring_appends_a_nul() {
    let mut data = [0xffu8; 6];
    write_cstring(&mut data, 1, b"ab").unwrap();
    assert_eq!(data, [0xff, b'a', b'b', 0, 0xff, 0xff]);
    assert_eq!(read_cstring(&data, 1), b"ab".to_vec());
    let e = write_cstring(&mut data, 0, b"a\0b").unwrap_err();
    assert_eq!(message(&e), (ErrorClass::Argument, "string contains null byte".to_string()));
    let e = write_cstring(&mut data, 4, b"ab").unwrap_err();
    assert_eq!(message(&e), oob());
}

#[test]
fn guards_fail_after_a_resize() {
    let g = MemoryGuard::new("mem", 2);
    assert_eq!(*g.get(2).unwrap(), "mem");
    let e = g.get(3).unwrap_err();
    assert_eq!(message(&e), (ErrorClass::Base, "memory slice was invalidated by resize".to_string()));
}

#[test]
fn slices_read_their_range_while_the_size_holds() {
    let data = [10u8, 11, 12, 13];
    let s = Slice::new(MemoryGuard::new((), 1), 1, 3, 1, &data).unwrap();
    assert_eq!(s.get_raw_slice(1, &data).unwrap(), &[11, 12]);
    assert_eq!(message(&s.get_raw_slice(2, &data).unwrap_err()).1, "memory slice was invalidated by resize");
    assert_eq!(message(&s.get_raw_slice(1, &data[0..2]).unwrap_err()), oob());
    let e = Slice::new(MemoryGuard::new((), 1), 3, 5, 1, &data).err().unwrap();
    assert_eq!(message(&e), oob());
}
