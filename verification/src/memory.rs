//! Reading and writing the bytes of a WebAssembly linear memory: bounds
//! checks, little-endian integers and NUL-terminated strings. The functions
//! take the memory's current bytes, as Wasmtime hands them out.
use vstd::prelude::*;
use vstd::utf8::{decode_utf8, valid_utf8};
use crate::errors::{is_error, ErrorClass, RbError};

verus! {

/// The number of bytes in a WebAssembly page.
pub const WASM_PAGE_SIZE: u64 = 65536;

/// The message of the error for an access outside the memory.
pub open spec fn oob_message() -> Seq<char> {
    "out of bounds memory access"@
}

fn oob_error() -> (e: RbError)
    ensures
        is_error(e, ErrorClass::Base, oob_message()),
{
    RbError::Error { class: ErrorClass::Base, message: String::from_str("out of bounds memory access") }
}

/// Whether `size` bytes starting at `offset` lie within a memory of `len`
/// bytes.
pub open spec fn in_bounds(len: nat, offset: nat, size: nat) -> bool {
    offset <= len && size <= len - offset
}

/// The bytes of `data` from `offset` on, `size` of them.
pub open spec fn bytes_at(data: Seq<u8>, offset: nat, size: nat) -> Seq<u8> {
    data.subrange(offset as int, (offset + size) as int)
}

/// `data` with `bytes` written at `offset`.
pub open spec fn written(data: Seq<u8>, offset: nat, bytes: Seq<u8>) -> Seq<u8> {
    data.take(offset as int) + bytes + data.skip((offset + bytes.len()) as int)
}

/// 256 to the power `n`.
pub open spec fn pow256(n: nat) -> nat
    decreases n,
{
    if n == 0 { 1 } else { 256 * pow256((n - 1) as nat) }
}

/// The unsigned value of little-endian `bytes`.
pub open spec fn le_value(bytes: Seq<u8>) -> nat
    decreases bytes.len(),
{
    if bytes.len() == 0 {
        0
    } else {
        bytes[0] as nat + 256 * le_value(bytes.drop_first())
    }
}

/// The `n` little-endian bytes of `v` (the low `n` bytes of it).
pub open spec fn le_bytes(v: nat, n: nat) -> Seq<u8>
    decreases n,
{
    if n == 0 {
        Seq::empty()
    } else {
        seq![(v % 256) as u8] + le_bytes(v / 256, (n - 1) as nat)
    }
}

/// The position of the first NUL byte in `s`, or its length.
pub open spec fn first_nul(s: Seq<u8>) -> nat
    decreases s.len(),
{
    if s.len() == 0 {
        0
    } else if s[0] == 0 {
        0
    } else {
        1 + first_nul(s.drop_first())
    }
}

/// The C string at `offset`: the bytes up to the first NUL or the end of
/// the memory; nothing when `offset` lies past the end.
pub open spec fn cstring_at(data: Seq<u8>, offset: nat) -> Seq<u8> {
    if offset > data.len() {
        Seq::empty()
    } else {
        data.skip(offset as int).take(first_nul(data.skip(offset as int)) as int)
    }
}

proof fn lemma_pow256_monotonic(a: nat, b: nat)
    requires
        a <= b,
    ensures
        1 <= pow256(a) <= pow256(b),
    decreases b,
{
    if b > a {
        lemma_pow256_monotonic(a, (b - 1) as nat);
    } else if a > 0 {
        lemma_pow256_monotonic((a - 1) as nat, (a - 1) as nat);
    }
}

proof fn lemma_pow256_8()
    ensures
        pow256(8) == 0x1_0000_0000_0000_0000,
        pow256(4) == 0x1_0000_0000,
{
    reveal_with_fuel(pow256, 9);
}

proof fn lemma_le_value_bound(bytes: Seq<u8>)
    ensures
        le_value(bytes) < pow256(bytes.len()),
    decreases bytes.len(),
{
    if bytes.len() > 0 {
        lemma_le_value_bound(bytes.drop_first());
        let r = le_value(bytes.drop_first());
        let p = pow256(bytes.drop_first().len());
        let b = bytes[0] as nat;
        assert(b + 256 * r < 256 * p) by (nonlinear_arith)
            requires
                r < p,
                b < 256,
        ;
    }
}

/// Reads `size` bytes starting at `offset`.
pub fn read(data: &[u8], offset: usize, size: usize) -> (r: Result<Vec<u8>, RbError>)
    ensures
        in_bounds(data@.len(), offset as nat, size as nat) ==> r is Ok && r->Ok_0@ == bytes_at(data@, offset as nat, size as nat),
        !in_bounds(data@.len(), offset as nat, size as nat) ==> r is Err && is_error(r->Err_0, ErrorClass::Base, oob_message()),
{
    if offset > data.len() || size > data.len() - offset {
        return Err(oob_error());
    }
    let len = data.len();
    let mut v: Vec<u8> = Vec::new();
    let mut i: usize = 0;
    while i < size
        invariant
            len == data@.len(),
            offset + size <= data@.len(),
            i <= size,
            v@ == data@.subrange(offset as int, offset + i),
        decreases size - i,
    {
        v.push(data[offset + i]);
        assert(data@.subrange(offset as int, offset + i + 1) =~= data@.subrange(offset as int, offset + i).push(data@[offset + i]));
        i = i + 1;
    }
    Ok(v)
}

/// The message of the error for bytes that are not valid UTF-8.
pub uninterp spec fn utf8_error_message(bytes: Seq<u8>) -> Seq<char>;

/// `std::str::from_utf8`: the text that `bytes` encode when they are valid
/// UTF-8, else the message of the `Utf8Error`. The message is not stated.
#[verifier::external_body]
fn text_from_utf8(bytes: &[u8]) -> (r: Result<String, String>)
    ensures
        r is Ok <==> valid_utf8(bytes@),
        r matches Ok(s) ==> s@ == decode_utf8(bytes@),
        r matches Err(m) ==> m@ == utf8_error_message(bytes@),
{
    match std::str::from_utf8(bytes) {
        Ok(s) => Ok(s.to_string()),
        Err(e) => Err(e.to_string()),
    }
}

/// Reads `size` bytes starting at `offset` as UTF-8 text.
pub fn read_utf8(data: &[u8], offset: usize, size: usize) -> (r: Result<String, RbError>)
    ensures
        !in_bounds(data@.len(), offset as nat, size as nat) ==> r is Err && is_error(r->Err_0, ErrorClass::Base, oob_message()),
        in_bounds(data@.len(), offset as nat, size as nat) ==> {
            let bytes = bytes_at(data@, offset as nat, size as nat);
            &&& valid_utf8(bytes) ==> r is Ok && r->Ok_0@ == decode_utf8(bytes)
            &&& !valid_utf8(bytes) ==> r is Err && is_error(r->Err_0, ErrorClass::Base, utf8_error_message(bytes))
        },
{
    let bytes = match read(data, offset, size) {
        Ok(b) => b,
        Err(e) => return Err(e),
    };
    match text_from_utf8(bytes.as_slice()) {
        Ok(s) => Ok(s),
        Err(m) => Err(RbError::Error { class: ErrorClass::Base, message: m }),
    }
}

/// Writes `value` starting at `offset`; fails, leaving the memory as it
/// was, when `value` does not fit.
pub fn write(data: &mut [u8], offset: usize, value: &[u8]) -> (r: Result<(), RbError>)
    ensures
        in_bounds(old(data)@.len(), offset as nat, value@.len()) ==> r is Ok
            && final(data)@ == written(old(data)@, offset as nat, value@),
        !in_bounds(old(data)@.len(), offset as nat, value@.len()) ==> r is Err
            && is_error(r->Err_0, ErrorClass::Base, oob_message()) && final(data)@ == old(data)@,
{
    if offset > data.len() || value.len() > data.len() - offset {
        return Err(oob_error());
    }
    let len = data.len();
    let mut i: usize = 0;
    while i < value.len()
        invariant
            len == data@.len(),
            offset + value@.len() <= data@.len(),
            data@.len() == old(data)@.len(),
            i <= value@.len(),
            data@ == written(old(data)@, offset as nat, value@.take(i as int)),
        decreases value@.len() - i,
    {
        data[offset + i] = value[i];
        assert(data@ =~= written(old(data)@, offset as nat, value@.take(i + 1)));
        i = i + 1;
    }
    assert(value@.take(value@.len() as int) =~= value@);
    Ok(())
}

/// Reads `n` little-endian bytes at `offset` as an unsigned number.
fn read_le(data: &[u8], offset: usize, n: usize) -> (r: Result<u64, RbError>)
    requires
        n <= 8,
    ensures
        in_bounds(data@.len(), offset as nat, n as nat) ==> r is Ok
            && r->Ok_0 == le_value(bytes_at(data@, offset as nat, n as nat)),
        !in_bounds(data@.len(), offset as nat, n as nat) ==> r is Err && is_error(r->Err_0, ErrorClass::Base, oob_message()),
{
    if offset > data.len() || n > data.len() - offset {
        return Err(oob_error());
    }
    let end = offset + n;
    let mut k: usize = n;
    let mut acc: u64 = 0;
    proof {
        lemma_pow256_8();
        lemma_pow256_monotonic(n as nat, 8);
    }
    while k > 0
        invariant
            offset + n == end,
            end <= data@.len(),
            n <= 8,
            k <= n,
            pow256(n as nat) <= pow256(8),
            pow256(8) == 0x1_0000_0000_0000_0000,
            acc as nat == le_value(data@.subrange(offset + k, end as int)),
            (acc as nat) < pow256((n - k) as nat),
        decreases k,
    {
        let b = data[offset + k - 1];
        let ghost prev = data@.subrange(offset + k, end as int);
        let ghost next = data@.subrange(offset + k - 1, end as int);
        assert(next.drop_first() =~= prev);
        assert(next[0] == b);
        proof {
            lemma_pow256_monotonic((n - k + 1) as nat, n as nat);
            let p = pow256((n - k) as nat);
            assert(b + 256 * acc < 256 * p) by (nonlinear_arith)
                requires
                    acc < p,
                    b < 256,
            ;
        }
        acc = b as u64 + 256 * acc;
        k = k - 1;
    }
    Ok(acc)
}

/// Reads a little-endian `u32` starting at `offset`.
pub fn read_u32(data: &[u8], offset: usize) -> (r: Result<u32, RbError>)
    ensures
        in_bounds(data@.len(), offset as nat, 4) ==> r is Ok
            && r->Ok_0 == le_value(bytes_at(data@, offset as nat, 4)),
        !in_bounds(data@.len(), offset as nat, 4) ==> r is Err && is_error(r->Err_0, ErrorClass::Base, oob_message()),
{
    match read_le(data, offset, 4) {
        Ok(v) => {
            proof {
                lemma_le_value_bound(bytes_at(data@, offset as nat, 4));
                lemma_pow256_8();
            }
            Ok(v as u32)
        },
        Err(e) => Err(e),
    }
}

/// Reads a little-endian `i32` (two's complement) starting at `offset`.
pub fn read_i32(data: &[u8], offset: usize) -> (r: Result<i32, RbError>)
    ensures
        in_bounds(data@.len(), offset as nat, 4) ==> r is Ok
            && r->Ok_0 == le_value(bytes_at(data@, offset as nat, 4)) as i32,
        !in_bounds(data@.len(), offset as nat, 4) ==> r is Err && is_error(r->Err_0, ErrorClass::Base, oob_message()),
{
    match read_le(data, offset, 4) {
        Ok(v) => Ok(v as i32),
        Err(e) => Err(e),
    }
}

/// Reads a little-endian `u64` starting at `offset`.
pub fn read_u64(data: &[u8], offset: usize) -> (r: Result<u64, RbError>)
    ensures
        in_bounds(data@.len(), offset as nat, 8) ==> r is Ok
            && r->Ok_0 == le_value(bytes_at(data@, offset as nat, 8)),
        !in_bounds(data@.len(), offset as nat, 8) ==> r is Err && is_error(r->Err_0, ErrorClass::Base, oob_message()),
{
    read_le(data, offset, 8)
}

/// Reads a little-endian `i64` (two's complement) starting at `offset`.
pub fn read_i64(data: &[u8], offset: usize) -> (r: Result<i64, RbError>)
    ensures
        in_bounds(data@.len(), offset as nat, 8) ==> r is Ok
            && r->Ok_0 == le_value(bytes_at(data@, offset as nat, 8)) as i64,
        !in_bounds(data@.len(), offset as nat, 8) ==> r is Err && is_error(r->Err_0, ErrorClass::Base, oob_message()),
{
    match read_le(data, offset, 8) {
        Ok(v) => Ok(v as i64),
        Err(e) => Err(e),
    }
}

/// The `n` little-endian bytes of `v`, as `to_le_bytes` gives them.
pub fn le_bytes_of(v: u64, n: usize) -> (r: Vec<u8>)
    ensures
        r@ == le_bytes(v as nat, n as nat),
{
    let mut r: Vec<u8> = Vec::new();
    let mut x: u64 = v;
    let mut k: usize = 0;
    while k < n
        invariant
            k <= n,
            r@ + le_bytes(x as nat, (n - k) as nat) == le_bytes(v as nat, n as nat),
        decreases n - k,
    {
        let ghost rest = le_bytes((x / 256) as nat, (n - k - 1) as nat);
        assert(le_bytes(x as nat, (n - k) as nat) == seq![(x % 256) as u8] + rest);
        let ghost old_r = r@;
        r.push((x % 256) as u8);
        assert(r@ + rest =~= old_r + (seq![(x % 256) as u8] + rest));
        x = x / 256;
        k = k + 1;
    }
    assert(r@ + le_bytes(x as nat, 0) =~= r@);
    r
}

/// Writes `value` as a little-endian `u32` at `offset`.
pub fn write_u32(data: &mut [u8], offset: usize, value: u32) -> (r: Result<(), RbError>)
    ensures
        in_bounds(old(data)@.len(), offset as nat, 4) ==> r is Ok
            && final(data)@ == written(old(data)@, offset as nat, le_bytes(value as nat, 4)),
        !in_bounds(old(data)@.len(), offset as nat, 4) ==> r is Err
            && is_error(r->Err_0, ErrorClass::Base, oob_message()) && final(data)@ == old(data)@,
{
    let bytes = le_bytes_of(value as u64, 4);
    proof { lemma_le_bytes_len(value as nat, 4); }
    write(data, offset, bytes.as_slice())
}

/// Writes `value` as a little-endian `i32` (two's complement) at `offset`.
pub fn write_i32(data: &mut [u8], offset: usize, value: i32) -> (r: Result<(), RbError>)
    ensures
        in_bounds(old(data)@.len(), offset as nat, 4) ==> r is Ok
            && final(data)@ == written(old(data)@, offset as nat, le_bytes((value as u32) as nat, 4)),
        !in_bounds(old(data)@.len(), offset as nat, 4) ==> r is Err
            && is_error(r->Err_0, ErrorClass::Base, oob_message()) && final(data)@ == old(data)@,
{
    write_u32(data, offset, value as u32)
}

/// Writes `value` as a little-endian `u64` at `offset`.
pub fn write_u64(data: &mut [u8], offset: usize, value: u64) -> (r: Result<(), RbError>)
    ensures
        in_bounds(old(data)@.len(), offset as nat, 8) ==> r is Ok
            && final(data)@ == written(old(data)@, offset as nat, le_bytes(value as nat, 8)),
        !in_bounds(old(data)@.len(), offset as nat, 8) ==> r is Err
            && is_error(r->Err_0, ErrorClass::Base, oob_message()) && final(data)@ == old(data)@,
{
    let bytes = le_bytes_of(value, 8);
    proof { lemma_le_bytes_len(value as nat, 8); }
    write(data, offset, bytes.as_slice())
}

/// Writes `value` as a little-endian `i64` (two's complement) at `offset`.
pub fn write_i64(data: &mut [u8], offset: usize, value: i64) -> (r: Result<(), RbError>)
    ensures
        in_bounds(old(data)@.len(), offset as nat, 8) ==> r is Ok
            && final(data)@ == written(old(data)@, offset as nat, le_bytes((value as u64) as nat, 8)),
        !in_bounds(old(data)@.len(), offset as nat, 8) ==> r is Err
            && is_error(r->Err_0, ErrorClass::Base, oob_message()) && final(data)@ == old(data)@,
{
    write_u64(data, offset, value as u64)
}

proof fn lemma_le_bytes_len(v: nat, n: nat)
    ensures
        le_bytes(v, n).len() == n,
    decreases n,
{
    if n > 0 {
        lemma_le_bytes_len(v / 256, (n - 1) as nat);
    }
}

/// Reads the NUL-terminated C string starting at `offset`: the bytes up to
/// the first NUL, or to the end of the memory when there is none. An offset
/// past the end gives an empty string.
pub fn read_cstring(data: &[u8], offset: usize) -> (r: Vec<u8>)
    ensures
        r@ == cstring_at(data@, offset as nat),
{
    let len = data.len();
    let mut v: Vec<u8> = Vec::new();
    if offset > len {
        return v;
    }
    let ghost tail = data@.skip(offset as int);
    assert(tail.skip(0) =~= tail);
    let mut i: usize = offset;
    while i < len && data[i] != 0
        invariant
            len == data@.len(),
            offset <= i <= len,
            tail == data@.skip(offset as int),
            v@ == tail.take(i - offset),
            first_nul(tail) == (i - offset) + first_nul(tail.skip(i - offset)),
        decreases len - i,
    {
        let ghost rest = tail.skip(i - offset);
        assert(rest[0] == data@[i as int]);
        assert(rest.drop_first() =~= tail.skip(i - offset + 1));
        v.push(data[i]);
        assert(tail.take(i + 1 - offset) =~= tail.take(i - offset).push(data@[i as int]));
        i = i + 1;
    }
    proof {
        let rest = tail.skip(i - offset);
        if i < len {
            assert(rest[0] == data@[i as int]);
        }
        assert(first_nul(rest) == 0);
    }
    v
}

/// Whether `bytes` holds a NUL byte.
pub open spec fn has_nul(bytes: Seq<u8>) -> bool {
    exists|i: int| 0 <= i < bytes.len() && bytes[i] == 0
}

/// The message of the error for a string with a NUL byte.
pub open spec fn nul_message() -> Seq<char> {
    "string contains null byte"@
}

/// Writes `value`'s bytes followed by a NUL terminator at `offset`. A value
/// that holds a NUL byte is refused with an `ArgumentError`; a value that
/// does not fit with its terminator fails as an out-of-bounds access.
pub fn write_cstring(data: &mut [u8], offset: usize, value: &[u8]) -> (r: Result<(), RbError>)
    ensures
        has_nul(value@) ==> r is Err && is_error(r->Err_0, ErrorClass::Argument, nul_message())
            && final(data)@ == old(data)@,
        !has_nul(value@) && !in_bounds(old(data)@.len(), offset as nat, value@.len() + 1) ==> r is Err
            && is_error(r->Err_0, ErrorClass::Base, oob_message()) && final(data)@ == old(data)@,
        !has_nul(value@) && in_bounds(old(data)@.len(), offset as nat, value@.len() + 1) ==> r is Ok
            && final(data)@ == written(old(data)@, offset as nat, value@.push(0)),
{
    let n = value.len();
    let mut j: usize = 0;
    while j < n
        invariant
            n == value@.len(),
            j <= n,
            forall|k: int| 0 <= k < j ==> value@[k] != 0,
        decreases n - j,
    {
        if value[j] == 0 {
            return Err(RbError::Error { class: ErrorClass::Argument, message: String::from_str("string contains null byte") });
        }
        j = j + 1;
    }
    let len = data.len();
    if offset > len || n >= len - offset {
        return Err(oob_error());
    }
    let mut i: usize = 0;
    while i < n
        invariant
            len == data@.len(),
            data@.len() == old(data)@.len(),
            n == value@.len(),
            offset + n < len,
            i <= n,
            data@ == written(old(data)@, offset as nat, value@.take(i as int)),
        decreases n - i,
    {
        data[offset + i] = value[i];
        assert(data@ =~= written(old(data)@, offset as nat, value@.take(i + 1)));
        i = i + 1;
    }
    data[offset + n] = 0;
    assert(value@.take(n as int) =~= value@);
    assert(data@ =~= written(old(data)@, offset as nat, value@.push(0)));
    Ok(())
}

// ---------------------------------------------------------------------------
// Laws
// ---------------------------------------------------------------------------

/// Reading back the bytes just written gives them, and a write keeps the
/// memory's size.
pub proof fn lemma_read_after_write(data: Seq<u8>, offset: nat, bytes: Seq<u8>)
    requires
        in_bounds(data.len(), offset, bytes.len()),
    ensures
        written(data, offset, bytes).len() == data.len(),
        bytes_at(written(data, offset, bytes), offset, bytes.len()) == bytes,
{
    assert(bytes_at(written(data, offset, bytes), offset, bytes.len()) =~= bytes);
}

/// A write leaves every byte outside the written range as it was.
pub proof fn lemma_write_frame(data: Seq<u8>, offset: nat, bytes: Seq<u8>, i: int)
    requires
        in_bounds(data.len(), offset, bytes.len()),
        0 <= i < data.len(),
        i < offset || i >= offset + bytes.len(),
    ensures
        written(data, offset, bytes)[i] == data[i],
{
}

/// Decoding the little-endian bytes of a number that fits in them gives the
/// number back.
pub proof fn lemma_le_roundtrip(v: nat, n: nat)
    requires
        v < pow256(n),
    ensures
        le_bytes(v, n).len() == n,
        le_value(le_bytes(v, n)) == v,
    decreases n,
{
    lemma_le_bytes_len(v, n);
    if n > 0 {
        let p = pow256((n - 1) as nat);
        assert(v / 256 < p) by (nonlinear_arith)
            requires
                v < 256 * p,
        ;
        lemma_le_roundtrip(v / 256, (n - 1) as nat);
        let bs = le_bytes(v, n);
        assert(bs.drop_first() =~= le_bytes(v / 256, (n - 1) as nat));
        assert(v == v % 256 + 256 * (v / 256)) by (nonlinear_arith);
    }
}

/// A `u32` written at an offset reads back as the same `u32`.
pub proof fn lemma_u32_write_read(data: Seq<u8>, offset: nat, value: u32)
    requires
        in_bounds(data.len(), offset, 4),
    ensures
        le_value(bytes_at(written(data, offset, le_bytes(value as nat, 4)), offset, 4)) == value,
{
    lemma_pow256_8();
    lemma_le_roundtrip(value as nat, 4);
    lemma_read_after_write(data, offset, le_bytes(value as nat, 4));
}

/// A `u64` written at an offset reads back as the same `u64`.
pub proof fn lemma_u64_write_read(data: Seq<u8>, offset: nat, value: u64)
    requires
        in_bounds(data.len(), offset, 8),
    ensures
        le_value(bytes_at(written(data, offset, le_bytes(value as nat, 8)), offset, 8)) == value,
{
    lemma_pow256_8();
    lemma_le_roundtrip(value as nat, 8);
    lemma_read_after_write(data, offset, le_bytes(value as nat, 8));
}

proof fn lemma_first_nul_of_terminated(s: Seq<u8>, t: Seq<u8>)
    requires
        !has_nul(s),
        t.len() > 0,
        t[0] == 0,
    ensures
        first_nul(s + t) == s.len(),
    decreases s.len(),
{
    if s.len() > 0 {
        assert((s + t)[0] == s[0]);
        assert(!has_nul(s.drop_first())) by {
            if has_nul(s.drop_first()) {
                let k = choose|k: int| 0 <= k < s.drop_first().len() && s.drop_first()[k] == 0;
                assert(s[k + 1] == 0);
            }
        }
        assert((s + t).drop_first() =~= s.drop_first() + t);
        lemma_first_nul_of_terminated(s.drop_first(), t);
    } else {
        assert(s + t =~= t);
    }
}

/// A C string written at an offset reads back as the same string.
pub proof fn lemma_cstring_write_read(data: Seq<u8>, offset: nat, value: Seq<u8>)
    requires
        !has_nul(value),
        in_bounds(data.len(), offset, value.len() + 1),
    ensures
        cstring_at(written(data, offset, value.push(0)), offset) == value,
{
    let w = written(data, offset, value.push(0));
    let tail = w.skip(offset as int);
    let t = seq![0u8] + data.skip((offset + value.len() + 1) as int);
    assert(tail =~= value + t);
    lemma_first_nul_of_terminated(value, t);
    assert(tail.take(value.len() as int) =~= value);
}

// ---------------------------------------------------------------------------
// Slices of a memory
// ---------------------------------------------------------------------------

/// The message of the error for a slice whose memory was resized.
pub open spec fn resized_message() -> Seq<char> {
    "memory slice was invalidated by resize"@
}

/// A guard that ensures that a memory slice is not invalidated by
/// resizing: it remembers the memory's size (in pages) when it was taken.
pub struct MemoryGuard<M> {
    memory: M,
    original_size: u64,
}

impl<M> MemoryGuard<M> {
    pub closed spec fn spec_memory(&self) -> M {
        self.memory
    }

    pub closed spec fn spec_original_size(&self) -> u64 {
        self.original_size
    }

    /// Guards `memory`, whose size is `original_size` pages.
    pub fn new(memory: M, original_size: u64) -> (g: Self)
        ensures
            g.spec_memory() == memory,
            g.spec_original_size() == original_size,
    {
        MemoryGuard { memory, original_size }
    }

    /// The guarded memory itself, to ask for its current size.
    pub fn guarded(&self) -> (m: &M)
        ensures
            *m == self.spec_memory(),
    {
        &self.memory
    }

    /// The memory, provided that its size is still `current_size`, the size
    /// it had when the guard was taken.
    pub fn get(&self, current_size: u64) -> (r: Result<&M, RbError>)
        ensures
            current_size == self.spec_original_size() ==> r is Ok && *r->Ok_0 == self.spec_memory(),
            current_size != self.spec_original_size() ==> r is Err
                && is_error(r->Err_0, ErrorClass::Base, resized_message()),
    {
        if current_size != self.original_size {
            Err(RbError::Error { class: ErrorClass::Base, message: String::from_str("memory slice was invalidated by resize") })
        } else {
            Ok(&self.memory)
        }
    }
}

/// A slice of a WebAssembly memory: the bytes from `start` to `end`, read
/// without copying for as long as the memory keeps its size.
pub struct Slice<M> {
    memory: MemoryGuard<M>,
    start: usize,
    end: usize,
}

impl<M> Slice<M> {
    pub closed spec fn spec_guard(&self) -> MemoryGuard<M> {
        self.memory
    }

    pub closed spec fn spec_start(&self) -> usize {
        self.start
    }

    pub closed spec fn spec_end(&self) -> usize {
        self.end
    }

    /// The guard of the slice's memory.
    pub fn guard(&self) -> (g: &MemoryGuard<M>)
        ensures
            *g == self.spec_guard(),
    {
        &self.memory
    }

    /// A slice of the guarded memory from `start` to `end`, checked against
    /// the memory's bytes `data` and its size `current_size`.
    pub fn new(memory: MemoryGuard<M>, start: usize, end: usize, current_size: u64, data: &[u8]) -> (r: Result<Self, RbError>)
        ensures
            current_size != memory.spec_original_size() ==> r is Err
                && is_error(r->Err_0, ErrorClass::Base, resized_message()),
            current_size == memory.spec_original_size() && !(start <= end && end <= data@.len()) ==> r is Err
                && is_error(r->Err_0, ErrorClass::Base, oob_message()),
            current_size == memory.spec_original_size() && start <= end && end <= data@.len() ==> r is Ok
                && r->Ok_0.spec_guard() == memory && r->Ok_0.spec_start() == start && r->Ok_0.spec_end() == end,
    {
        let slice = Slice { memory, start, end };
        match slice.get_raw_slice(current_size, data) {
            Ok(_) => {},
            Err(e) => return Err(e),
        }
        Ok(slice)
    }

    /// The bytes of the slice, provided the memory kept its size
    /// (`current_size`) and still holds the slice's range.
    pub fn get_raw_slice<'d>(&self, current_size: u64, data: &'d [u8]) -> (r: Result<&'d [u8], RbError>)
        ensures
            current_size != self.spec_guard().spec_original_size() ==> r is Err
                && is_error(r->Err_0, ErrorClass::Base, resized_message()),
            current_size == self.spec_guard().spec_original_size() && !(self.spec_start() <= self.spec_end()
                && self.spec_end() <= data@.len()) ==> r is Err && is_error(r->Err_0, ErrorClass::Base, oob_message()),
            current_size == self.spec_guard().spec_original_size() && self.spec_start() <= self.spec_end()
                && self.spec_end() <= data@.len() ==> r is Ok
                && r->Ok_0@ == data@.subrange(self.spec_start() as int, self.spec_end() as int),
    {
        match self.memory.get(current_size) {
            Ok(_) => {},
            Err(e) => return Err(e),
        }
        if self.start <= self.end && self.end <= data.len() {
            Ok(&data[self.start..self.end])
        } else {
            Err(oob_error())
        }
    }
}

} // verus!
