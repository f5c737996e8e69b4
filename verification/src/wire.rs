//! Reading fields out of a tightly packed, little-endian record.

use crate::errors::viewed;
use crate::errors::DecodeError;
use vstd::prelude::*;
use vstd::slice::slice_subrange;
use vstd::string::StringSliceAdditionalSpecFns;
use vstd::utf8::*;

verus! {

/// The unsigned 32-bit number stored least significant byte first at `at`.
pub open spec fn u32_at(data: Seq<u8>, at: int) -> int {
    data[at] + 0x100 * data[at + 1] + 0x1_0000 * data[at + 2] + 0x100_0000 * data[at + 3]
}

/// The signed 32-bit number stored at `at`, in two's complement.
pub open spec fn i32_at(data: Seq<u8>, at: int) -> int {
    if u32_at(data, at) < 0x8000_0000 {
        u32_at(data, at)
    } else {
        u32_at(data, at) - 0x1_0000_0000
    }
}

/// The unsigned 64-bit number stored least significant byte first at `at`.
pub open spec fn u64_at(data: Seq<u8>, at: int) -> int {
    u32_at(data, at) + 0x1_0000_0000 * u32_at(data, at + 4)
}

/// The signed 64-bit number stored at `at`, in two's complement.
pub open spec fn i64_at(data: Seq<u8>, at: int) -> int {
    if u64_at(data, at) < 0x8000_0000_0000_0000 {
        u64_at(data, at)
    } else {
        u64_at(data, at) - 0x1_0000_0000_0000_0000
    }
}

/// Whether `width` bytes starting at `at` lie inside the record.
pub open spec fn in_bounds(data: Seq<u8>, at: int, width: int) -> bool {
    0 <= at && 0 <= width && at + width <= data.len()
}

/// The position of the first zero byte in `from..to`, if there is one.
pub open spec fn first_nul(data: Seq<u8>, from: int, to: int) -> Option<int>
    decreases to - from,
{
    if from >= to {
        None
    } else if data[from] == 0 {
        Some(from)
    } else {
        first_nul(data, from + 1, to)
    }
}

/// The text of a terminated string that lives in `from..to`: the bytes before
/// the first zero byte, decoded as UTF-8.
pub open spec fn c_string_in(data: Seq<u8>, from: int, to: int) -> Result<Seq<char>, DecodeError> {
    match first_nul(data, from, to) {
        None => Err(DecodeError::MalformedString),
        Some(end) => if valid_utf8(data.subrange(from, end)) {
            Ok(decode_utf8(data.subrange(from, end)))
        } else {
            Err(DecodeError::MalformedString)
        },
    }
}

/// The text of the fixed-width string field of `width` bytes at `at`.
pub open spec fn c_string_at(data: Seq<u8>, at: int, width: int) -> Result<Seq<char>, DecodeError> {
    if !in_bounds(data, at, width) {
        Err(DecodeError::Truncated)
    } else {
        c_string_in(data, at, at + width)
    }
}

/// `first_nul` finds a zero byte, nothing before it is zero, and it finds
/// nothing only where nothing is zero.
pub proof fn lemma_first_nul(data: Seq<u8>, from: int, to: int)
    requires
        0 <= from,
        to <= data.len(),
    ensures
        match first_nul(data, from, to) {
            Some(end) => from <= end < to && data[end] == 0 && forall|i: int|
                from <= i < end ==> data[i] != 0,
            None => forall|i: int| from <= i < to ==> data[i] != 0,
        },
    decreases to - from,
{
    if from < to && data[from] != 0 {
        lemma_first_nul(data, from + 1, to);
    }
}

/// A zero byte at `end` with none before it is the one `first_nul` finds.
pub proof fn lemma_first_nul_is(data: Seq<u8>, from: int, to: int, end: int)
    requires
        0 <= from <= end < to <= data.len(),
        data[end] == 0,
        forall|i: int| from <= i < end ==> data[i] != 0,
    ensures
        first_nul(data, from, to) == Some(end),
    decreases end - from,
{
    if from < end {
        lemma_first_nul_is(data, from + 1, to, end);
    }
}

/// Reads the unsigned 32-bit number at `at`.
pub fn read_u32(data: &[u8], at: usize) -> (r: Result<u32, DecodeError>)
    ensures
        match r {
            Ok(v) => in_bounds(data@, at as int, 4) && v == u32_at(data@, at as int),
            Err(e) => !in_bounds(data@, at as int, 4) && e == DecodeError::Truncated,
        },
{
    if data.len() < 4 || at > data.len() - 4 {
        return Err(DecodeError::Truncated);
    }
    let b0: u32 = data[at] as u32;
    let b1: u32 = data[at + 1] as u32;
    let b2: u32 = data[at + 2] as u32;
    let b3: u32 = data[at + 3] as u32;
    Ok(b0 + 0x100 * b1 + 0x1_0000 * b2 + 0x100_0000 * b3)
}

/// Reads the signed 32-bit number at `at`.
pub fn read_i32(data: &[u8], at: usize) -> (r: Result<i32, DecodeError>)
    ensures
        match r {
            Ok(v) => in_bounds(data@, at as int, 4) && v == i32_at(data@, at as int),
            Err(e) => !in_bounds(data@, at as int, 4) && e == DecodeError::Truncated,
        },
{
    match read_u32(data, at) {
        Err(e) => Err(e),
        Ok(bits) => Ok(i32_from_bits(bits)),
    }
}

/// The signed number that has the same 32 bits as `bits`.
pub fn i32_from_bits(bits: u32) -> (v: i32)
    ensures
        v == (if bits < 0x8000_0000 {
            bits as int
        } else {
            bits - 0x1_0000_0000
        }),
{
    if bits < 0x8000_0000 {
        bits as i32
    } else {
        let low: i32 = (bits - 0x8000_0000) as i32;
        low - 0x7fff_ffff - 1
    }
}

/// Reads the unsigned 64-bit number at `at`.
pub fn read_u64(data: &[u8], at: usize) -> (r: Result<u64, DecodeError>)
    ensures
        match r {
            Ok(v) => in_bounds(data@, at as int, 8) && v == u64_at(data@, at as int),
            Err(e) => !in_bounds(data@, at as int, 8) && e == DecodeError::Truncated,
        },
{
    if data.len() < 8 || at > data.len() - 8 {
        return Err(DecodeError::Truncated);
    }
    let low = read_u32(data, at);
    let high = read_u32(data, at + 4);
    match (low, high) {
        (Ok(l), Ok(h)) => {
            let l64: u64 = l as u64;
            let h64: u64 = h as u64;
            Ok(l64 + 0x1_0000_0000 * h64)
        },
        _ => Err(DecodeError::Truncated),
    }
}

/// The signed number that has the same 64 bits as `bits`.
pub fn i64_from_bits(bits: u64) -> (v: i64)
    ensures
        v == (if bits < 0x8000_0000_0000_0000 {
            bits as int
        } else {
            bits - 0x1_0000_0000_0000_0000
        }),
{
    if bits < 0x8000_0000_0000_0000 {
        bits as i64
    } else {
        let low: i64 = (bits - 0x8000_0000_0000_0000) as i64;
        low - 0x7fff_ffff_ffff_ffff - 1
    }
}

/// Reads the signed 64-bit number at `at`.
pub fn read_i64(data: &[u8], at: usize) -> (r: Result<i64, DecodeError>)
    ensures
        match r {
            Ok(v) => in_bounds(data@, at as int, 8) && v == i64_at(data@, at as int),
            Err(e) => !in_bounds(data@, at as int, 8) && e == DecodeError::Truncated,
        },
{
    match read_u64(data, at) {
        Err(e) => Err(e),
        Ok(bits) => Ok(i64_from_bits(bits)),
    }
}

/// Declares the error of `core::str::from_utf8`, which is only ever passed on.
#[verifier::external_type_specification]
#[verifier::external_body]
pub struct ExUtf8Error(core::str::Utf8Error);

/// `core::str::from_utf8` accepts exactly the byte sequences that are valid
/// UTF-8, and the string slice it returns is made of the bytes it was given.
pub assume_specification<'a>[ core::str::from_utf8 ](v: &'a [u8]) -> (r: Result<
    &'a str,
    core::str::Utf8Error,
>)
    ensures
        r is Ok <==> valid_utf8(v@),
        r matches Ok(s) ==> s.spec_bytes() == v@,
;

/// Finds the first zero byte in `from..to`.
pub fn find_nul(data: &[u8], from: usize, to: usize) -> (r: Option<usize>)
    requires
        from <= to <= data.len(),
    ensures
        match r {
            Some(end) => first_nul(data@, from as int, to as int) == Some(end as int),
            None => first_nul(data@, from as int, to as int) is None,
        },
{
    let mut i: usize = from;
    while i < to
        invariant
            from <= i <= to <= data.len(),
            forall|j: int| from <= j < i ==> data@[j] != 0,
        decreases to - i,
    {
        if data[i] == 0 {
            proof {
                lemma_first_nul_is(data@, from as int, to as int, i as int);
            }
            return Some(i);
        }
        i += 1;
    }
    proof {
        lemma_first_nul(data@, from as int, to as int);
    }
    None
}

/// Reads the terminated string that lives in `from..to`.
pub fn read_c_string_in(data: &[u8], from: usize, to: usize) -> (r: Result<String, DecodeError>)
    requires
        from <= to <= data.len(),
    ensures
        viewed(r) == c_string_in(data@, from as int, to as int),
{
    match find_nul(data, from, to) {
        None => Err(DecodeError::MalformedString),
        Some(end) => {
            proof {
                lemma_first_nul(data@, from as int, to as int);
            }
            let raw = slice_subrange(data, from, end);
            match core::str::from_utf8(raw) {
                Err(_) => Err(DecodeError::MalformedString),
                Ok(text) => {
                    proof {
                        encode_utf8_decode_utf8(text@);
                    }
                    Ok(text.to_owned())
                },
            }
        },
    }
}

/// Reads the fixed-width string field of `width` bytes at `at`.
pub fn read_c_string(data: &[u8], at: usize, width: usize) -> (r: Result<String, DecodeError>)
    ensures
        viewed(r) == c_string_at(data@, at as int, width as int),
{
    if data.len() < width || at > data.len() - width {
        return Err(DecodeError::Truncated);
    }
    read_c_string_in(data, at, at + width)
}

} // verus!
