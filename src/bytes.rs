//! Fixed-width integer fields read from a byte buffer in either byte order.
use vstd::prelude::*;

verus! {

/// The unsigned value of the two bytes at `p`; `motorola` selects big-endian.
pub open spec fn u16_val(b: Seq<u8>, p: int, motorola: bool) -> int {
    if motorola {
        b[p] as int * 0x100 + b[p + 1] as int
    } else {
        b[p] as int + b[p + 1] as int * 0x100
    }
}

/// The unsigned value of the four bytes at `p`.
pub open spec fn u32_val(b: Seq<u8>, p: int, motorola: bool) -> int {
    if motorola {
        u16_val(b, p, true) * 0x1_0000 + u16_val(b, p + 2, true)
    } else {
        u16_val(b, p, false) + u16_val(b, p + 2, false) * 0x1_0000
    }
}

/// The unsigned value of the eight bytes at `p`.
pub open spec fn u64_val(b: Seq<u8>, p: int, motorola: bool) -> int {
    if motorola {
        u32_val(b, p, true) * 0x1_0000_0000 + u32_val(b, p + 4, true)
    } else {
        u32_val(b, p, false) + u32_val(b, p + 4, false) * 0x1_0000_0000
    }
}

/// Two's-complement reading of an 8-bit unsigned value.
pub open spec fn i8_of(u: int) -> int {
    if u < 0x80 { u } else { u - 0x100 }
}

/// Two's-complement reading of a 16-bit unsigned value.
pub open spec fn i16_of(u: int) -> int {
    if u < 0x8000 { u } else { u - 0x1_0000 }
}

/// Two's-complement reading of a 32-bit unsigned value.
pub open spec fn i32_of(u: int) -> int {
    if u < 0x8000_0000 { u } else { u - 0x1_0000_0000 }
}

/// Reads a 16-bit field; the caller has checked that it lies in the buffer.
pub fn read_u16(b: &[u8], pos: usize, motorola: bool) -> (r: u16)
    requires
        pos + 2 <= b@.len(),
    ensures
        r as int == u16_val(b@, pos as int, motorola),
{
    let b0 = b[pos] as u16;
    let b1 = b[pos + 1] as u16;
    if motorola {
        b0 * 0x100 + b1
    } else {
        b0 + b1 * 0x100
    }
}

/// Reads a 32-bit field; the caller has checked that it lies in the buffer.
pub fn read_u32(b: &[u8], pos: usize, motorola: bool) -> (r: u32)
    requires
        pos + 4 <= b@.len(),
    ensures
        r as int == u32_val(b@, pos as int, motorola),
{
    assert(pos + 4 <= b.len());
    let lo = read_u16(b, pos, motorola) as u32;
    let hi = read_u16(b, pos + 2, motorola) as u32;
    if motorola {
        lo * 0x1_0000 + hi
    } else {
        lo + hi * 0x1_0000
    }
}

/// Reads a 64-bit field; the caller has checked that it lies in the buffer.
pub fn read_u64(b: &[u8], pos: usize, motorola: bool) -> (r: u64)
    requires
        pos + 8 <= b@.len(),
    ensures
        r as int == u64_val(b@, pos as int, motorola),
{
    assert(pos + 8 <= b.len());
    let lo = read_u32(b, pos, motorola) as u64;
    let hi = read_u32(b, pos + 4, motorola) as u64;
    if motorola {
        lo * 0x1_0000_0000 + hi
    } else {
        lo + hi * 0x1_0000_0000
    }
}

/// Reinterprets a byte as a signed byte.
pub fn to_i8(u: u8) -> (r: i8)
    ensures
        r as int == i8_of(u as int),
{
    if u < 0x80 {
        u as i8
    } else {
        (u as i16 - 0x100) as i8
    }
}

/// Reinterprets a 16-bit value as a signed one.
pub fn to_i16(u: u16) -> (r: i16)
    ensures
        r as int == i16_of(u as int),
{
    if u < 0x8000 {
        u as i16
    } else {
        (u as i32 - 0x1_0000) as i16
    }
}

/// Reinterprets a 32-bit value as a signed one.
pub fn to_i32(u: u32) -> (r: i32)
    ensures
        r as int == i32_of(u as int),
{
    if u < 0x8000_0000 {
        u as i32
    } else {
        (u as i64 - 0x1_0000_0000) as i32
    }
}

} // verus!
