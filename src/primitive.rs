//! The numeric types a scan can be run with, and how each is read from
//! memory.
use vstd::prelude::*;

use crate::bytes::{le_value, read_le};
use crate::filter::{int_matches, ScanFilter};

verus! {

/// A primitive numeric type that values in memory can be read as.
///
/// Values are read at any byte offset (no alignment), in little-endian order.
///
/// The integer types implement this trait here, with their specifications.
pub trait Primitive: Copy + Send + Sync + Sized {
    /// Size of the type in bytes.
    spec fn byte_width() -> nat;

    /// The number a value stands for.
    spec fn num(self) -> int;

    /// The number stored in `byte_width()` bytes whose little-endian unsigned
    /// reading is `raw`.
    spec fn from_raw(raw: nat) -> int;

    /// Size of the type in bytes.
    fn width() -> (w: usize)
        ensures
            w as nat == Self::byte_width(),
            1 <= w <= 8,
    ;

    /// Reads the value stored at `off` in `buf`.
    fn read_at(buf: &[u8], off: usize) -> (v: Self)
        requires
            off + Self::byte_width() <= buf@.len(),
        ensures
            v.num() == Self::from_raw(le_value(buf@.subrange(off as int, off + Self::byte_width()))),
    ;
}

/// A primitive type whose values can be compared by scan filters.
pub trait Compare: Primitive {
    /// Tests a pair of values against a filter.
    fn test(filter: &ScanFilter<Self>, new_t: Self, old_t: Self) -> (r: bool)
        ensures
            r == filter.holds(new_t.num(), old_t.num()),
    ;
}

/// A primitive integer type: every value fits in 128 bits with room to spare.
pub trait Integer: Primitive {
    /// The value as a 128-bit integer.
    fn wide(self) -> (r: i128)
        ensures
            r as int == self.num(),
            -0x8000_0000_0000_0000 <= r <= 0xffff_ffff_ffff_ffff,
    ;
}

/// The number read from memory at `off` as a value of type `T`.
pub open spec fn read_num<T: Primitive>(b: Seq<u8>, off: int) -> int {
    T::from_raw(le_value(b.subrange(off, off + T::byte_width())))
}

/// Reinterprets the bytes of `buffer` at `offset` as a value of type `T`.
pub fn read_from_buffer<T: Primitive>(buffer: &[u8], offset: usize) -> (r: T)
    requires
        offset + T::byte_width() <= buffer@.len(),
    ensures
        r.num() == read_num::<T>(buffer@, offset as int),
{
    T::read_at(buffer, offset)
}

impl Primitive for u8 {
    open spec fn byte_width() -> nat {
        1
    }

    open spec fn num(self) -> int {
        self as int
    }

    open spec fn from_raw(raw: nat) -> int {
        raw as int
    }

    fn width() -> (w: usize) {
        1
    }

    fn read_at(buf: &[u8], off: usize) -> (v: u8) {
        read_le(buf, off, 1) as u8
    }
}

impl Compare for u8 {
    fn test(filter: &ScanFilter<u8>, new_t: u8, old_t: u8) -> (r: bool) {
        int_matches(filter, new_t, old_t)
    }
}

impl Integer for u8 {
    fn wide(self) -> (r: i128) {
        self as i128
    }
}

impl Primitive for u16 {
    open spec fn byte_width() -> nat {
        2
    }

    open spec fn num(self) -> int {
        self as int
    }

    open spec fn from_raw(raw: nat) -> int {
        raw as int
    }

    fn width() -> (w: usize) {
        2
    }

    fn read_at(buf: &[u8], off: usize) -> (v: u16) {
        read_le(buf, off, 2) as u16
    }
}

impl Compare for u16 {
    fn test(filter: &ScanFilter<u16>, new_t: u16, old_t: u16) -> (r: bool) {
        int_matches(filter, new_t, old_t)
    }
}

impl Integer for u16 {
    fn wide(self) -> (r: i128) {
        self as i128
    }
}

impl Primitive for u32 {
    open spec fn byte_width() -> nat {
        4
    }

    open spec fn num(self) -> int {
        self as int
    }

    open spec fn from_raw(raw: nat) -> int {
        raw as int
    }

    fn width() -> (w: usize) {
        4
    }

    fn read_at(buf: &[u8], off: usize) -> (v: u32) {
        read_le(buf, off, 4) as u32
    }
}

impl Compare for u32 {
    fn test(filter: &ScanFilter<u32>, new_t: u32, old_t: u32) -> (r: bool) {
        int_matches(filter, new_t, old_t)
    }
}

impl Integer for u32 {
    fn wide(self) -> (r: i128) {
        self as i128
    }
}

impl Primitive for u64 {
    open spec fn byte_width() -> nat {
        8
    }

    open spec fn num(self) -> int {
        self as int
    }

    open spec fn from_raw(raw: nat) -> int {
        raw as int
    }

    fn width() -> (w: usize) {
        8
    }

    fn read_at(buf: &[u8], off: usize) -> (v: u64) {
        read_le(buf, off, 8)
    }
}

impl Compare for u64 {
    fn test(filter: &ScanFilter<u64>, new_t: u64, old_t: u64) -> (r: bool) {
        int_matches(filter, new_t, old_t)
    }
}

impl Integer for u64 {
    fn wide(self) -> (r: i128) {
        self as i128
    }
}

impl Primitive for i8 {
    open spec fn byte_width() -> nat {
        1
    }

    open spec fn num(self) -> int {
        self as int
    }

    open spec fn from_raw(raw: nat) -> int {
        if raw < 0x80 {
            raw as int
        } else {
            raw - 0x100
        }
    }

    fn width() -> (w: usize) {
        1
    }

    fn read_at(buf: &[u8], off: usize) -> (v: i8) {
        let raw = read_le(buf, off, 1);
        if raw < 0x80 {
            raw as i8
        } else {
            (raw as i16 - 0x100) as i8
        }
    }
}

impl Compare for i8 {
    fn test(filter: &ScanFilter<i8>, new_t: i8, old_t: i8) -> (r: bool) {
        int_matches(filter, new_t, old_t)
    }
}

impl Integer for i8 {
    fn wide(self) -> (r: i128) {
        self as i128
    }
}

impl Primitive for i16 {
    open spec fn byte_width() -> nat {
        2
    }

    open spec fn num(self) -> int {
        self as int
    }

    open spec fn from_raw(raw: nat) -> int {
        if raw < 0x8000 {
            raw as int
        } else {
            raw - 0x1_0000
        }
    }

    fn width() -> (w: usize) {
        2
    }

    fn read_at(buf: &[u8], off: usize) -> (v: i16) {
        let raw = read_le(buf, off, 2);
        if raw < 0x8000 {
            raw as i16
        } else {
            (raw as i32 - 0x1_0000) as i16
        }
    }
}

impl Compare for i16 {
    fn test(filter: &ScanFilter<i16>, new_t: i16, old_t: i16) -> (r: bool) {
        int_matches(filter, new_t, old_t)
    }
}

impl Integer for i16 {
    fn wide(self) -> (r: i128) {
        self as i128
    }
}

impl Primitive for i32 {
    open spec fn byte_width() -> nat {
        4
    }

    open spec fn num(self) -> int {
        self as int
    }

    open spec fn from_raw(raw: nat) -> int {
        if raw < 0x8000_0000 {
            raw as int
        } else {
            raw - 0x1_0000_0000
        }
    }

    fn width() -> (w: usize) {
        4
    }

    fn read_at(buf: &[u8], off: usize) -> (v: i32) {
        let raw = read_le(buf, off, 4);
        if raw < 0x8000_0000 {
            raw as i32
        } else {
            (raw as i64 - 0x1_0000_0000) as i32
        }
    }
}

impl Compare for i32 {
    fn test(filter: &ScanFilter<i32>, new_t: i32, old_t: i32) -> (r: bool) {
        int_matches(filter, new_t, old_t)
    }
}

impl Integer for i32 {
    fn wide(self) -> (r: i128) {
        self as i128
    }
}

impl Primitive for i64 {
    open spec fn byte_width() -> nat {
        8
    }

    open spec fn num(self) -> int {
        self as int
    }

    open spec fn from_raw(raw: nat) -> int {
        if raw < 0x8000_0000_0000_0000 {
            raw as int
        } else {
            raw - 0x1_0000_0000_0000_0000
        }
    }

    fn width() -> (w: usize) {
        8
    }

    fn read_at(buf: &[u8], off: usize) -> (v: i64) {
        let raw = read_le(buf, off, 8);
        if raw < 0x8000_0000_0000_0000 {
            raw as i64
        } else {
            (raw - 0x8000_0000_0000_0000) as i64 + i64::MIN
        }
    }
}

impl Compare for i64 {
    fn test(filter: &ScanFilter<i64>, new_t: i64, old_t: i64) -> (r: bool) {
        int_matches(filter, new_t, old_t)
    }
}

impl Integer for i64 {
    fn wide(self) -> (r: i128) {
        self as i128
    }
}

} // verus!
