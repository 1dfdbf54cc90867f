//! The measure over mixed signed/unsigned integer pairs: each pair is
//! routed through a signed intermediate wide enough to hold both operand
//! ranges, and its length type covers the span from the signed minimum to
//! the unsigned maximum.

use vstd::prelude::*;

use crate::measure::Measure;
use crate::measure::abs_diff;

verus! {

impl Measure<i8> for u8 {
    type Len = u16;

    open spec fn len_as_int(l: &u16) -> int {
        *l as int
    }

    open spec fn len_spec() -> int {
        1
    }

    open spec fn distance_spec(&self, other: &i8) -> int {
        abs_diff(*self as int, *other as int)
    }

    fn len(&self) -> (r: u16) {
        1
    }

    fn distance(&self, other: &i8) -> (r: u16) {
        let a: i16 = *self as i16;
        let b: i16 = *other as i16;
        if a > b {
            (a - b) as u16
        } else {
            (b - a) as u16
        }
    }
}

impl Measure<u8> for i8 {
    type Len = u16;

    open spec fn len_as_int(l: &u16) -> int {
        *l as int
    }

    open spec fn len_spec() -> int {
        1
    }

    open spec fn distance_spec(&self, other: &u8) -> int {
        abs_diff(*self as int, *other as int)
    }

    fn len(&self) -> (r: u16) {
        1
    }

    fn distance(&self, other: &u8) -> (r: u16) {
        let a: i16 = *self as i16;
        let b: i16 = *other as i16;
        if a > b {
            (a - b) as u16
        } else {
            (b - a) as u16
        }
    }
}

impl Measure<i16> for u8 {
    type Len = u16;

    open spec fn len_as_int(l: &u16) -> int {
        *l as int
    }

    open spec fn len_spec() -> int {
        1
    }

    open spec fn distance_spec(&self, other: &i16) -> int {
        abs_diff(*self as int, *other as int)
    }

    fn len(&self) -> (r: u16) {
        1
    }

    fn distance(&self, other: &i16) -> (r: u16) {
        let a: i32 = *self as i32;
        let b: i32 = *other as i32;
        if a > b {
            (a - b) as u16
        } else {
            (b - a) as u16
        }
    }
}

impl Measure<u8> for i16 {
    type Len = u16;

    open spec fn len_as_int(l: &u16) -> int {
        *l as int
    }

    open spec fn len_spec() -> int {
        1
    }

    open spec fn distance_spec(&self, other: &u8) -> int {
        abs_diff(*self as int, *other as int)
    }

    fn len(&self) -> (r: u16) {
        1
    }

    fn distance(&self, other: &u8) -> (r: u16) {
        let a: i32 = *self as i32;
        let b: i32 = *other as i32;
        if a > b {
            (a - b) as u16
        } else {
            (b - a) as u16
        }
    }
}

impl Measure<i32> for u8 {
    type Len = u32;

    open spec fn len_as_int(l: &u32) -> int {
        *l as int
    }

    open spec fn len_spec() -> int {
        1
    }

    open spec fn distance_spec(&self, other: &i32) -> int {
        abs_diff(*self as int, *other as int)
    }

    fn len(&self) -> (r: u32) {
        1
    }

    fn distance(&self, other: &i32) -> (r: u32) {
        let a: i64 = *self as i64;
        let b: i64 = *other as i64;
        if a > b {
            (a - b) as u32
        } else {
            (b - a) as u32
        }
    }
}

impl Measure<u8> for i32 {
    type Len = u32;

    open spec fn len_as_int(l: &u32) -> int {
        *l as int
    }

    open spec fn len_spec() -> int {
        1
    }

    open spec fn distance_spec(&self, other: &u8) -> int {
        abs_diff(*self as int, *other as int)
    }

    fn len(&self) -> (r: u32) {
        1
    }

    fn distance(&self, other: &u8) -> (r: u32) {
        let a: i64 = *self as i64;
        let b: i64 = *other as i64;
        if a > b {
            (a - b) as u32
        } else {
            (b - a) as u32
        }
    }
}

impl Measure<i64> for u8 {
    type Len = u64;

    open spec fn len_as_int(l: &u64) -> int {
        *l as int
    }

    open spec fn len_spec() -> int {
        1
    }

    open spec fn distance_spec(&self, other: &i64) -> int {
        abs_diff(*self as int, *other as int)
    }

    fn len(&self) -> (r: u64) {
        1
    }

    fn distance(&self, other: &i64) -> (r: u64) {
        let a: i128 = *self as i128;
        let b: i128 = *other as i128;
        if a > b {
            (a - b) as u64
        } else {
            (b - a) as u64
        }
    }
}

impl Measure<u8> for i64 {
    type Len = u64;

    open spec fn len_as_int(l: &u64) -> int {
        *l as int
    }

    open spec fn len_spec() -> int {
        1
    }

    open spec fn distance_spec(&self, other: &u8) -> int {
        abs_diff(*self as int, *other as int)
    }

    fn len(&self) -> (r: u64) {
        1
    }

    fn distance(&self, other: &u8) -> (r: u64) {
        let a: i128 = *self as i128;
        let b: i128 = *other as i128;
        if a > b {
            (a - b) as u64
        } else {
            (b - a) as u64
        }
    }
}

impl Measure<i8> for u16 {
    type Len = u32;

    open spec fn len_as_int(l: &u32) -> int {
        *l as int
    }

    open spec fn len_spec() -> int {
        1
    }

    open spec fn distance_spec(&self, other: &i8) -> int {
        abs_diff(*self as int, *other as int)
    }

    fn len(&self) -> (r: u32) {
        1
    }

    fn distance(&self, other: &i8) -> (r: u32) {
        let a: i32 = *self as i32;
        let b: i32 = *other as i32;
        if a > b {
            (a - b) as u32
        } else {
            (b - a) as u32
        }
    }
}

impl Measure<u16> for i8 {
    type Len = u32;

    open spec fn len_as_int(l: &u32) -> int {
        *l as int
    }

    open spec fn len_spec() -> int {
        1
    }

    open spec fn distance_spec(&self, other: &u16) -> int {
        abs_diff(*self as int, *other as int)
    }

    fn len(&self) -> (r: u32) {
        1
    }

    fn distance(&self, other: &u16) -> (r: u32) {
        let a: i32 = *self as i32;
        let b: i32 = *other as i32;
        if a > b {
            (a - b) as u32
        } else {
            (b - a) as u32
        }
    }
}

impl Measure<i16> for u16 {
    type Len = u32;

    open spec fn len_as_int(l: &u32) -> int {
        *l as int
    }

    open spec fn len_spec() -> int {
        1
    }

    open spec fn distance_spec(&self, other: &i16) -> int {
        abs_diff(*self as int, *other as int)
    }

    fn len(&self) -> (r: u32) {
        1
    }

    fn distance(&self, other: &i16) -> (r: u32) {
        let a: i32 = *self as i32;
        let b: i32 = *other as i32;
        if a > b {
            (a - b) as u32
        } else {
            (b - a) as u32
        }
    }
}

impl Measure<u16> for i16 {
    type Len = u32;

    open spec fn len_as_int(l: &u32) -> int {
        *l as int
    }

    open spec fn len_spec() -> int {
        1
    }

    open spec fn distance_spec(&self, other: &u16) -> int {
        abs_diff(*self as int, *other as int)
    }

    fn len(&self) -> (r: u32) {
        1
    }

    fn distance(&self, other: &u16) -> (r: u32) {
        let a: i32 = *self as i32;
        let b: i32 = *other as i32;
        if a > b {
            (a - b) as u32
        } else {
            (b - a) as u32
        }
    }
}

impl Measure<i32> for u16 {
    type Len = u32;

    open spec fn len_as_int(l: &u32) -> int {
        *l as int
    }

    open spec fn len_spec() -> int {
        1
    }

    open spec fn distance_spec(&self, other: &i32) -> int {
        abs_diff(*self as int, *other as int)
    }

    fn len(&self) -> (r: u32) {
        1
    }

    fn distance(&self, other: &i32) -> (r: u32) {
        let a: i64 = *self as i64;
        let b: i64 = *other as i64;
        if a > b {
            (a - b) as u32
        } else {
            (b - a) as u32
        }
    }
}

impl Measure<u16> for i32 {
    type Len = u32;

    open spec fn len_as_int(l: &u32) -> int {
        *l as int
    }

    open spec fn len_spec() -> int {
        1
    }

    open spec fn distance_spec(&self, other: &u16) -> int {
        abs_diff(*self as int, *other as int)
    }

    fn len(&self) -> (r: u32) {
        1
    }

    fn distance(&self, other: &u16) -> (r: u32) {
        let a: i64 = *self as i64;
        let b: i64 = *other as i64;
        if a > b {
            (a - b) as u32
        } else {
            (b - a) as u32
        }
    }
}

impl Measure<i64> for u16 {
    type Len = u64;

    open spec fn len_as_int(l: &u64) -> int {
        *l as int
    }

    open spec fn len_spec() -> int {
        1
    }

    open spec fn distance_spec(&self, other: &i64) -> int {
        abs_diff(*self as int, *other as int)
    }

    fn len(&self) -> (r: u64) {
        1
    }

    fn distance(&self, other: &i64) -> (r: u64) {
        let a: i128 = *self as i128;
        let b: i128 = *other as i128;
        if a > b {
            (a - b) as u64
        } else {
            (b - a) as u64
        }
    }
}

impl Measure<u16> for i64 {
    type Len = u64;

    open spec fn len_as_int(l: &u64) -> int {
        *l as int
    }

    open spec fn len_spec() -> int {
        1
    }

    open spec fn distance_spec(&self, other: &u16) -> int {
        abs_diff(*self as int, *other as int)
    }

    fn len(&self) -> (r: u64) {
        1
    }

    fn distance(&self, other: &u16) -> (r: u64) {
        let a: i128 = *self as i128;
        let b: i128 = *other as i128;
        if a > b {
            (a - b) as u64
        } else {
            (b - a) as u64
        }
    }
}

impl Measure<i8> for u32 {
    type Len = u64;

    open spec fn len_as_int(l: &u64) -> int {
        *l as int
    }

    open spec fn len_spec() -> int {
        1
    }

    open spec fn distance_spec(&self, other: &i8) -> int {
        abs_diff(*self as int, *other as int)
    }

    fn len(&self) -> (r: u64) {
        1
    }

    fn distance(&self, other: &i8) -> (r: u64) {
        let a: i64 = *self as i64;
        let b: i64 = *other as i64;
        if a > b {
            (a - b) as u64
        } else {
            (b - a) as u64
        }
    }
}

impl Measure<u32> for i8 {
    type Len = u64;

    open spec fn len_as_int(l: &u64) -> int {
        *l as int
    }

    open spec fn len_spec() -> int {
        1
    }

    open spec fn distance_spec(&self, other: &u32) -> int {
        abs_diff(*self as int, *other as int)
    }

    fn len(&self) -> (r: u64) {
        1
    }

    fn distance(&self, other: &u32) -> (r: u64) {
        let a: i64 = *self as i64;
        let b: i64 = *other as i64;
        if a > b {
            (a - b) as u64
        } else {
            (b - a) as u64
        }
    }
}

impl Measure<i16> for u32 {
    type Len = u64;

    open spec fn len_as_int(l: &u64) -> int {
        *l as int
    }

    open spec fn len_spec() -> int {
        1
    }

    open spec fn distance_spec(&self, other: &i16) -> int {
        abs_diff(*self as int, *other as int)
    }

    fn len(&self) -> (r: u64) {
        1
    }

    fn distance(&self, other: &i16) -> (r: u64) {
        let a: i64 = *self as i64;
        let b: i64 = *other as i64;
        if a > b {
            (a - b) as u64
        } else {
            (b - a) as u64
        }
    }
}

impl Measure<u32> for i16 {
    type Len = u64;

    open spec fn len_as_int(l: &u64) -> int {
        *l as int
    }

    open spec fn len_spec() -> int {
        1
    }

    open spec fn distance_spec(&self, other: &u32) -> int {
        abs_diff(*self as int, *other as int)
    }

    fn len(&self) -> (r: u64) {
        1
    }

    fn distance(&self, other: &u32) -> (r: u64) {
        let a: i64 = *self as i64;
        let b: i64 = *other as i64;
        if a > b {
            (a - b) as u64
        } else {
            (b - a) as u64
        }
    }
}

impl Measure<i32> for u32 {
    type Len = u64;

    open spec fn len_as_int(l: &u64) -> int {
        *l as int
    }

    open spec fn len_spec() -> int {
        1
    }

    open spec fn distance_spec(&self, other: &i32) -> int {
        abs_diff(*self as int, *other as int)
    }

    fn len(&self) -> (r: u64) {
        1
    }

    fn distance(&self, other: &i32) -> (r: u64) {
        let a: i64 = *self as i64;
        let b: i64 = *other as i64;
        if a > b {
            (a - b) as u64
        } else {
            (b - a) as u64
        }
    }
}

impl Measure<u32> for i32 {
    type Len = u64;

    open spec fn len_as_int(l: &u64) -> int {
        *l as int
    }

    open spec fn len_spec() -> int {
        1
    }

    open spec fn distance_spec(&self, other: &u32) -> int {
        abs_diff(*self as int, *other as int)
    }

    fn len(&self) -> (r: u64) {
        1
    }

    fn distance(&self, other: &u32) -> (r: u64) {
        let a: i64 = *self as i64;
        let b: i64 = *other as i64;
        if a > b {
            (a - b) as u64
        } else {
            (b - a) as u64
        }
    }
}

impl Measure<i64> for u32 {
    type Len = u64;

    open spec fn len_as_int(l: &u64) -> int {
        *l as int
    }

    open spec fn len_spec() -> int {
        1
    }

    open spec fn distance_spec(&self, other: &i64) -> int {
        abs_diff(*self as int, *other as int)
    }

    fn len(&self) -> (r: u64) {
        1
    }

    fn distance(&self, other: &i64) -> (r: u64) {
        let a: i128 = *self as i128;
        let b: i128 = *other as i128;
        if a > b {
            (a - b) as u64
        } else {
            (b - a) as u64
        }
    }
}

impl Measure<u32> for i64 {
    type Len = u64;

    open spec fn len_as_int(l: &u64) -> int {
        *l as int
    }

    open spec fn len_spec() -> int {
        1
    }

    open spec fn distance_spec(&self, other: &u32) -> int {
        abs_diff(*self as int, *other as int)
    }

    fn len(&self) -> (r: u64) {
        1
    }

    fn distance(&self, other: &u32) -> (r: u64) {
        let a: i128 = *self as i128;
        let b: i128 = *other as i128;
        if a > b {
            (a - b) as u64
        } else {
            (b - a) as u64
        }
    }
}

impl Measure<i8> for u64 {
    type Len = u128;

    open spec fn len_as_int(l: &u128) -> int {
        *l as int
    }

    open spec fn len_spec() -> int {
        1
    }

    open spec fn distance_spec(&self, other: &i8) -> int {
        abs_diff(*self as int, *other as int)
    }

    fn len(&self) -> (r: u128) {
        1
    }

    fn distance(&self, other: &i8) -> (r: u128) {
        let a: i128 = *self as i128;
        let b: i128 = *other as i128;
        if a > b {
            (a - b) as u128
        } else {
            (b - a) as u128
        }
    }
}

impl Measure<u64> for i8 {
    type Len = u128;

    open spec fn len_as_int(l: &u128) -> int {
        *l as int
    }

    open spec fn len_spec() -> int {
        1
    }

    open spec fn distance_spec(&self, other: &u64) -> int {
        abs_diff(*self as int, *other as int)
    }

    fn len(&self) -> (r: u128) {
        1
    }

    fn distance(&self, other: &u64) -> (r: u128) {
        let a: i128 = *self as i128;
        let b: i128 = *other as i128;
        if a > b {
            (a - b) as u128
        } else {
            (b - a) as u128
        }
    }
}

impl Measure<i16> for u64 {
    type Len = u128;

    open spec fn len_as_int(l: &u128) -> int {
        *l as int
    }

    open spec fn len_spec() -> int {
        1
    }

    open spec fn distance_spec(&self, other: &i16) -> int {
        abs_diff(*self as int, *other as int)
    }

    fn len(&self) -> (r: u128) {
        1
    }

    fn distance(&self, other: &i16) -> (r: u128) {
        let a: i128 = *self as i128;
        let b: i128 = *other as i128;
        if a > b {
            (a - b) as u128
        } else {
            (b - a) as u128
        }
    }
}

impl Measure<u64> for i16 {
    type Len = u128;

    open spec fn len_as_int(l: &u128) -> int {
        *l as int
    }

    open spec fn len_spec() -> int {
        1
    }

    open spec fn distance_spec(&self, other: &u64) -> int {
        abs_diff(*self as int, *other as int)
    }

    fn len(&self) -> (r: u128) {
        1
    }

    fn distance(&self, other: &u64) -> (r: u128) {
        let a: i128 = *self as i128;
        let b: i128 = *other as i128;
        if a > b {
            (a - b) as u128
        } else {
            (b - a) as u128
        }
    }
}

impl Measure<i32> for u64 {
    type Len = u128;

    open spec fn len_as_int(l: &u128) -> int {
        *l as int
    }

    open spec fn len_spec() -> int {
        1
    }

    open spec fn distance_spec(&self, other: &i32) -> int {
        abs_diff(*self as int, *other as int)
    }

    fn len(&self) -> (r: u128) {
        1
    }

    fn distance(&self, other: &i32) -> (r: u128) {
        let a: i128 = *self as i128;
        let b: i128 = *other as i128;
        if a > b {
            (a - b) as u128
        } else {
            (b - a) as u128
        }
    }
}

impl Measure<u64> for i32 {
    type Len = u128;

    open spec fn len_as_int(l: &u128) -> int {
        *l as int
    }

    open spec fn len_spec() -> int {
        1
    }

    open spec fn distance_spec(&self, other: &u64) -> int {
        abs_diff(*self as int, *other as int)
    }

    fn len(&self) -> (r: u128) {
        1
    }

    fn distance(&self, other: &u64) -> (r: u128) {
        let a: i128 = *self as i128;
        let b: i128 = *other as i128;
        if a > b {
            (a - b) as u128
        } else {
            (b - a) as u128
        }
    }
}

impl Measure<i64> for u64 {
    type Len = u128;

    open spec fn len_as_int(l: &u128) -> int {
        *l as int
    }

    open spec fn len_spec() -> int {
        1
    }

    open spec fn distance_spec(&self, other: &i64) -> int {
        abs_diff(*self as int, *other as int)
    }

    fn len(&self) -> (r: u128) {
        1
    }

    fn distance(&self, other: &i64) -> (r: u128) {
        let a: i128 = *self as i128;
        let b: i128 = *other as i128;
        if a > b {
            (a - b) as u128
        } else {
            (b - a) as u128
        }
    }
}

impl Measure<u64> for i64 {
    type Len = u128;

    open spec fn len_as_int(l: &u128) -> int {
        *l as int
    }

    open spec fn len_spec() -> int {
        1
    }

    open spec fn distance_spec(&self, other: &u64) -> int {
        abs_diff(*self as int, *other as int)
    }

    fn len(&self) -> (r: u128) {
        1
    }

    fn distance(&self, other: &u64) -> (r: u128) {
        let a: i128 = *self as i128;
        let b: i128 = *other as i128;
        if a > b {
            (a - b) as u128
        } else {
            (b - a) as u128
        }
    }
}

} // verus!
