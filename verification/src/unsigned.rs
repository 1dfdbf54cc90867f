//! The measure over unsigned integer domains: every ordered pair of
//! unsigned widths, each with an intermediate and a length type wide enough
//! that subtraction and the result can never overflow.

use vstd::prelude::*;

use crate::measure::Measure;
use crate::measure::abs_diff;

verus! {

impl Measure for u8 {
    type Len = u16;

    open spec fn len_as_int(l: &u16) -> int {
        *l as int
    }

    open spec fn len_spec() -> int {
        1
    }

    open spec fn distance_spec(&self, other: &u8) -> int {
        abs_diff(*self as int, *other as int)
    }

    fn len(&self) -> (r: u16) {
        1
    }

    fn distance(&self, other: &u8) -> (r: u16) {
        let a: u8 = *self as u8;
        let b: u8 = *other as u8;
        if a > b {
            (a - b) as u16
        } else {
            (b - a) as u16
        }
    }
}

impl Measure for u16 {
    type Len = u32;

    open spec fn len_as_int(l: &u32) -> int {
        *l as int
    }

    open spec fn len_spec() -> int {
        1
    }

    open spec fn distance_spec(&self, other: &u16) -> int {
        abs_diff(*self as int, *other as int)
    }

    fn len(&self) -> (r: u32) {
        1
    }

    fn distance(&self, other: &u16) -> (r: u32) {
        let a: u16 = *self as u16;
        let b: u16 = *other as u16;
        if a > b {
            (a - b) as u32
        } else {
            (b - a) as u32
        }
    }
}

impl Measure for u32 {
    type Len = u64;

    open spec fn len_as_int(l: &u64) -> int {
        *l as int
    }

    open spec fn len_spec() -> int {
        1
    }

    open spec fn distance_spec(&self, other: &u32) -> int {
        abs_diff(*self as int, *other as int)
    }

    fn len(&self) -> (r: u64) {
        1
    }

    fn distance(&self, other: &u32) -> (r: u64) {
        let a: u32 = *self as u32;
        let b: u32 = *other as u32;
        if a > b {
            (a - b) as u64
        } else {
            (b - a) as u64
        }
    }
}

impl Measure for u64 {
    type Len = u128;

    open spec fn len_as_int(l: &u128) -> int {
        *l as int
    }

    open spec fn len_spec() -> int {
        1
    }

    open spec fn distance_spec(&self, other: &u64) -> int {
        abs_diff(*self as int, *other as int)
    }

    fn len(&self) -> (r: u128) {
        1
    }

    fn distance(&self, other: &u64) -> (r: u128) {
        let a: u64 = *self as u64;
        let b: u64 = *other as u64;
        if a > b {
            (a - b) as u128
        } else {
            (b - a) as u128
        }
    }
}

impl Measure<u16> for u8 {
    type Len = u32;

    open spec fn len_as_int(l: &u32) -> int {
        *l as int
    }

    open spec fn len_spec() -> int {
        1
    }

    open spec fn distance_spec(&self, other: &u16) -> int {
        abs_diff(*self as int, *other as int)
    }

    fn len(&self) -> (r: u32) {
        1
    }

    fn distance(&self, other: &u16) -> (r: u32) {
        let a: u16 = *self as u16;
        let b: u16 = *other as u16;
        if a > b {
            (a - b) as u32
        } else {
            (b - a) as u32
        }
    }
}

impl Measure<u8> for u16 {
    type Len = u32;

    open spec fn len_as_int(l: &u32) -> int {
        *l as int
    }

    open spec fn len_spec() -> int {
        1
    }

    open spec fn distance_spec(&self, other: &u8) -> int {
        abs_diff(*self as int, *other as int)
    }

    fn len(&self) -> (r: u32) {
        1
    }

    fn distance(&self, other: &u8) -> (r: u32) {
        let a: u16 = *self as u16;
        let b: u16 = *other as u16;
        if a > b {
            (a - b) as u32
        } else {
            (b - a) as u32
        }
    }
}

impl Measure<u32> for u8 {
    type Len = u64;

    open spec fn len_as_int(l: &u64) -> int {
        *l as int
    }

    open spec fn len_spec() -> int {
        1
    }

    open spec fn distance_spec(&self, other: &u32) -> int {
        abs_diff(*self as int, *other as int)
    }

    fn len(&self) -> (r: u64) {
        1
    }

    fn distance(&self, other: &u32) -> (r: u64) {
        let a: u32 = *self as u32;
        let b: u32 = *other as u32;
        if a > b {
            (a - b) as u64
        } else {
            (b - a) as u64
        }
    }
}

impl Measure<u8> for u32 {
    type Len = u64;

    open spec fn len_as_int(l: &u64) -> int {
        *l as int
    }

    open spec fn len_spec() -> int {
        1
    }

    open spec fn distance_spec(&self, other: &u8) -> int {
        abs_diff(*self as int, *other as int)
    }

    fn len(&self) -> (r: u64) {
        1
    }

    fn distance(&self, other: &u8) -> (r: u64) {
        let a: u32 = *self as u32;
        let b: u32 = *other as u32;
        if a > b {
            (a - b) as u64
        } else {
            (b - a) as u64
        }
    }
}

impl Measure<u64> for u8 {
    type Len = u128;

    open spec fn len_as_int(l: &u128) -> int {
        *l as int
    }

    open spec fn len_spec() -> int {
        1
    }

    open spec fn distance_spec(&self, other: &u64) -> int {
        abs_diff(*self as int, *other as int)
    }

    fn len(&self) -> (r: u128) {
        1
    }

    fn distance(&self, other: &u64) -> (r: u128) {
        let a: u64 = *self as u64;
        let b: u64 = *other as u64;
        if a > b {
            (a - b) as u128
        } else {
            (b - a) as u128
        }
    }
}

impl Measure<u8> for u64 {
    type Len = u128;

    open spec fn len_as_int(l: &u128) -> int {
        *l as int
    }

    open spec fn len_spec() -> int {
        1
    }

    open spec fn distance_spec(&self, other: &u8) -> int {
        abs_diff(*self as int, *other as int)
    }

    fn len(&self) -> (r: u128) {
        1
    }

    fn distance(&self, other: &u8) -> (r: u128) {
        let a: u64 = *self as u64;
        let b: u64 = *other as u64;
        if a > b {
            (a - b) as u128
        } else {
            (b - a) as u128
        }
    }
}

impl Measure<u32> for u16 {
    type Len = u64;

    open spec fn len_as_int(l: &u64) -> int {
        *l as int
    }

    open spec fn len_spec() -> int {
        1
    }

    open spec fn distance_spec(&self, other: &u32) -> int {
        abs_diff(*self as int, *other as int)
    }

    fn len(&self) -> (r: u64) {
        1
    }

    fn distance(&self, other: &u32) -> (r: u64) {
        let a: u32 = *self as u32;
        let b: u32 = *other as u32;
        if a > b {
            (a - b) as u64
        } else {
            (b - a) as u64
        }
    }
}

impl Measure<u16> for u32 {
    type Len = u64;

    open spec fn len_as_int(l: &u64) -> int {
        *l as int
    }

    open spec fn len_spec() -> int {
        1
    }

    open spec fn distance_spec(&self, other: &u16) -> int {
        abs_diff(*self as int, *other as int)
    }

    fn len(&self) -> (r: u64) {
        1
    }

    fn distance(&self, other: &u16) -> (r: u64) {
        let a: u32 = *self as u32;
        let b: u32 = *other as u32;
        if a > b {
            (a - b) as u64
        } else {
            (b - a) as u64
        }
    }
}

impl Measure<u64> for u16 {
    type Len = u128;

    open spec fn len_as_int(l: &u128) -> int {
        *l as int
    }

    open spec fn len_spec() -> int {
        1
    }

    open spec fn distance_spec(&self, other: &u64) -> int {
        abs_diff(*self as int, *other as int)
    }

    fn len(&self) -> (r: u128) {
        1
    }

    fn distance(&self, other: &u64) -> (r: u128) {
        let a: u64 = *self as u64;
        let b: u64 = *other as u64;
        if a > b {
            (a - b) as u128
        } else {
            (b - a) as u128
        }
    }
}

impl Measure<u16> for u64 {
    type Len = u128;

    open spec fn len_as_int(l: &u128) -> int {
        *l as int
    }

    open spec fn len_spec() -> int {
        1
    }

    open spec fn distance_spec(&self, other: &u16) -> int {
        abs_diff(*self as int, *other as int)
    }

    fn len(&self) -> (r: u128) {
        1
    }

    fn distance(&self, other: &u16) -> (r: u128) {
        let a: u64 = *self as u64;
        let b: u64 = *other as u64;
        if a > b {
            (a - b) as u128
        } else {
            (b - a) as u128
        }
    }
}

impl Measure<u64> for u32 {
    type Len = u128;

    open spec fn len_as_int(l: &u128) -> int {
        *l as int
    }

    open spec fn len_spec() -> int {
        1
    }

    open spec fn distance_spec(&self, other: &u64) -> int {
        abs_diff(*self as int, *other as int)
    }

    fn len(&self) -> (r: u128) {
        1
    }

    fn distance(&self, other: &u64) -> (r: u128) {
        let a: u64 = *self as u64;
        let b: u64 = *other as u64;
        if a > b {
            (a - b) as u128
        } else {
            (b - a) as u128
        }
    }
}

impl Measure<u32> for u64 {
    type Len = u128;

    open spec fn len_as_int(l: &u128) -> int {
        *l as int
    }

    open spec fn len_spec() -> int {
        1
    }

    open spec fn distance_spec(&self, other: &u32) -> int {
        abs_diff(*self as int, *other as int)
    }

    fn len(&self) -> (r: u128) {
        1
    }

    fn distance(&self, other: &u32) -> (r: u128) {
        let a: u64 = *self as u64;
        let b: u64 = *other as u64;
        if a > b {
            (a - b) as u128
        } else {
            (b - a) as u128
        }
    }
}

} // verus!
