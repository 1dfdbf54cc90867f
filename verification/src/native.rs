//! The measure over the platform-native-width unsigned integer, paired
//! with itself and with every fixed-width integer. The intermediate and
//! length types are chosen for the widest platform the type can have, so
//! they are safe on every platform.

use vstd::prelude::*;

use crate::measure::Measure;
use crate::measure::abs_diff;

verus! {

impl Measure for usize {
    type Len = u128;

    open spec fn len_as_int(l: &u128) -> int {
        *l as int
    }

    open spec fn len_spec() -> int {
        1
    }

    open spec fn distance_spec(&self, other: &usize) -> int {
        abs_diff(*self as int, *other as int)
    }

    fn len(&self) -> (r: u128) {
        1
    }

    fn distance(&self, other: &usize) -> (r: u128) {
        let a: u64 = *self as u64;
        let b: u64 = *other as u64;
        if a > b {
            (a - b) as u128
        } else {
            (b - a) as u128
        }
    }
}

impl Measure<u8> for usize {
    type Len = u128;

    open spec fn len_as_int(l: &u128) -> int {
        *l as int
    }

    open spec fn len_spec() -> int {
        1
    }

    open spec fn distance_spec(&self, other: &u8) -> int {
        abs_diff(*self as int, *other as int)
    }

    fn len(&self) -> (r: u128) {
        1
    }

    fn distance(&self, other: &u8) -> (r: u128) {
        let a: u64 = *self as u64;
        let b: u64 = *other as u64;
        if a > b {
            (a - b) as u128
        } else {
            (b - a) as u128
        }
    }
}

impl Measure<usize> for u8 {
    type Len = u128;

    open spec fn len_as_int(l: &u128) -> int {
        *l as int
    }

    open spec fn len_spec() -> int {
        1
    }

    open spec fn distance_spec(&self, other: &usize) -> int {
        abs_diff(*self as int, *other as int)
    }

    fn len(&self) -> (r: u128) {
        1
    }

    fn distance(&self, other: &usize) -> (r: u128) {
        let a: u64 = *self as u64;
        let b: u64 = *other as u64;
        if a > b {
            (a - b) as u128
        } else {
            (b - a) as u128
        }
    }
}

impl Measure<u16> for usize {
    type Len = u128;

    open spec fn len_as_int(l: &u128) -> int {
        *l as int
    }

    open spec fn len_spec() -> int {
        1
    }

    open spec fn distance_spec(&self, other: &u16) -> int {
        abs_diff(*self as int, *other as int)
    }

    fn len(&self) -> (r: u128) {
        1
    }

    fn distance(&self, other: &u16) -> (r: u128) {
        let a: u64 = *self as u64;
        let b: u64 = *other as u64;
        if a > b {
            (a - b) as u128
        } else {
            (b - a) as u128
        }
    }
}

impl Measure<usize> for u16 {
    type Len = u128;

    open spec fn len_as_int(l: &u128) -> int {
        *l as int
    }

    open spec fn len_spec() -> int {
        1
    }

    open spec fn distance_spec(&self, other: &usize) -> int {
        abs_diff(*self as int, *other as int)
    }

    fn len(&self) -> (r: u128) {
        1
    }

    fn distance(&self, other: &usize) -> (r: u128) {
        let a: u64 = *self as u64;
        let b: u64 = *other as u64;
        if a > b {
            (a - b) as u128
        } else {
            (b - a) as u128
        }
    }
}

impl Measure<u32> for usize {
    type Len = u128;

    open spec fn len_as_int(l: &u128) -> int {
        *l as int
    }

    open spec fn len_spec() -> int {
        1
    }

    open spec fn distance_spec(&self, other: &u32) -> int {
        abs_diff(*self as int, *other as int)
    }

    fn len(&self) -> (r: u128) {
        1
    }

    fn distance(&self, other: &u32) -> (r: u128) {
        let a: u64 = *self as u64;
        let b: u64 = *other as u64;
        if a > b {
            (a - b) as u128
        } else {
            (b - a) as u128
        }
    }
}

impl Measure<usize> for u32 {
    type Len = u128;

    open spec fn len_as_int(l: &u128) -> int {
        *l as int
    }

    open spec fn len_spec() -> int {
        1
    }

    open spec fn distance_spec(&self, other: &usize) -> int {
        abs_diff(*self as int, *other as int)
    }

    fn len(&self) -> (r: u128) {
        1
    }

    fn distance(&self, other: &usize) -> (r: u128) {
        let a: u64 = *self as u64;
        let b: u64 = *other as u64;
        if a > b {
            (a - b) as u128
        } else {
            (b - a) as u128
        }
    }
}

impl Measure<u64> for usize {
    type Len = u128;

    open spec fn len_as_int(l: &u128) -> int {
        *l as int
    }

    open spec fn len_spec() -> int {
        1
    }

    open spec fn distance_spec(&self, other: &u64) -> int {
        abs_diff(*self as int, *other as int)
    }

    fn len(&self) -> (r: u128) {
        1
    }

    fn distance(&self, other: &u64) -> (r: u128) {
        let a: u64 = *self as u64;
        let b: u64 = *other as u64;
        if a > b {
            (a - b) as u128
        } else {
            (b - a) as u128
        }
    }
}

impl Measure<usize> for u64 {
    type Len = u128;

    open spec fn len_as_int(l: &u128) -> int {
        *l as int
    }

    open spec fn len_spec() -> int {
        1
    }

    open spec fn distance_spec(&self, other: &usize) -> int {
        abs_diff(*self as int, *other as int)
    }

    fn len(&self) -> (r: u128) {
        1
    }

    fn distance(&self, other: &usize) -> (r: u128) {
        let a: u64 = *self as u64;
        let b: u64 = *other as u64;
        if a > b {
            (a - b) as u128
        } else {
            (b - a) as u128
        }
    }
}

impl Measure<i8> for usize {
    type Len = u128;

    open spec fn len_as_int(l: &u128) -> int {
        *l as int
    }

    open spec fn len_spec() -> int {
        1
    }

    open spec fn distance_spec(&self, other: &i8) -> int {
        abs_diff(*self as int, *other as int)
    }

    fn len(&self) -> (r: u128) {
        1
    }

    fn distance(&self, other: &i8) -> (r: u128) {
        let a: i128 = *self as i128;
        let b: i128 = *other as i128;
        if a > b {
            (a - b) as u128
        } else {
            (b - a) as u128
        }
    }
}

impl Measure<usize> for i8 {
    type Len = u128;

    open spec fn len_as_int(l: &u128) -> int {
        *l as int
    }

    open spec fn len_spec() -> int {
        1
    }

    open spec fn distance_spec(&self, other: &usize) -> int {
        abs_diff(*self as int, *other as int)
    }

    fn len(&self) -> (r: u128) {
        1
    }

    fn distance(&self, other: &usize) -> (r: u128) {
        let a: i128 = *self as i128;
        let b: i128 = *other as i128;
        if a > b {
            (a - b) as u128
        } else {
            (b - a) as u128
        }
    }
}

impl Measure<i16> for usize {
    type Len = u128;

    open spec fn len_as_int(l: &u128) -> int {
        *l as int
    }

    open spec fn len_spec() -> int {
        1
    }

    open spec fn distance_spec(&self, other: &i16) -> int {
        abs_diff(*self as int, *other as int)
    }

    fn len(&self) -> (r: u128) {
        1
    }

    fn distance(&self, other: &i16) -> (r: u128) {
        let a: i128 = *self as i128;
        let b: i128 = *other as i128;
        if a > b {
            (a - b) as u128
        } else {
            (b - a) as u128
        }
    }
}

impl Measure<usize> for i16 {
    type Len = u128;

    open spec fn len_as_int(l: &u128) -> int {
        *l as int
    }

    open spec fn len_spec() -> int {
        1
    }

    open spec fn distance_spec(&self, other: &usize) -> int {
        abs_diff(*self as int, *other as int)
    }

    fn len(&self) -> (r: u128) {
        1
    }

    fn distance(&self, other: &usize) -> (r: u128) {
        let a: i128 = *self as i128;
        let b: i128 = *other as i128;
        if a > b {
            (a - b) as u128
        } else {
            (b - a) as u128
        }
    }
}

impl Measure<i32> for usize {
    type Len = u128;

    open spec fn len_as_int(l: &u128) -> int {
        *l as int
    }

    open spec fn len_spec() -> int {
        1
    }

    open spec fn distance_spec(&self, other: &i32) -> int {
        abs_diff(*self as int, *other as int)
    }

    fn len(&self) -> (r: u128) {
        1
    }

    fn distance(&self, other: &i32) -> (r: u128) {
        let a: i128 = *self as i128;
        let b: i128 = *other as i128;
        if a > b {
            (a - b) as u128
        } else {
            (b - a) as u128
        }
    }
}

impl Measure<usize> for i32 {
    type Len = u128;

    open spec fn len_as_int(l: &u128) -> int {
        *l as int
    }

    open spec fn len_spec() -> int {
        1
    }

    open spec fn distance_spec(&self, other: &usize) -> int {
        abs_diff(*self as int, *other as int)
    }

    fn len(&self) -> (r: u128) {
        1
    }

    fn distance(&self, other: &usize) -> (r: u128) {
        let a: i128 = *self as i128;
        let b: i128 = *other as i128;
        if a > b {
            (a - b) as u128
        } else {
            (b - a) as u128
        }
    }
}

impl Measure<i64> for usize {
    type Len = u128;

    open spec fn len_as_int(l: &u128) -> int {
        *l as int
    }

    open spec fn len_spec() -> int {
        1
    }

    open spec fn distance_spec(&self, other: &i64) -> int {
        abs_diff(*self as int, *other as int)
    }

    fn len(&self) -> (r: u128) {
        1
    }

    fn distance(&self, other: &i64) -> (r: u128) {
        let a: i128 = *self as i128;
        let b: i128 = *other as i128;
        if a > b {
            (a - b) as u128
        } else {
            (b - a) as u128
        }
    }
}

impl Measure<usize> for i64 {
    type Len = u128;

    open spec fn len_as_int(l: &u128) -> int {
        *l as int
    }

    open spec fn len_spec() -> int {
        1
    }

    open spec fn distance_spec(&self, other: &usize) -> int {
        abs_diff(*self as int, *other as int)
    }

    fn len(&self) -> (r: u128) {
        1
    }

    fn distance(&self, other: &usize) -> (r: u128) {
        let a: i128 = *self as i128;
        let b: i128 = *other as i128;
        if a > b {
            (a - b) as u128
        } else {
            (b - a) as u128
        }
    }
}

} // verus!
