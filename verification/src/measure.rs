//! The measure capability: distance between two values of an ordered scalar
//! domain, and the intrinsic length of a single value.

use vstd::prelude::*;

verus! {

/// The absolute difference of two mathematical integers.
pub open spec fn abs_diff(a: int, b: int) -> int {
    if a >= b {
        a - b
    } else {
        b - a
    }
}

/// The distance between two Unicode scalar values, given by their codepoints.
///
/// When the numeric span between the two codepoints crosses the reserved
/// surrogate range `U+D800`..=`U+DFFF`, the distance is given by the gap
/// formula `(hi - 0xd000 + 1) + (0xd7ff - lo)`; otherwise it is the plain
/// numeric difference.
pub open spec fn char_dist(a: int, b: int) -> int {
    let lo = if a <= b { a } else { b };
    let hi = if a <= b { b } else { a };
    if lo <= 0xd7ff && hi >= 0xe000 {
        (hi - 0xd000 + 1) + (0xd7ff - lo)
    } else {
        hi - lo
    }
}

/// Distance between singletons.
///
/// `Self::Len` is the length type of the domain pair `(Self, U)`: it is
/// chosen wide enough that no distance between any two values of the pair,
/// and no length of a single value, can overflow it.
pub trait Measure<U = Self> {
    /// The result type of `len` and `distance` for this domain pair.
    type Len: core::default::Default + core::ops::Add<Output = Self::Len> + core::ops::Sub<
        Output = Self::Len,
    > + core::cmp::PartialEq;

    /// The mathematical value of a length result.
    spec fn len_as_int(l: &Self::Len) -> int;

    /// What `len` returns, as a mathematical integer. It takes no value
    /// argument: the length of an element is a constant of the domain pair,
    /// never of the element itself.
    spec fn len_spec() -> int;

    /// What `distance` returns, as a mathematical integer.
    spec fn distance_spec(&self, other: &U) -> int;

    /// Returns the length of the given element.
    fn len(&self) -> (r: Self::Len)
        ensures
            Self::len_as_int(&r) == Self::len_spec(),
    ;

    /// Returns the distance to the given other element.
    fn distance(&self, other: &U) -> (r: Self::Len)
        ensures
            Self::len_as_int(&r) == self.distance_spec(other),
    ;
}

/// Symmetry: the absolute difference of two integers does not depend on the
/// order of its arguments. Every integral `distance` is pinned to `abs_diff`,
/// so this law covers the whole integral matrix.
pub proof fn lemma_abs_diff_symmetric(a: int, b: int)
    ensures
        abs_diff(a, b) == abs_diff(b, a),
{
}

/// Identity: the absolute difference of an integer with itself is zero, the
/// zero length value of every integral domain pair.
pub proof fn lemma_abs_diff_identity(a: int)
    ensures
        abs_diff(a, a) == 0,
{
}

/// Symmetry of the character metric: the distance between two Unicode scalar
/// values does not depend on the order of its arguments.
pub proof fn lemma_char_dist_symmetric(a: int, b: int)
    ensures
        char_dist(a, b) == char_dist(b, a),
{
}

/// Identity of the character metric: the distance from a codepoint to itself
/// is zero. No single codepoint spans the surrogate gap.
pub proof fn lemma_char_dist_identity(a: int)
    ensures
        char_dist(a, a) == 0,
{
}

/// A distance is a non-negative separation: the absolute difference is
/// never below zero.
pub proof fn lemma_abs_diff_nonneg(a: int, b: int)
    ensures
        abs_diff(a, b) >= 0,
{
}

/// The character metric is a non-negative separation as well, whether or
/// not the span between the codepoints crosses the surrogate gap.
pub proof fn lemma_char_dist_nonneg(a: int, b: int)
    ensures
        char_dist(a, b) >= 0,
{
}

/// Away from the surrogate gap the character metric agrees with the plain
/// absolute difference of the codepoints.
pub proof fn lemma_char_dist_plain(a: int, b: int)
    requires
        !(a <= 0xd7ff && b >= 0xe000),
        !(b <= 0xd7ff && a >= 0xe000),
    ensures
        char_dist(a, b) == abs_diff(a, b),
{
}

/// Computes the character metric directly on two Unicode scalar values.
pub fn char_distance(a: char, b: char) -> (r: u64)
    ensures
        r as int == char_dist(a as int, b as int),
{
    let x: u64 = (a as u32) as u64;
    let y: u64 = (b as u32) as u64;
    let lo: u64 = if x <= y {
        x
    } else {
        y
    };
    let hi: u64 = if x <= y {
        y
    } else {
        x
    };
    if lo <= 0xd7ff && hi >= 0xe000 {
        (hi - 0xd000 + 1) + (0xd7ff - lo)
    } else {
        hi - lo
    }
}

impl Measure for char {
    type Len = u64;

    open spec fn len_as_int(l: &u64) -> int {
        *l as int
    }

    open spec fn len_spec() -> int {
        1
    }

    open spec fn distance_spec(&self, other: &char) -> int {
        char_dist(*self as int, *other as int)
    }

    fn len(&self) -> (r: u64) {
        1
    }

    fn distance(&self, other: &char) -> (r: u64) {
        char_distance(*self, *other)
    }
}

} // verus!
