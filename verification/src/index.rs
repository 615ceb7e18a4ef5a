//! The index abstraction: a capability contract over an unsigned integer
//! type. The engine only needs saturating addition and subtraction,
//! ordering, equality, conversion from the small constants used by the
//! narrowing rules, and a checked conversion from a row count. Every
//! unsigned width instantiates the same verified algorithm.

use vstd::prelude::*;

verus! {

/// Saturating addition over the mathematical integers: clamps at `max`.
pub open spec fn sat_add_int(a: int, b: int, max: int) -> int {
    if a + b > max {
        max
    } else {
        a + b
    }
}

/// Saturating subtraction over the mathematical integers: clamps at zero.
pub open spec fn sat_sub_int(a: int, b: int) -> int {
    if a - b < 0 {
        0
    } else {
        a - b
    }
}

/// An unsigned index type for tunnel widths, columns and row counts.
///
/// `as_int` is the mathematical value of an index and `max_int` the largest
/// value the type can represent; every executable operation is specified
/// against them, so the corridor algorithm verifies once for all widths.
pub trait TunnelIndex: Sized + Copy {
    /// The mathematical value of this index.
    spec fn as_int(self) -> int;

    /// The largest value this index type can represent.
    spec fn max_int() -> int;

    /// Every value of the type lies between zero and the maximum.
    proof fn lemma_in_range(self)
        ensures
            0 <= self.as_int() <= Self::max_int(),
    ;

    /// Conversion from the small literal constants the narrowing rules use.
    fn from_small(v: u8) -> (r: Self)
        requires
            v <= 3,
        ensures
            r.as_int() == v as int,
    ;

    /// Addition that clamps at the type's maximum instead of wrapping.
    fn sat_add(self, rhs: Self) -> (r: Self)
        ensures
            r.as_int() == sat_add_int(self.as_int(), rhs.as_int(), Self::max_int()),
    ;

    /// Subtraction that clamps at zero instead of wrapping.
    fn sat_sub(self, rhs: Self) -> (r: Self)
        ensures
            r.as_int() == sat_sub_int(self.as_int(), rhs.as_int()),
    ;

    /// Strict ordering.
    fn lt(self, other: Self) -> (r: bool)
        ensures
            r == (self.as_int() < other.as_int()),
    ;

    /// Equality.
    fn eq(self, other: Self) -> (r: bool)
        ensures
            r == (self.as_int() == other.as_int()),
    ;

    /// Whether this index is zero.
    fn is_zero(self) -> (r: bool)
        ensures
            r == (self.as_int() == 0),
    ;

    /// Widening to `usize`, for indexing into the row buffer.
    fn to_usize(self) -> (r: usize)
        requires
            self.as_int() <= usize::MAX,
        ensures
            r == self.as_int(),
    ;

    /// Checked conversion from a row count. A count the type cannot
    /// represent yields `None`; the enumerator degrades to an empty
    /// sequence instead of producing wrong indices.
    fn from_row_count(n: usize) -> (r: Option<Self>)
        ensures
            match r {
                Some(v) => n <= Self::max_int() && v.as_int() == n as int,
                None => n > Self::max_int(),
            },
    ;
}

impl TunnelIndex for u8 {
    open spec fn as_int(self) -> int {
        self as int
    }

    open spec fn max_int() -> int {
        u8::MAX as int
    }

    proof fn lemma_in_range(self) {
    }

    fn from_small(v: u8) -> (r: Self) {
        v
    }

    fn sat_add(self, rhs: Self) -> (r: Self) {
        self.saturating_add(rhs)
    }

    fn sat_sub(self, rhs: Self) -> (r: Self) {
        self.saturating_sub(rhs)
    }

    fn lt(self, other: Self) -> (r: bool) {
        self < other
    }

    fn eq(self, other: Self) -> (r: bool) {
        self == other
    }

    fn is_zero(self) -> (r: bool) {
        self == 0
    }

    fn to_usize(self) -> (r: usize) {
        self as usize
    }

    fn from_row_count(n: usize) -> (r: Option<Self>) {
        if n <= u8::MAX as usize {
            Some(n as u8)
        } else {
            None
        }
    }
}

impl TunnelIndex for u16 {
    open spec fn as_int(self) -> int {
        self as int
    }

    open spec fn max_int() -> int {
        u16::MAX as int
    }

    proof fn lemma_in_range(self) {
    }

    fn from_small(v: u8) -> (r: Self) {
        v as u16
    }

    fn sat_add(self, rhs: Self) -> (r: Self) {
        self.saturating_add(rhs)
    }

    fn sat_sub(self, rhs: Self) -> (r: Self) {
        self.saturating_sub(rhs)
    }

    fn lt(self, other: Self) -> (r: bool) {
        self < other
    }

    fn eq(self, other: Self) -> (r: bool) {
        self == other
    }

    fn is_zero(self) -> (r: bool) {
        self == 0
    }

    fn to_usize(self) -> (r: usize) {
        self as usize
    }

    fn from_row_count(n: usize) -> (r: Option<Self>) {
        if n <= u16::MAX as usize {
            Some(n as u16)
        } else {
            None
        }
    }
}

impl TunnelIndex for u32 {
    open spec fn as_int(self) -> int {
        self as int
    }

    open spec fn max_int() -> int {
        u32::MAX as int
    }

    proof fn lemma_in_range(self) {
    }

    fn from_small(v: u8) -> (r: Self) {
        v as u32
    }

    fn sat_add(self, rhs: Self) -> (r: Self) {
        self.saturating_add(rhs)
    }

    fn sat_sub(self, rhs: Self) -> (r: Self) {
        self.saturating_sub(rhs)
    }

    fn lt(self, other: Self) -> (r: bool) {
        self < other
    }

    fn eq(self, other: Self) -> (r: bool) {
        self == other
    }

    fn is_zero(self) -> (r: bool) {
        self == 0
    }

    fn to_usize(self) -> (r: usize) {
        self as usize
    }

    fn from_row_count(n: usize) -> (r: Option<Self>) {
        if n <= u32::MAX as usize {
            Some(n as u32)
        } else {
            None
        }
    }
}

impl TunnelIndex for u64 {
    open spec fn as_int(self) -> int {
        self as int
    }

    open spec fn max_int() -> int {
        u64::MAX as int
    }

    proof fn lemma_in_range(self) {
    }

    fn from_small(v: u8) -> (r: Self) {
        v as u64
    }

    fn sat_add(self, rhs: Self) -> (r: Self) {
        self.saturating_add(rhs)
    }

    fn sat_sub(self, rhs: Self) -> (r: Self) {
        self.saturating_sub(rhs)
    }

    fn lt(self, other: Self) -> (r: bool) {
        self < other
    }

    fn eq(self, other: Self) -> (r: bool) {
        self == other
    }

    fn is_zero(self) -> (r: bool) {
        self == 0
    }

    fn to_usize(self) -> (r: usize) {
        self as usize
    }

    fn from_row_count(n: usize) -> (r: Option<Self>) {
        Some(n as u64)
    }
}

impl TunnelIndex for u128 {
    open spec fn as_int(self) -> int {
        self as int
    }

    open spec fn max_int() -> int {
        u128::MAX as int
    }

    proof fn lemma_in_range(self) {
    }

    fn from_small(v: u8) -> (r: Self) {
        v as u128
    }

    fn sat_add(self, rhs: Self) -> (r: Self) {
        self.saturating_add(rhs)
    }

    fn sat_sub(self, rhs: Self) -> (r: Self) {
        self.saturating_sub(rhs)
    }

    fn lt(self, other: Self) -> (r: bool) {
        self < other
    }

    fn eq(self, other: Self) -> (r: bool) {
        self == other
    }

    fn is_zero(self) -> (r: bool) {
        self == 0
    }

    fn to_usize(self) -> (r: usize) {
        self as usize
    }

    fn from_row_count(n: usize) -> (r: Option<Self>) {
        Some(n as u128)
    }
}

impl TunnelIndex for usize {
    open spec fn as_int(self) -> int {
        self as int
    }

    open spec fn max_int() -> int {
        usize::MAX as int
    }

    proof fn lemma_in_range(self) {
    }

    fn from_small(v: u8) -> (r: Self) {
        v as usize
    }

    fn sat_add(self, rhs: Self) -> (r: Self) {
        self.saturating_add(rhs)
    }

    fn sat_sub(self, rhs: Self) -> (r: Self) {
        self.saturating_sub(rhs)
    }

    fn lt(self, other: Self) -> (r: bool) {
        self < other
    }

    fn eq(self, other: Self) -> (r: bool) {
        self == other
    }

    fn is_zero(self) -> (r: bool) {
        self == 0
    }

    fn to_usize(self) -> (r: usize) {
        self
    }

    fn from_row_count(n: usize) -> (r: Option<Self>) {
        Some(n)
    }
}

/// The constant 2 in the chosen index type.
pub fn two<T: TunnelIndex>() -> (r: T)
    ensures
        r.as_int() == 2,
{
    T::from_small(2)
}

/// The constant 3 in the chosen index type.
pub fn three<T: TunnelIndex>() -> (r: T)
    ensures
        r.as_int() == 3,
{
    T::from_small(3)
}

/// How many rows construction pre-fills: three rows fewer than the
/// corridor height, never less than zero.
pub fn rows_to_loop_iterations<T: TunnelIndex>(rows: T) -> (r: T)
    ensures
        r.as_int() == sat_sub_int(rows.as_int(), 3),
{
    rows.sat_sub(three())
}

} // verus!
