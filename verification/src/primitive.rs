use vstd::prelude::*;

verus! {

/// The integer types that can hold one channel of a pixel.
///
/// Each value stands for the mathematical integer `spec_int()`, which lies
/// between `spec_min()` and `spec_max()`; different values stand for
/// different integers.
pub trait Primitive: Copy + Sized {
    /// The integer that this value stands for.
    spec fn spec_int(self) -> int;

    /// The least integer of the type.
    spec fn spec_min() -> int;

    /// The greatest integer of the type.
    spec fn spec_max() -> int;

    /// The value zero.
    spec fn spec_zero() -> Self;

    /// The greatest value of the type.
    spec fn spec_max_value() -> Self;

    /// The difference `self - rhs`, where it fits the type.
    spec fn spec_minus(self, rhs: Self) -> Self;

    /// What every primitive type guarantees about its values.
    proof fn lemma_primitive(x: Self, y: Self)
        ensures
            Self::spec_min() <= 0 < Self::spec_max(),
            Self::spec_min() <= x.spec_int() <= Self::spec_max(),
            x.spec_int() == y.spec_int() ==> x == y,
            Self::spec_zero().spec_int() == 0,
            Self::spec_max_value().spec_int() == Self::spec_max(),
            Self::spec_min() <= x.spec_int() - y.spec_int() <= Self::spec_max() ==> x.spec_minus(
                y,
            ).spec_int() == x.spec_int() - y.spec_int(),
    ;

    /// Returns zero.
    fn zero() -> (r: Self)
        ensures
            r == Self::spec_zero(),
    ;

    /// Returns the greatest value of the type.
    fn max_value() -> (r: Self)
        ensures
            r == Self::spec_max_value(),
    ;

    /// Returns `self - rhs`; the difference must fit the type.
    fn minus(self, rhs: Self) -> (r: Self)
        requires
            Self::spec_min() <= self.spec_int() - rhs.spec_int() <= Self::spec_max(),
        ensures
            r == self.spec_minus(rhs),
    ;
}

/// `a - b` lies in the range of the type.
pub open spec fn sub_fits<T: Primitive>(a: T, b: T) -> bool {
    T::spec_min() <= a.spec_int() - b.spec_int() <= T::spec_max()
}

/// `max - x` lies in the range of the type, so that the channel `x` can be
/// inverted.  For the unsigned types this holds of every value; for the
/// signed types it holds of the values that are not negative.
pub open spec fn can_invert<T: Primitive>(x: T) -> bool {
    sub_fits(T::spec_max_value(), x)
}

/// `max - x`: the inverse of a channel value.
pub open spec fn spec_invert<T: Primitive>(x: T) -> T {
    T::spec_max_value().spec_minus(x)
}

/// A channel can be inverted exactly when it is not negative, and its
/// inverse can be inverted again, giving back the channel.
pub proof fn lemma_invert_channel<T: Primitive>(x: T)
    ensures
        can_invert(x) <==> x.spec_int() >= 0,
        can_invert(x) ==> spec_invert(x).spec_int() == T::spec_max() - x.spec_int(),
        can_invert(x) ==> can_invert(spec_invert(x)),
        can_invert(x) ==> spec_invert(spec_invert(x)) == x,
{
    T::lemma_primitive(T::spec_max_value(), x);
    T::lemma_primitive(x, x);
    if can_invert(x) {
        let y = spec_invert(x);
        T::lemma_primitive(y, y);
        T::lemma_primitive(T::spec_max_value(), y);
        T::lemma_primitive(spec_invert(y), x);
    }
}

impl Primitive for u8 {
    open spec fn spec_int(self) -> int { self as int }
    open spec fn spec_min() -> int { 0 }
    open spec fn spec_max() -> int { u8::MAX as int }
    open spec fn spec_zero() -> u8 { 0 }
    open spec fn spec_max_value() -> u8 { u8::MAX }
    open spec fn spec_minus(self, rhs: u8) -> u8 { (self - rhs) as u8 }

    proof fn lemma_primitive(x: u8, y: u8) {
    }

    fn zero() -> (r: u8) { 0 }

    fn max_value() -> (r: u8) { u8::MAX }

    fn minus(self, rhs: u8) -> (r: u8) { self - rhs }
}

impl Primitive for u16 {
    open spec fn spec_int(self) -> int { self as int }
    open spec fn spec_min() -> int { 0 }
    open spec fn spec_max() -> int { u16::MAX as int }
    open spec fn spec_zero() -> u16 { 0 }
    open spec fn spec_max_value() -> u16 { u16::MAX }
    open spec fn spec_minus(self, rhs: u16) -> u16 { (self - rhs) as u16 }

    proof fn lemma_primitive(x: u16, y: u16) {
    }

    fn zero() -> (r: u16) { 0 }

    fn max_value() -> (r: u16) { u16::MAX }

    fn minus(self, rhs: u16) -> (r: u16) { self - rhs }
}

impl Primitive for u32 {
    open spec fn spec_int(self) -> int { self as int }
    open spec fn spec_min() -> int { 0 }
    open spec fn spec_max() -> int { u32::MAX as int }
    open spec fn spec_zero() -> u32 { 0 }
    open spec fn spec_max_value() -> u32 { u32::MAX }
    open spec fn spec_minus(self, rhs: u32) -> u32 { (self - rhs) as u32 }

    proof fn lemma_primitive(x: u32, y: u32) {
    }

    fn zero() -> (r: u32) { 0 }

    fn max_value() -> (r: u32) { u32::MAX }

    fn minus(self, rhs: u32) -> (r: u32) { self - rhs }
}

impl Primitive for u64 {
    open spec fn spec_int(self) -> int { self as int }
    open spec fn spec_min() -> int { 0 }
    open spec fn spec_max() -> int { u64::MAX as int }
    open spec fn spec_zero() -> u64 { 0 }
    open spec fn spec_max_value() -> u64 { u64::MAX }
    open spec fn spec_minus(self, rhs: u64) -> u64 { (self - rhs) as u64 }

    proof fn lemma_primitive(x: u64, y: u64) {
    }

    fn zero() -> (r: u64) { 0 }

    fn max_value() -> (r: u64) { u64::MAX }

    fn minus(self, rhs: u64) -> (r: u64) { self - rhs }
}

impl Primitive for usize {
    open spec fn spec_int(self) -> int { self as int }
    open spec fn spec_min() -> int { 0 }
    open spec fn spec_max() -> int { usize::MAX as int }
    open spec fn spec_zero() -> usize { 0 }
    open spec fn spec_max_value() -> usize { usize::MAX }
    open spec fn spec_minus(self, rhs: usize) -> usize { (self - rhs) as usize }

    proof fn lemma_primitive(x: usize, y: usize) {
    }

    fn zero() -> (r: usize) { 0 }

    fn max_value() -> (r: usize) { usize::MAX }

    fn minus(self, rhs: usize) -> (r: usize) { self - rhs }
}

impl Primitive for i8 {
    open spec fn spec_int(self) -> int { self as int }
    open spec fn spec_min() -> int { i8::MIN as int }
    open spec fn spec_max() -> int { i8::MAX as int }
    open spec fn spec_zero() -> i8 { 0 }
    open spec fn spec_max_value() -> i8 { i8::MAX }
    open spec fn spec_minus(self, rhs: i8) -> i8 { (self - rhs) as i8 }

    proof fn lemma_primitive(x: i8, y: i8) {
    }

    fn zero() -> (r: i8) { 0 }

    fn max_value() -> (r: i8) { i8::MAX }

    fn minus(self, rhs: i8) -> (r: i8) { self - rhs }
}

impl Primitive for i16 {
    open spec fn spec_int(self) -> int { self as int }
    open spec fn spec_min() -> int { i16::MIN as int }
    open spec fn spec_max() -> int { i16::MAX as int }
    open spec fn spec_zero() -> i16 { 0 }
    open spec fn spec_max_value() -> i16 { i16::MAX }
    open spec fn spec_minus(self, rhs: i16) -> i16 { (self - rhs) as i16 }

    proof fn lemma_primitive(x: i16, y: i16) {
    }

    fn zero() -> (r: i16) { 0 }

    fn max_value() -> (r: i16) { i16::MAX }

    fn minus(self, rhs: i16) -> (r: i16) { self - rhs }
}

impl Primitive for i32 {
    open spec fn spec_int(self) -> int { self as int }
    open spec fn spec_min() -> int { i32::MIN as int }
    open spec fn spec_max() -> int { i32::MAX as int }
    open spec fn spec_zero() -> i32 { 0 }
    open spec fn spec_max_value() -> i32 { i32::MAX }
    open spec fn spec_minus(self, rhs: i32) -> i32 { (self - rhs) as i32 }

    proof fn lemma_primitive(x: i32, y: i32) {
    }

    fn zero() -> (r: i32) { 0 }

    fn max_value() -> (r: i32) { i32::MAX }

    fn minus(self, rhs: i32) -> (r: i32) { self - rhs }
}

impl Primitive for i64 {
    open spec fn spec_int(self) -> int { self as int }
    open spec fn spec_min() -> int { i64::MIN as int }
    open spec fn spec_max() -> int { i64::MAX as int }
    open spec fn spec_zero() -> i64 { 0 }
    open spec fn spec_max_value() -> i64 { i64::MAX }
    open spec fn spec_minus(self, rhs: i64) -> i64 { (self - rhs) as i64 }

    proof fn lemma_primitive(x: i64, y: i64) {
    }

    fn zero() -> (r: i64) { 0 }

    fn max_value() -> (r: i64) { i64::MAX }

    fn minus(self, rhs: i64) -> (r: i64) { self - rhs }
}

impl Primitive for isize {
    open spec fn spec_int(self) -> int { self as int }
    open spec fn spec_min() -> int { isize::MIN as int }
    open spec fn spec_max() -> int { isize::MAX as int }
    open spec fn spec_zero() -> isize { 0 }
    open spec fn spec_max_value() -> isize { isize::MAX }
    open spec fn spec_minus(self, rhs: isize) -> isize { (self - rhs) as isize }

    proof fn lemma_primitive(x: isize, y: isize) {
    }

    fn zero() -> (r: isize) { 0 }

    fn max_value() -> (r: isize) { isize::MAX }

    fn minus(self, rhs: isize) -> (r: isize) { self - rhs }
}

} // verus!
