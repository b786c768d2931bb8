use vstd::prelude::*;

verus! {

/// A numeric type that can stand for a grid coordinate. It models a range of
/// mathematical integers, has a zero and a one, and adds and subtracts exactly
/// wherever the result stays inside that range.
pub trait Coordinate: Copy + Sized {
    /// The integer that a value stands for.
    spec fn to_int(self) -> int;

    /// Whether the type can hold the integer `v`.
    spec fn in_range(v: int) -> bool;

    /// The value that stands for `v`, where `v` is in range.
    spec fn from_int(v: int) -> Self;

    /// Every value stands for an integer in range.
    proof fn lemma_to_int_in_range(x: Self)
        ensures
            Self::in_range(x.to_int()),
    ;

    /// Distinct values stand for distinct integers.
    proof fn lemma_from_to_int(x: Self)
        ensures
            Self::from_int(x.to_int()) == x,
    ;

    /// Every integer in range is stood for by some value.
    proof fn lemma_to_from_int(v: int)
        requires
            Self::in_range(v),
        ensures
            Self::from_int(v).to_int() == v,
    ;

    /// The additive identity.
    fn zero_value() -> (r: Self)
        ensures
            r.to_int() == 0,
    ;

    /// The multiplicative identity.
    fn one_value() -> (r: Self)
        ensures
            r.to_int() == 1,
    ;

    /// Exact sum; the caller keeps it in range.
    fn plus(self, o: Self) -> (r: Self)
        requires
            Self::in_range(self.to_int() + o.to_int()),
        ensures
            r.to_int() == self.to_int() + o.to_int(),
    ;

    /// Exact difference; the caller keeps it in range.
    fn minus(self, o: Self) -> (r: Self)
        requires
            Self::in_range(self.to_int() - o.to_int()),
        ensures
            r.to_int() == self.to_int() - o.to_int(),
    ;
}

/// Relies on num's `Zero` for `i8`, whose `zero` returns the literal `0`.
pub assume_specification[ <i8 as num::Zero>::zero ]() -> (r: i8)
    ensures
        r == 0,
;

/// Relies on num's `One` for `i8`, whose `one` returns the literal `1`.
pub assume_specification[ <i8 as num::One>::one ]() -> (r: i8)
    ensures
        r == 1,
;

impl Coordinate for i8 {
    open spec fn to_int(self) -> int {
        self as int
    }

    open spec fn in_range(v: int) -> bool {
        i8::MIN <= v <= i8::MAX
    }

    open spec fn from_int(v: int) -> i8 {
        v as i8
    }

    proof fn lemma_to_int_in_range(x: i8) {
    }

    proof fn lemma_from_to_int(x: i8) {
    }

    proof fn lemma_to_from_int(v: int) {
    }

    fn zero_value() -> (r: i8) {
        <i8 as num::Zero>::zero()
    }

    fn one_value() -> (r: i8) {
        <i8 as num::One>::one()
    }

    fn plus(self, o: i8) -> (r: i8) {
        self + o
    }

    fn minus(self, o: i8) -> (r: i8) {
        self - o
    }
}

/// Relies on num's `Zero` for `i16`, whose `zero` returns the literal `0`.
pub assume_specification[ <i16 as num::Zero>::zero ]() -> (r: i16)
    ensures
        r == 0,
;

/// Relies on num's `One` for `i16`, whose `one` returns the literal `1`.
pub assume_specification[ <i16 as num::One>::one ]() -> (r: i16)
    ensures
        r == 1,
;

impl Coordinate for i16 {
    open spec fn to_int(self) -> int {
        self as int
    }

    open spec fn in_range(v: int) -> bool {
        i16::MIN <= v <= i16::MAX
    }

    open spec fn from_int(v: int) -> i16 {
        v as i16
    }

    proof fn lemma_to_int_in_range(x: i16) {
    }

    proof fn lemma_from_to_int(x: i16) {
    }

    proof fn lemma_to_from_int(v: int) {
    }

    fn zero_value() -> (r: i16) {
        <i16 as num::Zero>::zero()
    }

    fn one_value() -> (r: i16) {
        <i16 as num::One>::one()
    }

    fn plus(self, o: i16) -> (r: i16) {
        self + o
    }

    fn minus(self, o: i16) -> (r: i16) {
        self - o
    }
}

/// Relies on num's `Zero` for `i32`, whose `zero` returns the literal `0`.
pub assume_specification[ <i32 as num::Zero>::zero ]() -> (r: i32)
    ensures
        r == 0,
;

/// Relies on num's `One` for `i32`, whose `one` returns the literal `1`.
pub assume_specification[ <i32 as num::One>::one ]() -> (r: i32)
    ensures
        r == 1,
;

impl Coordinate for i32 {
    open spec fn to_int(self) -> int {
        self as int
    }

    open spec fn in_range(v: int) -> bool {
        i32::MIN <= v <= i32::MAX
    }

    open spec fn from_int(v: int) -> i32 {
        v as i32
    }

    proof fn lemma_to_int_in_range(x: i32) {
    }

    proof fn lemma_from_to_int(x: i32) {
    }

    proof fn lemma_to_from_int(v: int) {
    }

    fn zero_value() -> (r: i32) {
        <i32 as num::Zero>::zero()
    }

    fn one_value() -> (r: i32) {
        <i32 as num::One>::one()
    }

    fn plus(self, o: i32) -> (r: i32) {
        self + o
    }

    fn minus(self, o: i32) -> (r: i32) {
        self - o
    }
}

/// Relies on num's `Zero` for `i64`, whose `zero` returns the literal `0`.
pub assume_specification[ <i64 as num::Zero>::zero ]() -> (r: i64)
    ensures
        r == 0,
;

/// Relies on num's `One` for `i64`, whose `one` returns the literal `1`.
pub assume_specification[ <i64 as num::One>::one ]() -> (r: i64)
    ensures
        r == 1,
;

impl Coordinate for i64 {
    open spec fn to_int(self) -> int {
        self as int
    }

    open spec fn in_range(v: int) -> bool {
        i64::MIN <= v <= i64::MAX
    }

    open spec fn from_int(v: int) -> i64 {
        v as i64
    }

    proof fn lemma_to_int_in_range(x: i64) {
    }

    proof fn lemma_from_to_int(x: i64) {
    }

    proof fn lemma_to_from_int(v: int) {
    }

    fn zero_value() -> (r: i64) {
        <i64 as num::Zero>::zero()
    }

    fn one_value() -> (r: i64) {
        <i64 as num::One>::one()
    }

    fn plus(self, o: i64) -> (r: i64) {
        self + o
    }

    fn minus(self, o: i64) -> (r: i64) {
        self - o
    }
}

/// Relies on num's `Zero` for `i128`, whose `zero` returns the literal `0`.
pub assume_specification[ <i128 as num::Zero>::zero ]() -> (r: i128)
    ensures
        r == 0,
;

/// Relies on num's `One` for `i128`, whose `one` returns the literal `1`.
pub assume_specification[ <i128 as num::One>::one ]() -> (r: i128)
    ensures
        r == 1,
;

impl Coordinate for i128 {
    open spec fn to_int(self) -> int {
        self as int
    }

    open spec fn in_range(v: int) -> bool {
        i128::MIN <= v <= i128::MAX
    }

    open spec fn from_int(v: int) -> i128 {
        v as i128
    }

    proof fn lemma_to_int_in_range(x: i128) {
    }

    proof fn lemma_from_to_int(x: i128) {
    }

    proof fn lemma_to_from_int(v: int) {
    }

    fn zero_value() -> (r: i128) {
        <i128 as num::Zero>::zero()
    }

    fn one_value() -> (r: i128) {
        <i128 as num::One>::one()
    }

    fn plus(self, o: i128) -> (r: i128) {
        self + o
    }

    fn minus(self, o: i128) -> (r: i128) {
        self - o
    }
}

/// Relies on num's `Zero` for `u8`, whose `zero` returns the literal `0`.
pub assume_specification[ <u8 as num::Zero>::zero ]() -> (r: u8)
    ensures
        r == 0,
;

/// Relies on num's `One` for `u8`, whose `one` returns the literal `1`.
pub assume_specification[ <u8 as num::One>::one ]() -> (r: u8)
    ensures
        r == 1,
;

impl Coordinate for u8 {
    open spec fn to_int(self) -> int {
        self as int
    }

    open spec fn in_range(v: int) -> bool {
        u8::MIN <= v <= u8::MAX
    }

    open spec fn from_int(v: int) -> u8 {
        v as u8
    }

    proof fn lemma_to_int_in_range(x: u8) {
    }

    proof fn lemma_from_to_int(x: u8) {
    }

    proof fn lemma_to_from_int(v: int) {
    }

    fn zero_value() -> (r: u8) {
        <u8 as num::Zero>::zero()
    }

    fn one_value() -> (r: u8) {
        <u8 as num::One>::one()
    }

    fn plus(self, o: u8) -> (r: u8) {
        self + o
    }

    fn minus(self, o: u8) -> (r: u8) {
        self - o
    }
}

/// Relies on num's `Zero` for `u16`, whose `zero` returns the literal `0`.
pub assume_specification[ <u16 as num::Zero>::zero ]() -> (r: u16)
    ensures
        r == 0,
;

/// Relies on num's `One` for `u16`, whose `one` returns the literal `1`.
pub assume_specification[ <u16 as num::One>::one ]() -> (r: u16)
    ensures
        r == 1,
;

impl Coordinate for u16 {
    open spec fn to_int(self) -> int {
        self as int
    }

    open spec fn in_range(v: int) -> bool {
        u16::MIN <= v <= u16::MAX
    }

    open spec fn from_int(v: int) -> u16 {
        v as u16
    }

    proof fn lemma_to_int_in_range(x: u16) {
    }

    proof fn lemma_from_to_int(x: u16) {
    }

    proof fn lemma_to_from_int(v: int) {
    }

    fn zero_value() -> (r: u16) {
        <u16 as num::Zero>::zero()
    }

    fn one_value() -> (r: u16) {
        <u16 as num::One>::one()
    }

    fn plus(self, o: u16) -> (r: u16) {
        self + o
    }

    fn minus(self, o: u16) -> (r: u16) {
        self - o
    }
}

/// Relies on num's `Zero` for `u32`, whose `zero` returns the literal `0`.
pub assume_specification[ <u32 as num::Zero>::zero ]() -> (r: u32)
    ensures
        r == 0,
;

/// Relies on num's `One` for `u32`, whose `one` returns the literal `1`.
pub assume_specification[ <u32 as num::One>::one ]() -> (r: u32)
    ensures
        r == 1,
;

impl Coordinate for u32 {
    open spec fn to_int(self) -> int {
        self as int
    }

    open spec fn in_range(v: int) -> bool {
        u32::MIN <= v <= u32::MAX
    }

    open spec fn from_int(v: int) -> u32 {
        v as u32
    }

    proof fn lemma_to_int_in_range(x: u32) {
    }

    proof fn lemma_from_to_int(x: u32) {
    }

    proof fn lemma_to_from_int(v: int) {
    }

    fn zero_value() -> (r: u32) {
        <u32 as num::Zero>::zero()
    }

    fn one_value() -> (r: u32) {
        <u32 as num::One>::one()
    }

    fn plus(self, o: u32) -> (r: u32) {
        self + o
    }

    fn minus(self, o: u32) -> (r: u32) {
        self - o
    }
}

/// Relies on num's `Zero` for `u64`, whose `zero` returns the literal `0`.
pub assume_specification[ <u64 as num::Zero>::zero ]() -> (r: u64)
    ensures
        r == 0,
;

/// Relies on num's `One` for `u64`, whose `one` returns the literal `1`.
pub assume_specification[ <u64 as num::One>::one ]() -> (r: u64)
    ensures
        r == 1,
;

impl Coordinate for u64 {
    open spec fn to_int(self) -> int {
        self as int
    }

    open spec fn in_range(v: int) -> bool {
        u64::MIN <= v <= u64::MAX
    }

    open spec fn from_int(v: int) -> u64 {
        v as u64
    }

    proof fn lemma_to_int_in_range(x: u64) {
    }

    proof fn lemma_from_to_int(x: u64) {
    }

    proof fn lemma_to_from_int(v: int) {
    }

    fn zero_value() -> (r: u64) {
        <u64 as num::Zero>::zero()
    }

    fn one_value() -> (r: u64) {
        <u64 as num::One>::one()
    }

    fn plus(self, o: u64) -> (r: u64) {
        self + o
    }

    fn minus(self, o: u64) -> (r: u64) {
        self - o
    }
}

/// Relies on num's `Zero` for `u128`, whose `zero` returns the literal `0`.
pub assume_specification[ <u128 as num::Zero>::zero ]() -> (r: u128)
    ensures
        r == 0,
;

/// Relies on num's `One` for `u128`, whose `one` returns the literal `1`.
pub assume_specification[ <u128 as num::One>::one ]() -> (r: u128)
    ensures
        r == 1,
;

impl Coordinate for u128 {
    open spec fn to_int(self) -> int {
        self as int
    }

    open spec fn in_range(v: int) -> bool {
        u128::MIN <= v <= u128::MAX
    }

    open spec fn from_int(v: int) -> u128 {
        v as u128
    }

    proof fn lemma_to_int_in_range(x: u128) {
    }

    proof fn lemma_from_to_int(x: u128) {
    }

    proof fn lemma_to_from_int(v: int) {
    }

    fn zero_value() -> (r: u128) {
        <u128 as num::Zero>::zero()
    }

    fn one_value() -> (r: u128) {
        <u128 as num::One>::one()
    }

    fn plus(self, o: u128) -> (r: u128) {
        self + o
    }

    fn minus(self, o: u128) -> (r: u128) {
        self - o
    }
}

} // verus!
