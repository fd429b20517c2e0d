use vstd::prelude::*;

verus! {

/// The capabilities a matrix element needs: a zero, an addition and a
/// multiplication, all total. Each executable operation is tied to a
/// specification function, so that results can be stated exactly.
pub trait Scalar: Copy {
    /// The seed of every sum.
    spec fn zero_spec() -> Self;

    /// What `plus` computes.
    spec fn plus_spec(self, rhs: Self) -> Self;

    /// What `times` computes.
    spec fn times_spec(self, rhs: Self) -> Self;

    fn zero() -> (z: Self)
        ensures
            z == Self::zero_spec(),
    ;

    fn plus(self, rhs: Self) -> (sum: Self)
        ensures
            sum == self.plus_spec(rhs),
    ;

    fn times(self, rhs: Self) -> (product: Self)
        ensures
            product == self.times_spec(rhs),
    ;
}

/// Scalars that stand for the integers of a bounded range, and whose
/// operations are those of the integers wherever the result is in the range.
pub trait Integer: Scalar {
    /// The integer that the scalar stands for.
    spec fn value(self) -> int;

    /// Whether the range holds the integer `v`.
    spec fn fits(v: int) -> bool;

    /// Zero stands for 0; a sum or a product that is in the range is exact.
    proof fn lemma_exact(x: Self, y: Self)
        ensures
            Self::zero_spec().value() == 0,
            Self::fits(x.value() + y.value()) ==> x.plus_spec(y).value() == x.value() + y.value(),
            Self::fits(x.value() * y.value()) ==> x.times_spec(y).value() == x.value()
                * y.value(),
    ;
}

/// 8-bit signed integers, with arithmetic modulo 2^8.
impl Scalar for i8 {
    open spec fn zero_spec() -> i8 {
        0
    }

    open spec fn plus_spec(self, rhs: i8) -> i8 {
        self.wrapping_add(rhs)
    }

    open spec fn times_spec(self, rhs: i8) -> i8 {
        self.wrapping_mul(rhs)
    }

    fn zero() -> (z: i8) {
        0
    }

    fn plus(self, rhs: i8) -> (sum: i8) {
        self.wrapping_add(rhs)
    }

    fn times(self, rhs: i8) -> (product: i8) {
        self.wrapping_mul(rhs)
    }
}

impl Integer for i8 {
    open spec fn value(self) -> int {
        self as int
    }

    open spec fn fits(v: int) -> bool {
        i8::MIN <= v <= i8::MAX
    }

    proof fn lemma_exact(x: i8, y: i8) {
        let p = (x as int) * (y as int);
        if i8::MIN <= p <= i8::MAX {
            if p >= 0 {
                vstd::arithmetic::div_mod::lemma_small_mod(p as nat, 0x100);
            } else {
                vstd::arithmetic::div_mod::lemma_fundamental_div_mod_converse(
                    p,
                    0x100,
                    -1,
                    p + 0x100,
                );
            }
        }
    }
}

/// 16-bit signed integers, with arithmetic modulo 2^16.
impl Scalar for i16 {
    open spec fn zero_spec() -> i16 {
        0
    }

    open spec fn plus_spec(self, rhs: i16) -> i16 {
        self.wrapping_add(rhs)
    }

    open spec fn times_spec(self, rhs: i16) -> i16 {
        self.wrapping_mul(rhs)
    }

    fn zero() -> (z: i16) {
        0
    }

    fn plus(self, rhs: i16) -> (sum: i16) {
        self.wrapping_add(rhs)
    }

    fn times(self, rhs: i16) -> (product: i16) {
        self.wrapping_mul(rhs)
    }
}

impl Integer for i16 {
    open spec fn value(self) -> int {
        self as int
    }

    open spec fn fits(v: int) -> bool {
        i16::MIN <= v <= i16::MAX
    }

    proof fn lemma_exact(x: i16, y: i16) {
        let p = (x as int) * (y as int);
        if i16::MIN <= p <= i16::MAX {
            if p >= 0 {
                vstd::arithmetic::div_mod::lemma_small_mod(p as nat, 0x1_0000);
            } else {
                vstd::arithmetic::div_mod::lemma_fundamental_div_mod_converse(
                    p,
                    0x1_0000,
                    -1,
                    p + 0x1_0000,
                );
            }
        }
    }
}

/// 32-bit signed integers, with arithmetic modulo 2^32.
impl Scalar for i32 {
    open spec fn zero_spec() -> i32 {
        0
    }

    open spec fn plus_spec(self, rhs: i32) -> i32 {
        self.wrapping_add(rhs)
    }

    open spec fn times_spec(self, rhs: i32) -> i32 {
        self.wrapping_mul(rhs)
    }

    fn zero() -> (z: i32) {
        0
    }

    fn plus(self, rhs: i32) -> (sum: i32) {
        self.wrapping_add(rhs)
    }

    fn times(self, rhs: i32) -> (product: i32) {
        self.wrapping_mul(rhs)
    }
}

impl Integer for i32 {
    open spec fn value(self) -> int {
        self as int
    }

    open spec fn fits(v: int) -> bool {
        i32::MIN <= v <= i32::MAX
    }

    proof fn lemma_exact(x: i32, y: i32) {
        let p = (x as int) * (y as int);
        if i32::MIN <= p <= i32::MAX {
            if p >= 0 {
                vstd::arithmetic::div_mod::lemma_small_mod(p as nat, 0x1_0000_0000);
            } else {
                vstd::arithmetic::div_mod::lemma_fundamental_div_mod_converse(
                    p,
                    0x1_0000_0000,
                    -1,
                    p + 0x1_0000_0000,
                );
            }
        }
    }
}

/// 64-bit signed integers, with arithmetic modulo 2^64.
impl Scalar for i64 {
    open spec fn zero_spec() -> i64 {
        0
    }

    open spec fn plus_spec(self, rhs: i64) -> i64 {
        self.wrapping_add(rhs)
    }

    open spec fn times_spec(self, rhs: i64) -> i64 {
        self.wrapping_mul(rhs)
    }

    fn zero() -> (z: i64) {
        0
    }

    fn plus(self, rhs: i64) -> (sum: i64) {
        self.wrapping_add(rhs)
    }

    fn times(self, rhs: i64) -> (product: i64) {
        self.wrapping_mul(rhs)
    }
}

impl Integer for i64 {
    open spec fn value(self) -> int {
        self as int
    }

    open spec fn fits(v: int) -> bool {
        i64::MIN <= v <= i64::MAX
    }

    proof fn lemma_exact(x: i64, y: i64) {
        let p = (x as int) * (y as int);
        if i64::MIN <= p <= i64::MAX {
            if p >= 0 {
                vstd::arithmetic::div_mod::lemma_small_mod(
                    p as nat,
                    0x1_0000_0000_0000_0000nat,
                );
            } else {
                vstd::arithmetic::div_mod::lemma_fundamental_div_mod_converse(
                    p,
                    0x1_0000_0000_0000_0000int,
                    -1,
                    p + 0x1_0000_0000_0000_0000int,
                );
            }
        }
    }
}

/// 128-bit signed integers, with arithmetic modulo 2^128.
impl Scalar for i128 {
    open spec fn zero_spec() -> i128 {
        0
    }

    open spec fn plus_spec(self, rhs: i128) -> i128 {
        self.wrapping_add(rhs)
    }

    open spec fn times_spec(self, rhs: i128) -> i128 {
        self.wrapping_mul(rhs)
    }

    fn zero() -> (z: i128) {
        0
    }

    fn plus(self, rhs: i128) -> (sum: i128) {
        self.wrapping_add(rhs)
    }

    fn times(self, rhs: i128) -> (product: i128) {
        self.wrapping_mul(rhs)
    }
}

impl Integer for i128 {
    open spec fn value(self) -> int {
        self as int
    }

    open spec fn fits(v: int) -> bool {
        i128::MIN <= v <= i128::MAX
    }

    proof fn lemma_exact(x: i128, y: i128) {
        let p = (x as int) * (y as int);
        if i128::MIN <= p <= i128::MAX {
            if p >= 0 {
                vstd::arithmetic::div_mod::lemma_small_mod(
                    p as nat,
                    0x1_0000_0000_0000_0000_0000_0000_0000_0000nat,
                );
            } else {
                vstd::arithmetic::div_mod::lemma_fundamental_div_mod_converse(
                    p,
                    0x1_0000_0000_0000_0000_0000_0000_0000_0000int,
                    -1,
                    p + 0x1_0000_0000_0000_0000_0000_0000_0000_0000int,
                );
            }
        }
    }
}

/// Pointer-sized signed integers, with arithmetic modulo the size of their range.
impl Scalar for isize {
    open spec fn zero_spec() -> isize {
        0
    }

    open spec fn plus_spec(self, rhs: isize) -> isize {
        self.wrapping_add(rhs)
    }

    open spec fn times_spec(self, rhs: isize) -> isize {
        self.wrapping_mul(rhs)
    }

    fn zero() -> (z: isize) {
        0
    }

    fn plus(self, rhs: isize) -> (sum: isize) {
        self.wrapping_add(rhs)
    }

    fn times(self, rhs: isize) -> (product: isize) {
        self.wrapping_mul(rhs)
    }
}

impl Integer for isize {
    open spec fn value(self) -> int {
        self as int
    }

    open spec fn fits(v: int) -> bool {
        isize::MIN <= v <= isize::MAX
    }

    proof fn lemma_exact(x: isize, y: isize) {
        let p = (x as int) * (y as int);
        if isize::MIN <= p <= isize::MAX {
            if p >= 0 {
                vstd::arithmetic::div_mod::lemma_small_mod(
                    p as nat,
                    (usize::MAX - usize::MIN + 1) as nat,
                );
            } else {
                vstd::arithmetic::div_mod::lemma_fundamental_div_mod_converse(
                    p,
                    (usize::MAX - usize::MIN + 1),
                    -1,
                    p + (usize::MAX - usize::MIN + 1),
                );
            }
        }
    }
}

/// 8-bit unsigned integers, with arithmetic modulo 2^8.
impl Scalar for u8 {
    open spec fn zero_spec() -> u8 {
        0
    }

    open spec fn plus_spec(self, rhs: u8) -> u8 {
        self.wrapping_add(rhs)
    }

    open spec fn times_spec(self, rhs: u8) -> u8 {
        self.wrapping_mul(rhs)
    }

    fn zero() -> (z: u8) {
        0
    }

    fn plus(self, rhs: u8) -> (sum: u8) {
        self.wrapping_add(rhs)
    }

    fn times(self, rhs: u8) -> (product: u8) {
        self.wrapping_mul(rhs)
    }
}

impl Integer for u8 {
    open spec fn value(self) -> int {
        self as int
    }

    open spec fn fits(v: int) -> bool {
        0 <= v <= u8::MAX
    }

    proof fn lemma_exact(x: u8, y: u8) {
        let p = (x as int) * (y as int);
        if 0 <= p <= u8::MAX {
            vstd::arithmetic::div_mod::lemma_small_mod(p as nat, 0x100);
        }
    }
}

/// 16-bit unsigned integers, with arithmetic modulo 2^16.
impl Scalar for u16 {
    open spec fn zero_spec() -> u16 {
        0
    }

    open spec fn plus_spec(self, rhs: u16) -> u16 {
        self.wrapping_add(rhs)
    }

    open spec fn times_spec(self, rhs: u16) -> u16 {
        self.wrapping_mul(rhs)
    }

    fn zero() -> (z: u16) {
        0
    }

    fn plus(self, rhs: u16) -> (sum: u16) {
        self.wrapping_add(rhs)
    }

    fn times(self, rhs: u16) -> (product: u16) {
        self.wrapping_mul(rhs)
    }
}

impl Integer for u16 {
    open spec fn value(self) -> int {
        self as int
    }

    open spec fn fits(v: int) -> bool {
        0 <= v <= u16::MAX
    }

    proof fn lemma_exact(x: u16, y: u16) {
        let p = (x as int) * (y as int);
        if 0 <= p <= u16::MAX {
            vstd::arithmetic::div_mod::lemma_small_mod(p as nat, 0x1_0000);
        }
    }
}

/// 32-bit unsigned integers, with arithmetic modulo 2^32.
impl Scalar for u32 {
    open spec fn zero_spec() -> u32 {
        0
    }

    open spec fn plus_spec(self, rhs: u32) -> u32 {
        self.wrapping_add(rhs)
    }

    open spec fn times_spec(self, rhs: u32) -> u32 {
        self.wrapping_mul(rhs)
    }

    fn zero() -> (z: u32) {
        0
    }

    fn plus(self, rhs: u32) -> (sum: u32) {
        self.wrapping_add(rhs)
    }

    fn times(self, rhs: u32) -> (product: u32) {
        self.wrapping_mul(rhs)
    }
}

impl Integer for u32 {
    open spec fn value(self) -> int {
        self as int
    }

    open spec fn fits(v: int) -> bool {
        0 <= v <= u32::MAX
    }

    proof fn lemma_exact(x: u32, y: u32) {
        let p = (x as int) * (y as int);
        if 0 <= p <= u32::MAX {
            vstd::arithmetic::div_mod::lemma_small_mod(p as nat, 0x1_0000_0000);
        }
    }
}

/// 64-bit unsigned integers, with arithmetic modulo 2^64.
impl Scalar for u64 {
    open spec fn zero_spec() -> u64 {
        0
    }

    open spec fn plus_spec(self, rhs: u64) -> u64 {
        self.wrapping_add(rhs)
    }

    open spec fn times_spec(self, rhs: u64) -> u64 {
        self.wrapping_mul(rhs)
    }

    fn zero() -> (z: u64) {
        0
    }

    fn plus(self, rhs: u64) -> (sum: u64) {
        self.wrapping_add(rhs)
    }

    fn times(self, rhs: u64) -> (product: u64) {
        self.wrapping_mul(rhs)
    }
}

impl Integer for u64 {
    open spec fn value(self) -> int {
        self as int
    }

    open spec fn fits(v: int) -> bool {
        0 <= v <= u64::MAX
    }

    proof fn lemma_exact(x: u64, y: u64) {
        let p = (x as int) * (y as int);
        if 0 <= p <= u64::MAX {
            vstd::arithmetic::div_mod::lemma_small_mod(
                p as nat,
                0x1_0000_0000_0000_0000nat,
            );
        }
    }
}

/// 128-bit unsigned integers, with arithmetic modulo 2^128.
impl Scalar for u128 {
    open spec fn zero_spec() -> u128 {
        0
    }

    open spec fn plus_spec(self, rhs: u128) -> u128 {
        self.wrapping_add(rhs)
    }

    open spec fn times_spec(self, rhs: u128) -> u128 {
        self.wrapping_mul(rhs)
    }

    fn zero() -> (z: u128) {
        0
    }

    fn plus(self, rhs: u128) -> (sum: u128) {
        self.wrapping_add(rhs)
    }

    fn times(self, rhs: u128) -> (product: u128) {
        self.wrapping_mul(rhs)
    }
}

impl Integer for u128 {
    open spec fn value(self) -> int {
        self as int
    }

    open spec fn fits(v: int) -> bool {
        0 <= v <= u128::MAX
    }

    proof fn lemma_exact(x: u128, y: u128) {
        let p = (x as int) * (y as int);
        if 0 <= p <= u128::MAX {
            vstd::arithmetic::div_mod::lemma_small_mod(
                p as nat,
                0x1_0000_0000_0000_0000_0000_0000_0000_0000nat,
            );
        }
    }
}

/// Pointer-sized unsigned integers, with arithmetic modulo the size of their range.
impl Scalar for usize {
    open spec fn zero_spec() -> usize {
        0
    }

    open spec fn plus_spec(self, rhs: usize) -> usize {
        self.wrapping_add(rhs)
    }

    open spec fn times_spec(self, rhs: usize) -> usize {
        self.wrapping_mul(rhs)
    }

    fn zero() -> (z: usize) {
        0
    }

    fn plus(self, rhs: usize) -> (sum: usize) {
        self.wrapping_add(rhs)
    }

    fn times(self, rhs: usize) -> (product: usize) {
        self.wrapping_mul(rhs)
    }
}

impl Integer for usize {
    open spec fn value(self) -> int {
        self as int
    }

    open spec fn fits(v: int) -> bool {
        0 <= v <= usize::MAX
    }

    proof fn lemma_exact(x: usize, y: usize) {
        let p = (x as int) * (y as int);
        if 0 <= p <= usize::MAX {
            vstd::arithmetic::div_mod::lemma_small_mod(
                p as nat,
                (usize::MAX - usize::MIN + 1) as nat,
            );
        }
    }
}

} // verus!
