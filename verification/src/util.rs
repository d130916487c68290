use crate::format_duration::{trunc_div, trunc_rem};
use vstd::prelude::*;

verus! {

/// The largest multiple of `step` that is at most `x` (for `x >= 0`, `step > 0`).
pub open spec fn floor_multiple(x: int, step: int) -> int {
    x - x % step
}

/// The smallest multiple of `step` that is at least `x` (for `x >= 0`, `step > 0`).
pub open spec fn ceil_multiple(x: int, step: int) -> int {
    if x % step == 0 {
        x
    } else {
        x + (step - x % step)
    }
}

/// `x` with the remainder that Rust's `%` leaves taken off (`step > 0`): for
/// `x >= 0` the largest multiple of `step` at most `x`, for `x < 0` the
/// nearest multiple of `step` toward zero.
pub open spec fn trunc_floor(x: int, step: int) -> int {
    x - trunc_rem(x, step)
}

/// `x` itself when Rust's `%` leaves no remainder, otherwise `x` plus the
/// step minus that remainder (`step > 0`).
pub open spec fn trunc_ceil(x: int, step: int) -> int {
    if trunc_rem(x, step) == 0 {
        x
    } else {
        x + (step - trunc_rem(x, step))
    }
}

/// Rounding a number down or up to a multiple of a step.
///
/// It is implemented for each primitive integer type, each with its own
/// conversion of the step through `num_traits::NumCast::from` (a single
/// implementation bounded by `num_traits::PrimInt` cannot be verified: no
/// verified function can be bounded by an outside trait). For a negative
/// number Rust's remainder takes the sign of the number, so there "down"
/// means toward zero and "up" means one step away from that.
pub trait DivisibleBy: Sized {
    /// Whether `floor_to_nearest(value)` can be computed for `self`.
    spec fn floor_defined(self, value: usize) -> bool;

    /// Whether `ceil_to_nearest(value)` can be computed for `self`.
    spec fn ceil_defined(self, value: usize) -> bool;

    /// What `floor_to_nearest(value)` returns.
    spec fn floored(self, value: usize) -> Self;

    /// What `ceil_to_nearest(value)` returns.
    spec fn ceiled(self, value: usize) -> Self;

    /// Rounds `self` down to the nearest multiple of `value`.
    fn floor_to_nearest(self, value: usize) -> (r: Self)
        requires
            self.floor_defined(value),
        ensures
            r == self.floored(value),
    ;

    /// Rounds `self` up to the nearest multiple of `value`.
    fn ceil_to_nearest(self, value: usize) -> (r: Self)
        requires
            self.ceil_defined(value),
        ensures
            r == self.ceiled(value),
    ;
}

/// Converts a step into the number type with `num_traits::NumCast::from`.
/// Its source (`ToPrimitive::to_u8` for unsigned sources) gives `Some` of the same
/// number exactly when it fits in a `u8`, and `None` otherwise.
#[verifier::external_body]
fn u8_from_usize(value: usize) -> (r: Option<u8>)
    ensures
        r == (if value <= u8::MAX {
            Some(value as u8)
        } else {
            None::<u8>
        }),
{
    <u8 as num_traits::NumCast>::from(value)
}

impl DivisibleBy for u8 {
    /// The step must be a nonzero number that fits in a `u8`.
    open spec fn floor_defined(self, value: usize) -> bool {
        0 < value <= u8::MAX
    }

    /// The step must be a nonzero number that fits in a `u8`, and the rounded value too.
    open spec fn ceil_defined(self, value: usize) -> bool {
        &&& 0 < value <= u8::MAX
        &&& ceil_multiple(self as int, value as int) <= u8::MAX
    }

    open spec fn floored(self, value: usize) -> u8 {
        floor_multiple(self as int, value as int) as u8
    }

    open spec fn ceiled(self, value: usize) -> u8 {
        ceil_multiple(self as int, value as int) as u8
    }

    fn floor_to_nearest(self, value: usize) -> (r: u8) {
        let step = u8_from_usize(value).unwrap();
        proof {
            lemma_rounding_bounds(self as int, step as int);
        }
        self - (self % step)
    }

    fn ceil_to_nearest(self, value: usize) -> (r: u8) {
        let step = u8_from_usize(value).unwrap();
        proof {
            lemma_rounding_bounds(self as int, step as int);
        }
        let rem = self % step;
        if rem == 0 {
            self
        } else {
            self + (step - rem)
        }
    }
}

/// `floor_multiple` on `u128`.
fn floor_u128(x: u128, step: u128) -> (r: u128)
    requires
        step > 0,
    ensures
        r == floor_multiple(x as int, step as int),
        r <= x,
{
    proof {
        lemma_rounding_bounds(x as int, step as int);
    }
    x - x % step
}

/// `ceil_multiple` on `u128`, where it fits.
fn ceil_u128(x: u128, step: u128) -> (r: u128)
    requires
        step > 0,
        ceil_multiple(x as int, step as int) <= u128::MAX,
    ensures
        r == ceil_multiple(x as int, step as int),
{
    proof {
        lemma_rounding_bounds(x as int, step as int);
    }
    let rem = x % step;
    if rem == 0 {
        x
    } else {
        x + (step - rem)
    }
}

/// The remainder that Rust's `%` leaves, computed on `i128` (`step > 0`).
fn trunc_rem_i128(x: i128, step: i128) -> (r: i128)
    requires
        step > 0,
    ensures
        r == trunc_rem(x as int, step as int),
        -step < r < step,
        x >= 0 ==> 0 <= r <= x,
        x < 0 ==> x <= r <= 0,
{
    let s = step as u128;
    if x >= 0 {
        let m = x as u128;
        proof {
            vstd::arithmetic::div_mod::lemma_fundamental_div_mod(m as int, s as int);
            vstd::arithmetic::div_mod::lemma_mod_pos_bound(m as int, s as int);
            lemma_rounding_bounds(m as int, s as int);
            assert(trunc_rem(x as int, step as int) == (m as int) % (s as int));
        }
        (m % s) as i128
    } else {
        let m: u128 = (-(x + 1)) as u128 + 1;
        proof {
            vstd::arithmetic::div_mod::lemma_fundamental_div_mod(m as int, s as int);
            vstd::arithmetic::div_mod::lemma_mod_pos_bound(m as int, s as int);
            lemma_rounding_bounds(m as int, s as int);
            let q = (m as int) / (s as int);
            assert(trunc_div(x as int, step as int) == -q);
            assert((step as int) * (-q) == -((s as int) * q)) by (nonlinear_arith)
                requires
                    (s as int) == (step as int),
            ;
            assert(trunc_rem(x as int, step as int) == -((m as int) % (s as int)));
        }
        -((m % s) as i128)
    }
}

/// Converts a step into a `u16` with `num_traits::NumCast::from`. Its source
/// (`ToPrimitive` from an unsigned source) gives `Some` of the same number
/// exactly when it fits in a `u16`, and `None` otherwise.
#[verifier::external_body]
fn u16_from_usize(value: usize) -> (r: Option<u16>)
    ensures
        r == (if value <= u16::MAX {
            Some(value as u16)
        } else {
            None::<u16>
        }),
{
    <u16 as num_traits::NumCast>::from(value)
}

impl DivisibleBy for u16 {
    /// The step must be a nonzero number that fits in a `u16`.
    open spec fn floor_defined(self, value: usize) -> bool {
        0 < value <= u16::MAX
    }

    /// The step must be a nonzero number that fits in a `u16`, and the rounded value too.
    open spec fn ceil_defined(self, value: usize) -> bool {
        &&& 0 < value <= u16::MAX
        &&& ceil_multiple(self as int, value as int) <= u16::MAX
    }

    open spec fn floored(self, value: usize) -> u16 {
        floor_multiple(self as int, value as int) as u16
    }

    open spec fn ceiled(self, value: usize) -> u16 {
        ceil_multiple(self as int, value as int) as u16
    }

    fn floor_to_nearest(self, value: usize) -> (r: u16) {
        let step = u16_from_usize(value).unwrap();
        floor_u128(self as u128, step as u128) as u16
    }

    fn ceil_to_nearest(self, value: usize) -> (r: u16) {
        let step = u16_from_usize(value).unwrap();
        ceil_u128(self as u128, step as u128) as u16
    }
}

/// Converts a step into a `u32` with `num_traits::NumCast::from`. Its source
/// (`ToPrimitive` from an unsigned source) gives `Some` of the same number
/// exactly when it fits in a `u32`, and `None` otherwise.
#[verifier::external_body]
fn u32_from_usize(value: usize) -> (r: Option<u32>)
    ensures
        r == (if value <= u32::MAX {
            Some(value as u32)
        } else {
            None::<u32>
        }),
{
    <u32 as num_traits::NumCast>::from(value)
}

impl DivisibleBy for u32 {
    /// The step must be a nonzero number that fits in a `u32`.
    open spec fn floor_defined(self, value: usize) -> bool {
        0 < value <= u32::MAX
    }

    /// The step must be a nonzero number that fits in a `u32`, and the rounded value too.
    open spec fn ceil_defined(self, value: usize) -> bool {
        &&& 0 < value <= u32::MAX
        &&& ceil_multiple(self as int, value as int) <= u32::MAX
    }

    open spec fn floored(self, value: usize) -> u32 {
        floor_multiple(self as int, value as int) as u32
    }

    open spec fn ceiled(self, value: usize) -> u32 {
        ceil_multiple(self as int, value as int) as u32
    }

    fn floor_to_nearest(self, value: usize) -> (r: u32) {
        let step = u32_from_usize(value).unwrap();
        floor_u128(self as u128, step as u128) as u32
    }

    fn ceil_to_nearest(self, value: usize) -> (r: u32) {
        let step = u32_from_usize(value).unwrap();
        ceil_u128(self as u128, step as u128) as u32
    }
}

/// Converts a step into a `u64` with `num_traits::NumCast::from`. Its source
/// (`ToPrimitive` from an unsigned source) gives `Some` of the same number
/// exactly when it fits in a `u64`, and `None` otherwise.
#[verifier::external_body]
fn u64_from_usize(value: usize) -> (r: Option<u64>)
    ensures
        r == (if value <= u64::MAX {
            Some(value as u64)
        } else {
            None::<u64>
        }),
{
    <u64 as num_traits::NumCast>::from(value)
}

impl DivisibleBy for u64 {
    /// The step must be a nonzero number that fits in a `u64`.
    open spec fn floor_defined(self, value: usize) -> bool {
        0 < value <= u64::MAX
    }

    /// The step must be a nonzero number that fits in a `u64`, and the rounded value too.
    open spec fn ceil_defined(self, value: usize) -> bool {
        &&& 0 < value <= u64::MAX
        &&& ceil_multiple(self as int, value as int) <= u64::MAX
    }

    open spec fn floored(self, value: usize) -> u64 {
        floor_multiple(self as int, value as int) as u64
    }

    open spec fn ceiled(self, value: usize) -> u64 {
        ceil_multiple(self as int, value as int) as u64
    }

    fn floor_to_nearest(self, value: usize) -> (r: u64) {
        let step = u64_from_usize(value).unwrap();
        floor_u128(self as u128, step as u128) as u64
    }

    fn ceil_to_nearest(self, value: usize) -> (r: u64) {
        let step = u64_from_usize(value).unwrap();
        ceil_u128(self as u128, step as u128) as u64
    }
}

/// Converts a step into a `u128` with `num_traits::NumCast::from`. Its source
/// (`ToPrimitive` from an unsigned source) gives `Some` of the same number
/// exactly when it fits in a `u128`, and `None` otherwise.
#[verifier::external_body]
fn u128_from_usize(value: usize) -> (r: Option<u128>)
    ensures
        r == (if value <= u128::MAX {
            Some(value as u128)
        } else {
            None::<u128>
        }),
{
    <u128 as num_traits::NumCast>::from(value)
}

impl DivisibleBy for u128 {
    /// The step must be a nonzero number that fits in a `u128`.
    open spec fn floor_defined(self, value: usize) -> bool {
        0 < value <= u128::MAX
    }

    /// The step must be a nonzero number that fits in a `u128`, and the rounded value too.
    open spec fn ceil_defined(self, value: usize) -> bool {
        &&& 0 < value <= u128::MAX
        &&& ceil_multiple(self as int, value as int) <= u128::MAX
    }

    open spec fn floored(self, value: usize) -> u128 {
        floor_multiple(self as int, value as int) as u128
    }

    open spec fn ceiled(self, value: usize) -> u128 {
        ceil_multiple(self as int, value as int) as u128
    }

    fn floor_to_nearest(self, value: usize) -> (r: u128) {
        let step = u128_from_usize(value).unwrap();
        floor_u128(self as u128, step as u128) as u128
    }

    fn ceil_to_nearest(self, value: usize) -> (r: u128) {
        let step = u128_from_usize(value).unwrap();
        ceil_u128(self as u128, step as u128) as u128
    }
}

/// Converts a step into a `usize` with `num_traits::NumCast::from`. Its source
/// (`ToPrimitive` from an unsigned source) gives `Some` of the same number
/// exactly when it fits in a `usize`, and `None` otherwise.
#[verifier::external_body]
fn usize_from_usize(value: usize) -> (r: Option<usize>)
    ensures
        r == (if value <= usize::MAX {
            Some(value as usize)
        } else {
            None::<usize>
        }),
{
    <usize as num_traits::NumCast>::from(value)
}

impl DivisibleBy for usize {
    /// The step must be a nonzero number that fits in a `usize`.
    open spec fn floor_defined(self, value: usize) -> bool {
        0 < value <= usize::MAX
    }

    /// The step must be a nonzero number that fits in a `usize`, and the rounded value too.
    open spec fn ceil_defined(self, value: usize) -> bool {
        &&& 0 < value <= usize::MAX
        &&& ceil_multiple(self as int, value as int) <= usize::MAX
    }

    open spec fn floored(self, value: usize) -> usize {
        floor_multiple(self as int, value as int) as usize
    }

    open spec fn ceiled(self, value: usize) -> usize {
        ceil_multiple(self as int, value as int) as usize
    }

    fn floor_to_nearest(self, value: usize) -> (r: usize) {
        let step = usize_from_usize(value).unwrap();
        floor_u128(self as u128, step as u128) as usize
    }

    fn ceil_to_nearest(self, value: usize) -> (r: usize) {
        let step = usize_from_usize(value).unwrap();
        ceil_u128(self as u128, step as u128) as usize
    }
}

/// Converts a step into an `i8` with `num_traits::NumCast::from`. Its source
/// (`ToPrimitive` from an unsigned source into a signed type) gives `Some` of
/// the same number exactly when it is at most `i8::MAX`, and `None`
/// otherwise.
#[verifier::external_body]
fn i8_from_usize(value: usize) -> (r: Option<i8>)
    ensures
        r == (if value <= i8::MAX {
            Some(value as i8)
        } else {
            None::<i8>
        }),
{
    <i8 as num_traits::NumCast>::from(value)
}

impl DivisibleBy for i8 {
    /// The step must be a positive number that fits in an `i8`.
    open spec fn floor_defined(self, value: usize) -> bool {
        0 < value <= i8::MAX
    }

    /// The step must be a positive number that fits in an `i8`, and so must
    /// the step minus the remainder and the rounded value.
    open spec fn ceil_defined(self, value: usize) -> bool {
        &&& 0 < value <= i8::MAX
        &&& value - trunc_rem(self as int, value as int) <= i8::MAX
        &&& trunc_ceil(self as int, value as int) <= i8::MAX
    }

    open spec fn floored(self, value: usize) -> i8 {
        trunc_floor(self as int, value as int) as i8
    }

    open spec fn ceiled(self, value: usize) -> i8 {
        trunc_ceil(self as int, value as int) as i8
    }

    fn floor_to_nearest(self, value: usize) -> (r: i8) {
        let step = i8_from_usize(value).unwrap();
        let rem = trunc_rem_i128(self as i128, step as i128) as i8;
        self - rem
    }

    fn ceil_to_nearest(self, value: usize) -> (r: i8) {
        let step = i8_from_usize(value).unwrap();
        let rem = trunc_rem_i128(self as i128, step as i128) as i8;
        if rem == 0 {
            self
        } else {
            self + (step - rem)
        }
    }
}

/// Converts a step into an `i16` with `num_traits::NumCast::from`. Its source
/// (`ToPrimitive` from an unsigned source into a signed type) gives `Some` of
/// the same number exactly when it is at most `i16::MAX`, and `None`
/// otherwise.
#[verifier::external_body]
fn i16_from_usize(value: usize) -> (r: Option<i16>)
    ensures
        r == (if value <= i16::MAX {
            Some(value as i16)
        } else {
            None::<i16>
        }),
{
    <i16 as num_traits::NumCast>::from(value)
}

impl DivisibleBy for i16 {
    /// The step must be a positive number that fits in an `i16`.
    open spec fn floor_defined(self, value: usize) -> bool {
        0 < value <= i16::MAX
    }

    /// The step must be a positive number that fits in an `i16`, and so must
    /// the step minus the remainder and the rounded value.
    open spec fn ceil_defined(self, value: usize) -> bool {
        &&& 0 < value <= i16::MAX
        &&& value - trunc_rem(self as int, value as int) <= i16::MAX
        &&& trunc_ceil(self as int, value as int) <= i16::MAX
    }

    open spec fn floored(self, value: usize) -> i16 {
        trunc_floor(self as int, value as int) as i16
    }

    open spec fn ceiled(self, value: usize) -> i16 {
        trunc_ceil(self as int, value as int) as i16
    }

    fn floor_to_nearest(self, value: usize) -> (r: i16) {
        let step = i16_from_usize(value).unwrap();
        let rem = trunc_rem_i128(self as i128, step as i128) as i16;
        self - rem
    }

    fn ceil_to_nearest(self, value: usize) -> (r: i16) {
        let step = i16_from_usize(value).unwrap();
        let rem = trunc_rem_i128(self as i128, step as i128) as i16;
        if rem == 0 {
            self
        } else {
            self + (step - rem)
        }
    }
}

/// Converts a step into an `i32` with `num_traits::NumCast::from`. Its source
/// (`ToPrimitive` from an unsigned source into a signed type) gives `Some` of
/// the same number exactly when it is at most `i32::MAX`, and `None`
/// otherwise.
#[verifier::external_body]
fn i32_from_usize(value: usize) -> (r: Option<i32>)
    ensures
        r == (if value <= i32::MAX {
            Some(value as i32)
        } else {
            None::<i32>
        }),
{
    <i32 as num_traits::NumCast>::from(value)
}

impl DivisibleBy for i32 {
    /// The step must be a positive number that fits in an `i32`.
    open spec fn floor_defined(self, value: usize) -> bool {
        0 < value <= i32::MAX
    }

    /// The step must be a positive number that fits in an `i32`, and so must
    /// the step minus the remainder and the rounded value.
    open spec fn ceil_defined(self, value: usize) -> bool {
        &&& 0 < value <= i32::MAX
        &&& value - trunc_rem(self as int, value as int) <= i32::MAX
        &&& trunc_ceil(self as int, value as int) <= i32::MAX
    }

    open spec fn floored(self, value: usize) -> i32 {
        trunc_floor(self as int, value as int) as i32
    }

    open spec fn ceiled(self, value: usize) -> i32 {
        trunc_ceil(self as int, value as int) as i32
    }

    fn floor_to_nearest(self, value: usize) -> (r: i32) {
        let step = i32_from_usize(value).unwrap();
        let rem = trunc_rem_i128(self as i128, step as i128) as i32;
        self - rem
    }

    fn ceil_to_nearest(self, value: usize) -> (r: i32) {
        let step = i32_from_usize(value).unwrap();
        let rem = trunc_rem_i128(self as i128, step as i128) as i32;
        if rem == 0 {
            self
        } else {
            self + (step - rem)
        }
    }
}

/// Converts a step into an `i64` with `num_traits::NumCast::from`. Its source
/// (`ToPrimitive` from an unsigned source into a signed type) gives `Some` of
/// the same number exactly when it is at most `i64::MAX`, and `None`
/// otherwise.
#[verifier::external_body]
fn i64_from_usize(value: usize) -> (r: Option<i64>)
    ensures
        r == (if value <= i64::MAX {
            Some(value as i64)
        } else {
            None::<i64>
        }),
{
    <i64 as num_traits::NumCast>::from(value)
}

impl DivisibleBy for i64 {
    /// The step must be a positive number that fits in an `i64`.
    open spec fn floor_defined(self, value: usize) -> bool {
        0 < value <= i64::MAX
    }

    /// The step must be a positive number that fits in an `i64`, and so must
    /// the step minus the remainder and the rounded value.
    open spec fn ceil_defined(self, value: usize) -> bool {
        &&& 0 < value <= i64::MAX
        &&& value - trunc_rem(self as int, value as int) <= i64::MAX
        &&& trunc_ceil(self as int, value as int) <= i64::MAX
    }

    open spec fn floored(self, value: usize) -> i64 {
        trunc_floor(self as int, value as int) as i64
    }

    open spec fn ceiled(self, value: usize) -> i64 {
        trunc_ceil(self as int, value as int) as i64
    }

    fn floor_to_nearest(self, value: usize) -> (r: i64) {
        let step = i64_from_usize(value).unwrap();
        let rem = trunc_rem_i128(self as i128, step as i128) as i64;
        self - rem
    }

    fn ceil_to_nearest(self, value: usize) -> (r: i64) {
        let step = i64_from_usize(value).unwrap();
        let rem = trunc_rem_i128(self as i128, step as i128) as i64;
        if rem == 0 {
            self
        } else {
            self + (step - rem)
        }
    }
}

/// Converts a step into an `i128` with `num_traits::NumCast::from`. Its source
/// (`ToPrimitive` from an unsigned source into a signed type) gives `Some` of
/// the same number exactly when it is at most `i128::MAX`, and `None`
/// otherwise.
#[verifier::external_body]
fn i128_from_usize(value: usize) -> (r: Option<i128>)
    ensures
        r == (if value <= i128::MAX {
            Some(value as i128)
        } else {
            None::<i128>
        }),
{
    <i128 as num_traits::NumCast>::from(value)
}

impl DivisibleBy for i128 {
    /// The step must be a positive number that fits in an `i128`.
    open spec fn floor_defined(self, value: usize) -> bool {
        0 < value <= i128::MAX
    }

    /// The step must be a positive number that fits in an `i128`, and so must
    /// the step minus the remainder and the rounded value.
    open spec fn ceil_defined(self, value: usize) -> bool {
        &&& 0 < value <= i128::MAX
        &&& value - trunc_rem(self as int, value as int) <= i128::MAX
        &&& trunc_ceil(self as int, value as int) <= i128::MAX
    }

    open spec fn floored(self, value: usize) -> i128 {
        trunc_floor(self as int, value as int) as i128
    }

    open spec fn ceiled(self, value: usize) -> i128 {
        trunc_ceil(self as int, value as int) as i128
    }

    fn floor_to_nearest(self, value: usize) -> (r: i128) {
        let step = i128_from_usize(value).unwrap();
        let rem = trunc_rem_i128(self as i128, step as i128) as i128;
        self - rem
    }

    fn ceil_to_nearest(self, value: usize) -> (r: i128) {
        let step = i128_from_usize(value).unwrap();
        let rem = trunc_rem_i128(self as i128, step as i128) as i128;
        if rem == 0 {
            self
        } else {
            self + (step - rem)
        }
    }
}

/// Converts a step into an `isize` with `num_traits::NumCast::from`. Its source
/// (`ToPrimitive` from an unsigned source into a signed type) gives `Some` of
/// the same number exactly when it is at most `isize::MAX`, and `None`
/// otherwise.
#[verifier::external_body]
fn isize_from_usize(value: usize) -> (r: Option<isize>)
    ensures
        r == (if value <= isize::MAX {
            Some(value as isize)
        } else {
            None::<isize>
        }),
{
    <isize as num_traits::NumCast>::from(value)
}

impl DivisibleBy for isize {
    /// The step must be a positive number that fits in an `isize`.
    open spec fn floor_defined(self, value: usize) -> bool {
        0 < value <= isize::MAX
    }

    /// The step must be a positive number that fits in an `isize`, and so must
    /// the step minus the remainder and the rounded value.
    open spec fn ceil_defined(self, value: usize) -> bool {
        &&& 0 < value <= isize::MAX
        &&& value - trunc_rem(self as int, value as int) <= isize::MAX
        &&& trunc_ceil(self as int, value as int) <= isize::MAX
    }

    open spec fn floored(self, value: usize) -> isize {
        trunc_floor(self as int, value as int) as isize
    }

    open spec fn ceiled(self, value: usize) -> isize {
        trunc_ceil(self as int, value as int) as isize
    }

    fn floor_to_nearest(self, value: usize) -> (r: isize) {
        let step = isize_from_usize(value).unwrap();
        let rem = trunc_rem_i128(self as i128, step as i128) as isize;
        self - rem
    }

    fn ceil_to_nearest(self, value: usize) -> (r: isize) {
        let step = isize_from_usize(value).unwrap();
        let rem = trunc_rem_i128(self as i128, step as i128) as isize;
        if rem == 0 {
            self
        } else {
            self + (step - rem)
        }
    }
}

/// Rounding down gives a multiple of the step that is at most the number and
/// less than one step below it; rounding up gives a multiple of the step that
/// is at least the number and less than one step above it.
pub proof fn lemma_rounding_bounds(x: int, step: int)
    requires
        x >= 0,
        step > 0,
    ensures
        floor_multiple(x, step) % step == 0,
        0 <= floor_multiple(x, step) <= x < floor_multiple(x, step) + step,
        ceil_multiple(x, step) % step == 0,
        x <= ceil_multiple(x, step) < x + step,
        x % step == 0 <==> floor_multiple(x, step) == x,
        x % step == 0 <==> ceil_multiple(x, step) == x,
{
    vstd::arithmetic::div_mod::lemma_mod_pos_bound(x, step);
    if x < step {
        vstd::arithmetic::div_mod::lemma_small_mod(x as nat, step as nat);
    }
    assert(floor_multiple(x, step) % step == 0) by {
        vstd::arithmetic::div_mod::lemma_fundamental_div_mod(x, step);
        vstd::arithmetic::div_mod::lemma_mod_multiples_basic(x / step, step);
        assert(floor_multiple(x, step) == (x / step) * step) by (nonlinear_arith)
            requires x == step * (x / step) + x % step;
    }
    if x % step != 0 {
        assert(ceil_multiple(x, step) % step == 0) by {
            vstd::arithmetic::div_mod::lemma_fundamental_div_mod(x, step);
            vstd::arithmetic::div_mod::lemma_mod_multiples_basic(x / step + 1, step);
            assert(ceil_multiple(x, step) == (x / step + 1) * step) by (nonlinear_arith)
                requires
                    x == step * (x / step) + x % step,
                    ceil_multiple(x, step) == x + (step - x % step),
            ;
        }
    }
}

} // verus!
