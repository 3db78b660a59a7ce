//! The stored value: an arbitrary-precision signed integer.

use num_bigint::BigInt;
use num_bigint::ParseBigIntError;
use num_traits::Num;
use vstd::prelude::*;

use crate::radix::is_literal;
use crate::radix::literal_value;
use crate::radix::render;
use crate::radix::valid_radix;

verus! {

#[verifier::external_type_specification]
#[verifier::external_body]
pub struct ExBigInt(num_bigint::BigInt);

#[verifier::external_type_specification]
#[verifier::external_body]
pub struct ExParseBigIntError(num_bigint::ParseBigIntError);

/// The mathematical integer that a `BigInt` holds.
pub uninterp spec fn bigint_value(b: BigInt) -> int;

/// `BigInt::from_str_radix` of `num_traits::Num`. It succeeds exactly on the
/// literals of the radix, and the integer it returns is the literal's value.
/// It panics on a radix outside `2..=36`.
#[verifier::external_body]
pub(crate) fn bigint_from_str_radix(text: &str, radix: u32) -> (res: Result<
    BigInt,
    ParseBigIntError,
>)
    requires
        valid_radix(radix as int),
    ensures
        res is Ok <==> is_literal(text@, radix as int),
        res matches Ok(b) ==> bigint_value(b) == literal_value(text@, radix as int),
{
    BigInt::from_str_radix(text, radix)
}

/// `BigInt::to_str_radix`. The string is the value written in the radix, with
/// lower-case letters, a leading minus sign when negative, and no padding.
/// It panics on a radix outside `2..=36`.
#[verifier::external_body]
pub(crate) fn bigint_to_str_radix(value: &BigInt, radix: u32) -> (text: String)
    requires
        valid_radix(radix as int),
    ensures
        text@ == render(bigint_value(*value), radix as int),
{
    value.to_str_radix(radix)
}

/// `AddAssign<&BigInt>` of `BigInt`: the target becomes the sum.
#[verifier::external_body]
pub(crate) fn bigint_add_assign(target: &mut BigInt, other: &BigInt)
    ensures
        bigint_value(*final(target)) == bigint_value(*old(target)) + bigint_value(*other),
{
    *target += other;
}

/// `AddAssign<i64>` of `BigInt`: the target grows by the machine integer.
#[verifier::external_body]
pub(crate) fn bigint_add_assign_i64(target: &mut BigInt, other: i64)
    ensures
        bigint_value(*final(target)) == bigint_value(*old(target)) + other,
{
    *target += other;
}

/// `AddAssign<i32>` of `BigInt`: the target grows by the machine integer.
#[verifier::external_body]
pub(crate) fn bigint_add_assign_i32(target: &mut BigInt, other: i32)
    ensures
        bigint_value(*final(target)) == bigint_value(*old(target)) + other,
{
    *target += other;
}

/// `SubAssign<i32>` of `BigInt`: the target shrinks by the machine integer.
#[verifier::external_body]
pub(crate) fn bigint_sub_assign_i32(target: &mut BigInt, other: i32)
    ensures
        bigint_value(*final(target)) == bigint_value(*old(target)) - other,
{
    *target -= other;
}

/// `Clone::clone` of `BigInt`: the copy holds the same integer.
#[verifier::external_body]
pub(crate) fn bigint_clone(value: &BigInt) -> (copy: BigInt)
    ensures
        bigint_value(copy) == bigint_value(*value),
{
    value.clone()
}

/// `Display` of `ParseBigIntError`: the library's own words for why a text
/// was refused. Nothing is claimed of them.
#[verifier::external_body]
pub(crate) fn parse_error_text(error: &ParseBigIntError) -> String {
    error.to_string()
}

/// An arbitrary-precision signed integer. Its view is the integer itself.
pub struct BigInteger {
    inner: BigInt,
}

impl View for BigInteger {
    type V = int;

    closed spec fn view(&self) -> int {
        bigint_value(self.inner)
    }
}

impl Clone for BigInteger {
    fn clone(&self) -> (copy: BigInteger)
        ensures
            copy@ == self@,
    {
        BigInteger { inner: bigint_clone(&self.inner) }
    }
}

impl BigInteger {
    /// Takes over an integer of the arithmetic library.
    pub fn from_bigint(inner: BigInt) -> (value: BigInteger)
        ensures
            value@ == bigint_value(inner),
    {
        BigInteger { inner }
    }

    /// Hands the integer back to the arithmetic library.
    pub fn into_bigint(self) -> (inner: BigInt)
        ensures
            bigint_value(inner) == self@,
    {
        self.inner
    }

    /// The integer as the arithmetic library holds it.
    pub fn as_bigint(&self) -> (inner: &BigInt)
        ensures
            bigint_value(*inner) == self@,
    {
        &self.inner
    }

    /// Adds `other` to this integer, in place.
    pub fn add_assign(&mut self, other: &BigInteger)
        ensures
            final(self)@ == old(self)@ + other@,
    {
        bigint_add_assign(&mut self.inner, &other.inner);
    }

    /// Adds a signed 64-bit integer to this integer, in place.
    pub fn add_int(&mut self, other: i64)
        ensures
            final(self)@ == old(self)@ + other,
    {
        bigint_add_assign_i64(&mut self.inner, other);
    }

    /// Adds one to this integer, in place.
    pub fn increment(&mut self)
        ensures
            final(self)@ == old(self)@ + 1,
    {
        bigint_add_assign_i32(&mut self.inner, 1);
    }

    /// Subtracts one from this integer, in place.
    pub fn decrement(&mut self)
        ensures
            final(self)@ == old(self)@ - 1,
    {
        bigint_sub_assign_i32(&mut self.inner, 1);
    }
}

} // verus!
