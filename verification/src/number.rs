//! Integers of arbitrary size, held by `num_bigint`, and what is assumed of them.

use num_bigint::{BigInt, BigUint};
use num_traits::ToPrimitive;
use vstd::arithmetic::power::pow;
use vstd::prelude::*;

verus! {

/// `num_bigint::BigUint`, an unsigned integer of arbitrary size.
/// Nothing inside it is visible to the verifier; see [`biguint_value`].
#[verifier::external_type_specification]
#[verifier::external_body]
pub struct ExBigUint(BigUint);

/// `num_bigint::BigInt`, a signed integer of arbitrary size.
/// Nothing inside it is visible to the verifier; see [`bigint_value`].
#[verifier::external_type_specification]
#[verifier::external_body]
pub struct ExBigInt(BigInt);

/// The natural number that a `BigUint` holds.
pub uninterp spec fn biguint_value(n: BigUint) -> nat;

/// The integer that a `BigInt` holds.
pub uninterp spec fn bigint_value(n: BigInt) -> int;

/// The base-256 digits of `n`, most significant first, none for zero.
pub open spec fn be_digits(n: nat) -> Seq<u8>
    decreases n,
{
    if n == 0 {
        Seq::empty()
    } else {
        be_digits(n / 256).push((n % 256) as u8)
    }
}

/// The shortest big-endian byte string that denotes `n`; zero is one zero byte.
pub open spec fn be_bytes(n: nat) -> Seq<u8> {
    if n == 0 {
        seq![0u8]
    } else {
        be_digits(n)
    }
}

/// The number that a big-endian byte string denotes.
pub open spec fn be_value(bytes: Seq<u8>) -> nat
    decreases bytes.len(),
{
    if bytes.len() == 0 {
        0
    } else {
        be_value(bytes.drop_last()) * 256 + bytes.last() as nat
    }
}

/// A byte string of `count` zero bytes.
pub open spec fn zero_bytes(count: nat) -> Seq<u8> {
    Seq::new(count, |i: int| 0u8)
}

proof fn lemma_be_value_push(bytes: Seq<u8>, last: u8)
    ensures
        be_value(bytes.push(last)) == be_value(bytes) * 256 + last as nat,
{
    assert(bytes.push(last).drop_last() =~= bytes);
}

proof fn lemma_be_digits_value(n: nat)
    ensures
        be_value(be_digits(n)) == n,
    decreases n,
{
    if n > 0 {
        lemma_be_digits_value(n / 256);
        lemma_be_value_push(be_digits(n / 256), (n % 256) as u8);
    }
}

/// The bytes of a number denote that number.
pub proof fn lemma_be_bytes_value(n: nat)
    ensures
        be_value(be_bytes(n)) == n,
{
    if n == 0 {
        lemma_be_value_push(Seq::empty(), 0u8);
        assert(Seq::<u8>::empty().push(0u8) =~= seq![0u8]);
    } else {
        lemma_be_digits_value(n);
    }
}

/// The bytes of a number are at least one, and as few as the number allows:
/// a number below `256^width` takes no more than `width` bytes, for every
/// `width` above zero.
pub proof fn lemma_be_bytes_len(n: nat, width: nat)
    requires
        0 < width,
        n < pow(256, width),
    ensures
        1 <= be_bytes(n).len() <= width,
{
    lemma_be_digits_len(n, width);
    if n > 0 {
        assert(be_digits(n).len() == be_digits(n / 256).len() + 1);
    }
}

proof fn lemma_be_digits_len(n: nat, width: nat)
    requires
        n < pow(256, width),
    ensures
        be_digits(n).len() <= width,
    decreases n,
{
    reveal(pow);
    if n > 0 {
        assert(width > 0);
        assert(pow(256, width) == 256 * pow(256, (width - 1) as nat));
        assert(n / 256 < pow(256, (width - 1) as nat));
        lemma_be_digits_len(n / 256, (width - 1) as nat);
    }
}

/// Zero bytes in front of a byte string do not change the number it denotes.
pub proof fn lemma_be_value_leading_zeros(count: nat, bytes: Seq<u8>)
    ensures
        be_value(zero_bytes(count) + bytes) == be_value(bytes),
    decreases bytes.len(), count,
{
    let padded = zero_bytes(count) + bytes;
    if bytes.len() > 0 {
        assert(padded.drop_last() =~= zero_bytes(count) + bytes.drop_last());
        lemma_be_value_leading_zeros(count, bytes.drop_last());
    } else if count > 0 {
        assert(padded.drop_last() =~= zero_bytes((count - 1) as nat) + bytes);
        lemma_be_value_leading_zeros((count - 1) as nat, bytes);
    } else {
        assert(padded =~= bytes);
    }
}

/// `BigUint::to_bytes_be`. Assumed: the bytes are the number's base-256 digits,
/// most significant first and without leading zeros, and zero gives one zero byte.
#[verifier::external_body]
pub(crate) fn biguint_to_bytes_be(n: &BigUint) -> (bytes: Vec<u8>)
    ensures
        bytes@ == be_bytes(biguint_value(*n)),
{
    n.to_bytes_be()
}

/// `ToPrimitive::to_u8` of `BigUint`. Assumed: the number itself where a `u8`
/// can hold it, and `None` where not.
#[verifier::external_body]
pub(crate) fn biguint_to_u8(n: &BigUint) -> (res: Option<u8>)
    ensures
        res == (if biguint_value(*n) <= u8::MAX {
            Some(biguint_value(*n) as u8)
        } else {
            None
        }),
{
    n.to_u8()
}

/// `ToPrimitive::to_u16` of `BigUint`. Assumed: the number itself where a `u16`
/// can hold it, and `None` where not.
#[verifier::external_body]
pub(crate) fn biguint_to_u16(n: &BigUint) -> (res: Option<u16>)
    ensures
        res == (if biguint_value(*n) <= u16::MAX {
            Some(biguint_value(*n) as u16)
        } else {
            None
        }),
{
    n.to_u16()
}

/// `ToPrimitive::to_u32` of `BigUint`. Assumed: the number itself where a `u32`
/// can hold it, and `None` where not.
#[verifier::external_body]
pub(crate) fn biguint_to_u32(n: &BigUint) -> (res: Option<u32>)
    ensures
        res == (if biguint_value(*n) <= u32::MAX {
            Some(biguint_value(*n) as u32)
        } else {
            None
        }),
{
    n.to_u32()
}

/// `ToPrimitive::to_u64` of `BigUint`. Assumed: the number itself where a `u64`
/// can hold it, and `None` where not.
#[verifier::external_body]
pub(crate) fn biguint_to_u64(n: &BigUint) -> (res: Option<u64>)
    ensures
        res == (if biguint_value(*n) <= u64::MAX {
            Some(biguint_value(*n) as u64)
        } else {
            None
        }),
{
    n.to_u64()
}

/// `ToPrimitive::to_u128` of `BigUint`. Assumed: the number itself where a `u128`
/// can hold it, and `None` where not.
#[verifier::external_body]
pub(crate) fn biguint_to_u128(n: &BigUint) -> (res: Option<u128>)
    ensures
        res == (if biguint_value(*n) <= u128::MAX {
            Some(biguint_value(*n) as u128)
        } else {
            None
        }),
{
    n.to_u128()
}

/// `ToPrimitive::to_i8` of `BigInt`. Assumed: the number itself where an `i8`
/// can hold it, and `None` where not.
#[verifier::external_body]
pub(crate) fn bigint_to_i8(n: &BigInt) -> (res: Option<i8>)
    ensures
        res == (if i8::MIN <= bigint_value(*n) <= i8::MAX {
            Some(bigint_value(*n) as i8)
        } else {
            None
        }),
{
    n.to_i8()
}

/// `ToPrimitive::to_i16` of `BigInt`. Assumed: the number itself where an `i16`
/// can hold it, and `None` where not.
#[verifier::external_body]
pub(crate) fn bigint_to_i16(n: &BigInt) -> (res: Option<i16>)
    ensures
        res == (if i16::MIN <= bigint_value(*n) <= i16::MAX {
            Some(bigint_value(*n) as i16)
        } else {
            None
        }),
{
    n.to_i16()
}

/// `ToPrimitive::to_i32` of `BigInt`. Assumed: the number itself where an `i32`
/// can hold it, and `None` where not.
#[verifier::external_body]
pub(crate) fn bigint_to_i32(n: &BigInt) -> (res: Option<i32>)
    ensures
        res == (if i32::MIN <= bigint_value(*n) <= i32::MAX {
            Some(bigint_value(*n) as i32)
        } else {
            None
        }),
{
    n.to_i32()
}

/// `ToPrimitive::to_i64` of `BigInt`. Assumed: the number itself where an `i64`
/// can hold it, and `None` where not.
#[verifier::external_body]
pub(crate) fn bigint_to_i64(n: &BigInt) -> (res: Option<i64>)
    ensures
        res == (if i64::MIN <= bigint_value(*n) <= i64::MAX {
            Some(bigint_value(*n) as i64)
        } else {
            None
        }),
{
    n.to_i64()
}

/// `ToPrimitive::to_i128` of `BigInt`. Assumed: the number itself where an `i128`
/// can hold it, and `None` where not.
#[verifier::external_body]
pub(crate) fn bigint_to_i128(n: &BigInt) -> (res: Option<i128>)
    ensures
        res == (if i128::MIN <= bigint_value(*n) <= i128::MAX {
            Some(bigint_value(*n) as i128)
        } else {
            None
        }),
{
    n.to_i128()
}

} // verus!
