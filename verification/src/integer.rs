//! Integers: the two arbitrary-size payloads, their narrowing to the fixed
//! widths, and the 256-bit number as thirty-two bytes.

use crate::error::{UnpackerError, UnpackerResult};
use crate::number::{
    be_bytes, be_value, lemma_be_bytes_len, lemma_be_bytes_value, lemma_be_value_leading_zeros,
    zero_bytes, bigint_to_i128, bigint_to_i16, bigint_to_i32, bigint_to_i64, bigint_to_i8,
    bigint_value, biguint_to_bytes_be, biguint_to_u128, biguint_to_u16, biguint_to_u32,
    biguint_to_u64, biguint_to_u8, biguint_value,
};
use crate::token::{TokenValue, UInt256, Uint};
use crate::unpack::{single_valued, UnpackAbi};
use num_bigint::{BigInt, BigUint};
use vstd::arithmetic::power::pow;
use vstd::prelude::*;

verus! {

/// `data` set against the right edge of a field of `width` bytes. A shorter
/// `data` has zero bytes before it; of a longer one the first `width` bytes
/// fill the field.
pub open spec fn right_aligned(data: Seq<u8>, width: nat) -> Seq<u8> {
    let len = if data.len() <= width { data.len() } else { width };
    Seq::new(
        width,
        |i: int| if i < width - len { 0u8 } else { data[i - (width - len)] },
    )
}

/// A field of `width` bytes holds every number below `256^width`: the bytes
/// of such a number, right-aligned in the field, denote the number.
pub proof fn lemma_right_aligned_value(n: nat, width: nat)
    requires
        0 < width,
        n < pow(256, width),
    ensures
        be_value(right_aligned(be_bytes(n), width)) == n,
{
    let data = be_bytes(n);
    lemma_be_bytes_len(n, width);
    lemma_be_bytes_value(n);
    lemma_be_value_leading_zeros((width - data.len()) as nat, data);
    assert(right_aligned(data, width) =~= zero_bytes((width - data.len()) as nat) + data);
}

/// Of a number that takes more than `width` bytes the field holds the first
/// `width` of them, the most significant ones.
pub proof fn lemma_right_aligned_long(data: Seq<u8>, width: nat)
    requires
        data.len() >= width,
    ensures
        right_aligned(data, width) == data.take(width as int),
{
    assert(right_aligned(data, width) =~= data.take(width as int));
}

/// The bytes of an unsigned integer that is tagged with 256 bits, big-endian
/// and right-aligned in thirty-two bytes. Any other width is refused.
impl UnpackAbi<UInt256> for TokenValue {
    open spec fn variant_matches(self) -> bool {
        self is Uint
    }

    open spec fn well_shaped(self) -> bool {
        self matches TokenValue::Uint(u) && u.size == 256
    }

    open spec fn represents(self, out: UInt256) -> bool {
        self matches TokenValue::Uint(u) && out.0@ == right_aligned(
            be_bytes(biguint_value(u.number)),
            32,
        )
    }

    fn unpack(self) -> (res: UnpackerResult<UInt256>) {
        match self {
            TokenValue::Uint(Uint { number, size: 256 }) => {
                let mut result = [0u8;32];
                let data = biguint_to_bytes_be(&number);

                let len: usize = if data.len() < 32 { data.len() } else { 32 };
                let offset: usize = 32 - len;
                let mut i: usize = 0;
                while i < len
                    invariant
                        len <= data.len(),
                        len + offset == 32,
                        i <= len,
                        forall|j: int| 0 <= j < offset ==> result@[j] == 0u8,
                        forall|j: int| offset <= j < offset + i ==> result@[j] == data@[j - offset],
                    decreases len - i,
                {
                    result[i + offset] = data[i];
                    i += 1;
                }
                assert(result@ =~= right_aligned(data@, 32));
                Ok(UInt256(result))
            },
            _ => Err(UnpackerError::InvalidAbi),
        }
    }
}

/// A signed integer of any width, as the number itself.
impl UnpackAbi<BigInt> for TokenValue {
    open spec fn variant_matches(self) -> bool {
        self is Int
    }

    open spec fn well_shaped(self) -> bool {
        self is Int
    }

    open spec fn represents(self, out: BigInt) -> bool {
        self matches TokenValue::Int(i) && out == i.number
    }

    fn unpack(self) -> (res: UnpackerResult<BigInt>) {
        match self {
            TokenValue::Int(data) => Ok(data.number),
            _ => Err(UnpackerError::InvalidAbi),
        }
    }
}

/// An unsigned integer of any width, as the number itself.
impl UnpackAbi<BigUint> for TokenValue {
    open spec fn variant_matches(self) -> bool {
        self is Uint
    }

    open spec fn well_shaped(self) -> bool {
        self is Uint
    }

    open spec fn represents(self, out: BigUint) -> bool {
        self matches TokenValue::Uint(u) && out == u.number
    }

    fn unpack(self) -> (res: UnpackerResult<BigUint>) {
        match self {
            TokenValue::Uint(data) => Ok(data.number),
            _ => Err(UnpackerError::InvalidAbi),
        }
    }
}

/// A signed integer that an `i8` can hold. The tagged width is not looked at.
impl UnpackAbi<i8> for TokenValue {
    open spec fn variant_matches(self) -> bool {
        self is Int
    }

    open spec fn well_shaped(self) -> bool {
        self matches TokenValue::Int(i) && i8::MIN <= bigint_value(i.number) <= i8::MAX
    }

    open spec fn represents(self, out: i8) -> bool {
        self matches TokenValue::Int(i) && bigint_value(i.number) == out
    }

    fn unpack(self) -> (res: UnpackerResult<i8>) {
        let number: BigInt = UnpackAbi::<BigInt>::unpack(self)?;
        bigint_to_i8(&number).ok_or(UnpackerError::InvalidAbi)
    }
}

/// An unsigned integer that a `u8` can hold. The tagged width is not looked at.
impl UnpackAbi<u8> for TokenValue {
    open spec fn variant_matches(self) -> bool {
        self is Uint
    }

    open spec fn well_shaped(self) -> bool {
        self matches TokenValue::Uint(u) && biguint_value(u.number) <= u8::MAX
    }

    open spec fn represents(self, out: u8) -> bool {
        self matches TokenValue::Uint(u) && biguint_value(u.number) == out
    }

    fn unpack(self) -> (res: UnpackerResult<u8>) {
        let number: BigUint = UnpackAbi::<BigUint>::unpack(self)?;
        biguint_to_u8(&number).ok_or(UnpackerError::InvalidAbi)
    }
}

/// A signed integer that an `i16` can hold. The tagged width is not looked at.
impl UnpackAbi<i16> for TokenValue {
    open spec fn variant_matches(self) -> bool {
        self is Int
    }

    open spec fn well_shaped(self) -> bool {
        self matches TokenValue::Int(i) && i16::MIN <= bigint_value(i.number) <= i16::MAX
    }

    open spec fn represents(self, out: i16) -> bool {
        self matches TokenValue::Int(i) && bigint_value(i.number) == out
    }

    fn unpack(self) -> (res: UnpackerResult<i16>) {
        let number: BigInt = UnpackAbi::<BigInt>::unpack(self)?;
        bigint_to_i16(&number).ok_or(UnpackerError::InvalidAbi)
    }
}

/// An unsigned integer that a `u16` can hold. The tagged width is not looked at.
impl UnpackAbi<u16> for TokenValue {
    open spec fn variant_matches(self) -> bool {
        self is Uint
    }

    open spec fn well_shaped(self) -> bool {
        self matches TokenValue::Uint(u) && biguint_value(u.number) <= u16::MAX
    }

    open spec fn represents(self, out: u16) -> bool {
        self matches TokenValue::Uint(u) && biguint_value(u.number) == out
    }

    fn unpack(self) -> (res: UnpackerResult<u16>) {
        let number: BigUint = UnpackAbi::<BigUint>::unpack(self)?;
        biguint_to_u16(&number).ok_or(UnpackerError::InvalidAbi)
    }
}

/// A signed integer that an `i32` can hold. The tagged width is not looked at.
impl UnpackAbi<i32> for TokenValue {
    open spec fn variant_matches(self) -> bool {
        self is Int
    }

    open spec fn well_shaped(self) -> bool {
        self matches TokenValue::Int(i) && i32::MIN <= bigint_value(i.number) <= i32::MAX
    }

    open spec fn represents(self, out: i32) -> bool {
        self matches TokenValue::Int(i) && bigint_value(i.number) == out
    }

    fn unpack(self) -> (res: UnpackerResult<i32>) {
        let number: BigInt = UnpackAbi::<BigInt>::unpack(self)?;
        bigint_to_i32(&number).ok_or(UnpackerError::InvalidAbi)
    }
}

/// An unsigned integer that a `u32` can hold. The tagged width is not looked at.
impl UnpackAbi<u32> for TokenValue {
    open spec fn variant_matches(self) -> bool {
        self is Uint
    }

    open spec fn well_shaped(self) -> bool {
        self matches TokenValue::Uint(u) && biguint_value(u.number) <= u32::MAX
    }

    open spec fn represents(self, out: u32) -> bool {
        self matches TokenValue::Uint(u) && biguint_value(u.number) == out
    }

    fn unpack(self) -> (res: UnpackerResult<u32>) {
        let number: BigUint = UnpackAbi::<BigUint>::unpack(self)?;
        biguint_to_u32(&number).ok_or(UnpackerError::InvalidAbi)
    }
}

/// A signed integer that an `i64` can hold. The tagged width is not looked at.
impl UnpackAbi<i64> for TokenValue {
    open spec fn variant_matches(self) -> bool {
        self is Int
    }

    open spec fn well_shaped(self) -> bool {
        self matches TokenValue::Int(i) && i64::MIN <= bigint_value(i.number) <= i64::MAX
    }

    open spec fn represents(self, out: i64) -> bool {
        self matches TokenValue::Int(i) && bigint_value(i.number) == out
    }

    fn unpack(self) -> (res: UnpackerResult<i64>) {
        let number: BigInt = UnpackAbi::<BigInt>::unpack(self)?;
        bigint_to_i64(&number).ok_or(UnpackerError::InvalidAbi)
    }
}

/// An unsigned integer that a `u64` can hold. The tagged width is not looked at.
impl UnpackAbi<u64> for TokenValue {
    open spec fn variant_matches(self) -> bool {
        self is Uint
    }

    open spec fn well_shaped(self) -> bool {
        self matches TokenValue::Uint(u) && biguint_value(u.number) <= u64::MAX
    }

    open spec fn represents(self, out: u64) -> bool {
        self matches TokenValue::Uint(u) && biguint_value(u.number) == out
    }

    fn unpack(self) -> (res: UnpackerResult<u64>) {
        let number: BigUint = UnpackAbi::<BigUint>::unpack(self)?;
        biguint_to_u64(&number).ok_or(UnpackerError::InvalidAbi)
    }
}

/// A signed integer that an `i128` can hold. The tagged width is not looked at.
impl UnpackAbi<i128> for TokenValue {
    open spec fn variant_matches(self) -> bool {
        self is Int
    }

    open spec fn well_shaped(self) -> bool {
        self matches TokenValue::Int(i) && i128::MIN <= bigint_value(i.number) <= i128::MAX
    }

    open spec fn represents(self, out: i128) -> bool {
        self matches TokenValue::Int(i) && bigint_value(i.number) == out
    }

    fn unpack(self) -> (res: UnpackerResult<i128>) {
        let number: BigInt = UnpackAbi::<BigInt>::unpack(self)?;
        bigint_to_i128(&number).ok_or(UnpackerError::InvalidAbi)
    }
}

/// An unsigned integer that a `u128` can hold. The tagged width is not looked at.
impl UnpackAbi<u128> for TokenValue {
    open spec fn variant_matches(self) -> bool {
        self is Uint
    }

    open spec fn well_shaped(self) -> bool {
        self matches TokenValue::Uint(u) && biguint_value(u.number) <= u128::MAX
    }

    open spec fn represents(self, out: u128) -> bool {
        self matches TokenValue::Uint(u) && biguint_value(u.number) == out
    }

    fn unpack(self) -> (res: UnpackerResult<u128>) {
        let number: BigUint = UnpackAbi::<BigUint>::unpack(self)?;
        biguint_to_u128(&number).ok_or(UnpackerError::InvalidAbi)
    }
}

/// The rules of this module are single-valued: a value stands for one
/// native value at most.
pub proof fn lemma_integers_single_valued()
    ensures
        single_valued::<i8>(),
        single_valued::<i16>(),
        single_valued::<i32>(),
        single_valued::<i64>(),
        single_valued::<i128>(),
        single_valued::<u8>(),
        single_valued::<u16>(),
        single_valued::<u32>(),
        single_valued::<u64>(),
        single_valued::<u128>(),
        single_valued::<BigInt>(),
        single_valued::<BigUint>(),
        single_valued::<UInt256>(),
{
    assert forall|value: TokenValue, a: UInt256, b: UInt256|
        UnpackAbi::<UInt256>::represents(value, a) && UnpackAbi::<UInt256>::represents(
            value,
            b,
        ) implies a == b by {
        assert(a.0 =~= b.0);
    }
}

} // verus!
