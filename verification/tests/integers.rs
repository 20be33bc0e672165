use nekoton_abi::{Int, TokenValue, UInt256, Uint, UnpackAbi, UnpackerError, UnpackerResult};
use num_bigint::{BigInt, BigUint};

fn unsigned(number: u128, size: usize) -> TokenValue {
    TokenValue::Uint(Uint { number: BigUint::from(number), size })
}

fn signed(number: i128, size: usize) -> TokenValue {
    TokenValue::Int(Int { number: BigInt::from(number), size })
}

fn uint_of_bytes(bytes: &[u8], size: usize) -> TokenValue {
    TokenValue::Uint(Uint { number: BigUint::from_bytes_be(bytes), size })
}

const INVALID: UnpackerError = UnpackerError::InvalidAbi;

#[test]
fn unsigned_300_does_not_fit_eight_bits() {
    let res: UnpackerResult<u8> = unsigned(300, 16).unpack();
    assert_eq!(res, Err(INVALID));
}

#[test]
fn unsigned_300_fits_sixteen_bits() {
    let res: UnpackerResult<u16> = unsigned(300, 16).unpack();
    assert_eq!(res, Ok(300u16));
}

#[test]
fn signed_300_does_not_fit_eight_bits() {
    let res: UnpackerResult<i8> = signed(300, 16).unpack();
    assert_eq!(res, Err(INVALID));
}

#[test]
fn signed_300_fits_sixteen_bits() {
    let res: UnpackerResult<i16> = signed(300, 16).unpack();
    assert_eq!(res, Ok(300i16));
}

#[test]
fn u8_bounds() {
    assert_eq!(UnpackAbi::<u8>::unpack(unsigned(0, 8)), Ok(0u8));
    assert_eq!(UnpackAbi::<u8>::unpack(unsigned(255, 8)), Ok(255u8));
    assert_eq!(UnpackAbi::<u8>::unpack(unsigned(256, 8)), Err(INVALID));
}

#[test]
fn u16_bounds() {
    assert_eq!(UnpackAbi::<u16>::unpack(unsigned(65535, 16)), Ok(65535u16));
    assert_eq!(UnpackAbi::<u16>::unpack(unsigned(65536, 16)), Err(INVALID));
}

#[test]
fn u32_bounds() {
    assert_eq!(UnpackAbi::<u32>::unpack(unsigned(4294967295, 32)), Ok(u32::MAX));
    assert_eq!(UnpackAbi::<u32>::unpack(unsigned(4294967296, 32)), Err(INVALID));
}

#[test]
fn u64_bounds() {
    assert_eq!(UnpackAbi::<u64>::unpack(unsigned(18446744073709551615, 64)), Ok(u64::MAX));
    assert_eq!(UnpackAbi::<u64>::unpack(unsigned(18446744073709551616, 64)), Err(INVALID));
}

#[test]
fn u128_bounds() {
    assert_eq!(UnpackAbi::<u128>::unpack(unsigned(u128::MAX, 128)), Ok(u128::MAX));
    let above = TokenValue::Uint(Uint { number: BigUint::from(u128::MAX) + 1u32, size: 256 });
    assert_eq!(UnpackAbi::<u128>::unpack(above), Err(INVALID));
}

#[test]
fn i8_bounds() {
    assert_eq!(UnpackAbi::<i8>::unpack(signed(-128, 8)), Ok(-128i8));
    assert_eq!(UnpackAbi::<i8>::unpack(signed(127, 8)), Ok(127i8));
    assert_eq!(UnpackAbi::<i8>::unpack(signed(-129, 8)), Err(INVALID));
    assert_eq!(UnpackAbi::<i8>::unpack(signed(128, 8)), Err(INVALID));
}

#[test]
fn i16_bounds() {
    assert_eq!(UnpackAbi::<i16>::unpack(signed(-32768, 16)), Ok(i16::MIN));
    assert_eq!(UnpackAbi::<i16>::unpack(signed(32767, 16)), Ok(i16::MAX));
    assert_eq!(UnpackAbi::<i16>::unpack(signed(-32769, 16)), Err(INVALID));
    assert_eq!(UnpackAbi::<i16>::unpack(signed(32768, 16)), Err(INVALID));
}

#[test]
fn i32_bounds() {
    assert_eq!(UnpackAbi::<i32>::unpack(signed(-2147483648, 32)), Ok(i32::MIN));
    assert_eq!(UnpackAbi::<i32>::unpack(signed(2147483647, 32)), Ok(i32::MAX));
    assert_eq!(UnpackAbi::<i32>::unpack(signed(-2147483649, 32)), Err(INVALID));
    assert_eq!(UnpackAbi::<i32>::unpack(signed(2147483648, 32)), Err(INVALID));
}

#[test]
fn i64_bounds() {
    assert_eq!(UnpackAbi::<i64>::unpack(signed(-9223372036854775808, 64)), Ok(i64::MIN));
    assert_eq!(UnpackAbi::<i64>::unpack(signed(9223372036854775807, 64)), Ok(i64::MAX));
    assert_eq!(UnpackAbi::<i64>::unpack(signed(-9223372036854775809, 64)), Err(INVALID));
    assert_eq!(UnpackAbi::<i64>::unpack(signed(9223372036854775808, 64)), Err(INVALID));
}

#[test]
fn i128_bounds() {
    assert_eq!(UnpackAbi::<i128>::unpack(signed(i128::MIN, 128)), Ok(i128::MIN));
    assert_eq!(UnpackAbi::<i128>::unpack(signed(i128::MAX, 128)), Ok(i128::MAX));
    let below = TokenValue::Int(Int { number: BigInt::from(i128::MIN) - 1, size: 256 });
    assert_eq!(UnpackAbi::<i128>::unpack(below), Err(INVALID));
    let above = TokenValue::Int(Int { number: BigInt::from(i128::MAX) + 1, size: 256 });
    assert_eq!(UnpackAbi::<i128>::unpack(above), Err(INVALID));
}

#[test]
fn narrowing_does_not_read_the_tagged_width() {
    assert_eq!(UnpackAbi::<u8>::unpack(unsigned(7, 256)), Ok(7u8));
    assert_eq!(UnpackAbi::<i64>::unpack(signed(-7, 8)), Ok(-7i64));
}

#[test]
fn signed_targets_refuse_unsigned_values() {
    assert_eq!(UnpackAbi::<i8>::unpack(unsigned(1, 8)), Err(INVALID));
    assert_eq!(UnpackAbi::<i16>::unpack(unsigned(1, 16)), Err(INVALID));
    assert_eq!(UnpackAbi::<i32>::unpack(unsigned(1, 32)), Err(INVALID));
    assert_eq!(UnpackAbi::<i64>::unpack(unsigned(1, 64)), Err(INVALID));
    assert_eq!(UnpackAbi::<i128>::unpack(unsigned(1, 128)), Err(INVALID));
    assert_eq!(UnpackAbi::<BigInt>::unpack(unsigned(1, 128)), Err(INVALID));
}

#[test]
fn unsigned_targets_refuse_signed_values() {
    assert_eq!(UnpackAbi::<u8>::unpack(signed(1, 8)), Err(INVALID));
    assert_eq!(UnpackAbi::<u16>::unpack(signed(1, 16)), Err(INVALID));
    assert_eq!(UnpackAbi::<u32>::unpack(signed(1, 32)), Err(INVALID));
    assert_eq!(UnpackAbi::<u64>::unpack(signed(1, 64)), Err(INVALID));
    assert_eq!(UnpackAbi::<u128>::unpack(signed(1, 128)), Err(INVALID));
    assert_eq!(UnpackAbi::<BigUint>::unpack(signed(1, 128)), Err(INVALID));
    assert_eq!(UnpackAbi::<UInt256>::unpack(signed(1, 256)), Err(INVALID));
}

#[test]
fn big_integers_are_handed_on() {
    let number = BigUint::from_bytes_be(&[0xff; 40]);
    let value = TokenValue::Uint(Uint { number: number.clone(), size: 320 });
    assert_eq!(UnpackAbi::<BigUint>::unpack(value), Ok(number));

    let number: BigInt = -BigInt::from(u128::MAX) * BigInt::from(3);
    let value = TokenValue::Int(Int { number: number.clone(), size: 256 });
    assert_eq!(UnpackAbi::<BigInt>::unpack(value), Ok(number));
}

#[test]
fn uint256_of_one_has_31_zero_bytes_before_it() {
    let res: UnpackerResult<UInt256> = unsigned(1, 256).unpack();
    let mut expected = [0u8; 32];
    expected[31] = 1;
    assert_eq!(res, Ok(UInt256(expected)));
}

#[test]
fn uint256_of_zero_is_all_zero() {
    let res: UnpackerResult<UInt256> = unsigned(0, 256).unpack();
    assert_eq!(res, Ok(UInt256([0u8; 32])));
}

#[test]
fn uint256_is_big_endian() {
    let res: UnpackerResult<UInt256> = unsigned(0x0102_0304, 256).unpack();
    let mut expected = [0u8; 32];
    expected[28] = 1;
    expected[29] = 2;
    expected[30] = 3;
    expected[31] = 4;
    assert_eq!(res, Ok(UInt256(expected)));
}

#[test]
fn uint256_of_32_bytes_fills_the_field() {
    let mut bytes = [0u8; 32];
    for (i, byte) in bytes.iter_mut().enumerate() {
        *byte = (i + 1) as u8;
    }
    let res: UnpackerResult<UInt256> = uint_of_bytes(&bytes, 256).unpack();
    assert_eq!(res, Ok(UInt256(bytes)));
}

#[test]
fn uint256_keeps_the_first_32_bytes_of_a_longer_number() {
    let mut bytes = [0u8; 33];
    for (i, byte) in bytes.iter_mut().enumerate() {
        *byte = (i + 1) as u8;
    }
    let res: UnpackerResult<UInt256> = uint_of_bytes(&bytes, 256).unpack();
    let mut expected = [0u8; 32];
    expected.copy_from_slice(&bytes[..32]);
    assert_eq!(res, Ok(UInt256(expected)));
}

#[test]
fn uint256_asks_for_the_width_256() {
    assert_eq!(UnpackAbi::<UInt256>::unpack(unsigned(1, 128)), Err(INVALID));
    assert_eq!(UnpackAbi::<UInt256>::unpack(unsigned(1, 255)), Err(INVALID));
    assert_eq!(UnpackAbi::<UInt256>::unpack(unsigned(1, 257)), Err(INVALID));
    assert_eq!(UnpackAbi::<UInt256>::unpack(TokenValue::Bool(true)), Err(INVALID));
}
