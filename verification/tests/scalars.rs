use nekoton_abi::{
    Cell, Grams, Int, MsgAddrStd, MsgAddrVar, MsgAddress, MsgAddressInt, ParamType, Token,
    TokenValue, TokenValueExt, Uint, UnpackAbi, UnpackerError, UnpackerResult,
};
use num_bigint::{BigInt, BigUint};

const REFUSED: UnpackerError = UnpackerError::InvalidAbi;

fn standard() -> MsgAddrStd {
    MsgAddrStd { anycast: None, workchain_id: -1, address: vec![0x11; 32] }
}

fn variable() -> MsgAddrVar {
    MsgAddrVar { anycast: None, addr_len: 80, workchain_id: 7, address: vec![0x22; 10] }
}

fn samples() -> Vec<TokenValue> {
    vec![
        TokenValue::Uint(Uint { number: BigUint::from(1u8), size: 8 }),
        TokenValue::Int(Int { number: BigInt::from(1i8), size: 8 }),
        TokenValue::VarInt(16, BigInt::from(1i8)),
        TokenValue::VarUint(16, BigUint::from(1u8)),
        TokenValue::Bool(true),
        TokenValue::Tuple(vec![]),
        TokenValue::Array(ParamType::Bool, vec![]),
        TokenValue::FixedArray(ParamType::Bool, 0, vec![]),
        TokenValue::Cell(Cell { boc: vec![1, 2, 3] }),
        TokenValue::Mapping(ParamType::Uint(8), ParamType::Bool, vec![]),
        TokenValue::Address(MsgAddress::AddrStd(standard())),
        TokenValue::Bytes(vec![1, 2, 3]),
        TokenValue::FixedBytes(vec![1, 2, 3]),
        TokenValue::String("text".to_string()),
        TokenValue::Token(Grams(5)),
        TokenValue::Time(1),
        TokenValue::Expire(2),
        TokenValue::PublicKey(None),
        TokenValue::Optional(ParamType::Bool, None),
        TokenValue::Ref(Box::new(TokenValue::Bool(true))),
    ]
}

#[test]
fn bool_is_read_from_bool_only() {
    assert_eq!(UnpackAbi::<bool>::unpack(TokenValue::Bool(true)), Ok(true));
    assert_eq!(UnpackAbi::<bool>::unpack(TokenValue::Bool(false)), Ok(false));
    for value in samples() {
        let is_bool = matches!(value, TokenValue::Bool(_));
        let res: UnpackerResult<bool> = value.unpack();
        assert_eq!(res.is_ok(), is_bool);
    }
}

#[test]
fn text_asked_as_bool_is_refused() {
    let res: UnpackerResult<bool> = TokenValue::String("true".to_string()).unpack();
    assert_eq!(res, Err(REFUSED));
}

#[test]
fn string_is_read_from_string_only() {
    let res: UnpackerResult<String> = TokenValue::String("hello".to_string()).unpack();
    assert_eq!(res, Ok("hello".to_string()));
    for value in samples() {
        let is_string = matches!(value, TokenValue::String(_));
        let res: UnpackerResult<String> = value.unpack();
        assert_eq!(res.is_ok(), is_string);
    }
}

#[test]
fn bytes_are_read_from_bytes_only() {
    let res: UnpackerResult<Vec<u8>> = TokenValue::Bytes(vec![9, 8, 7]).unpack();
    assert_eq!(res, Ok(vec![9u8, 8, 7]));
    for value in samples() {
        let is_bytes = matches!(value, TokenValue::Bytes(_));
        let res: UnpackerResult<Vec<u8>> = value.unpack();
        assert_eq!(res.is_ok(), is_bytes);
    }
}

#[test]
fn a_list_of_numbers_is_no_byte_string() {
    let items = vec![TokenValue::Uint(Uint { number: BigUint::from(1u8), size: 8 })];
    let res: UnpackerResult<Vec<u8>> = TokenValue::Array(ParamType::Uint(8), items).unpack();
    assert_eq!(res, Err(REFUSED));
}

#[test]
fn cell_is_read_from_cell_only() {
    let res: UnpackerResult<Cell> = TokenValue::Cell(Cell { boc: vec![0xb5, 0xee] }).unpack();
    assert_eq!(res, Ok(Cell { boc: vec![0xb5, 0xee] }));
    for value in samples() {
        let is_cell = matches!(value, TokenValue::Cell(_));
        let res: UnpackerResult<Cell> = value.unpack();
        assert_eq!(res.is_ok(), is_cell);
    }
}

#[test]
fn amount_is_read_from_amount_only() {
    let res: UnpackerResult<Grams> = TokenValue::Token(Grams(1_000_000_000)).unpack();
    assert_eq!(res, Ok(Grams(1_000_000_000)));
    for value in samples() {
        let is_amount = matches!(value, TokenValue::Token(_));
        let res: UnpackerResult<Grams> = value.unpack();
        assert_eq!(res.is_ok(), is_amount);
    }
}

#[test]
fn standard_address_becomes_internal_standard() {
    let value = TokenValue::Address(MsgAddress::AddrStd(standard()));
    let res: UnpackerResult<MsgAddressInt> = value.unpack();
    assert_eq!(res, Ok(MsgAddressInt::AddrStd(standard())));
}

#[test]
fn variable_address_becomes_internal_variable() {
    let value = TokenValue::Address(MsgAddress::AddrVar(variable()));
    let res: UnpackerResult<MsgAddressInt> = value.unpack();
    assert_eq!(res, Ok(MsgAddressInt::AddrVar(variable())));
}

#[test]
fn standard_address_passes_the_strict_target() {
    let value = TokenValue::Address(MsgAddress::AddrStd(standard()));
    let res: UnpackerResult<MsgAddrStd> = value.unpack();
    assert_eq!(res, Ok(standard()));
}

#[test]
fn variable_address_fails_the_strict_target() {
    let value = TokenValue::Address(MsgAddress::AddrVar(variable()));
    let res: UnpackerResult<MsgAddrStd> = value.unpack();
    assert_eq!(res, Err(REFUSED));
}

#[test]
fn generic_address_takes_both_kinds() {
    let value = TokenValue::Address(MsgAddress::AddrStd(standard()));
    assert_eq!(UnpackAbi::<MsgAddress>::unpack(value), Ok(MsgAddress::AddrStd(standard())));
    let value = TokenValue::Address(MsgAddress::AddrVar(variable()));
    assert_eq!(UnpackAbi::<MsgAddress>::unpack(value), Ok(MsgAddress::AddrVar(variable())));
}

#[test]
fn addresses_are_read_from_addresses_only() {
    for (value, again) in samples().into_iter().zip(samples()) {
        let is_address = matches!(value, TokenValue::Address(_));
        assert_eq!(UnpackAbi::<MsgAddress>::unpack(value).is_ok(), is_address);
        assert_eq!(UnpackAbi::<MsgAddressInt>::unpack(again).is_ok(), is_address);
    }
    assert_eq!(UnpackAbi::<MsgAddrStd>::unpack(TokenValue::Bool(true)), Err(REFUSED));
}

#[test]
fn a_value_decodes_into_itself() {
    for (value, same) in samples().into_iter().zip(samples()) {
        let res: UnpackerResult<TokenValue> = value.unpack();
        assert_eq!(res, Ok(same));
    }
}

#[test]
fn unnamed_token_has_the_empty_name() {
    let token = TokenValue::Bool(true).unnamed();
    assert_eq!(token, Token { name: String::new(), value: TokenValue::Bool(true) });
}

#[test]
fn named_token_has_the_name() {
    let token = TokenValue::Time(5).named("now");
    assert_eq!(token, Token { name: "now".to_string(), value: TokenValue::Time(5) });
}

#[test]
fn the_error_says_invalid_abi() {
    assert_eq!(UnpackerError::InvalidAbi.message(), "Invalid ABI");
}
