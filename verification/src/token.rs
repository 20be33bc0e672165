//! The tagged values that a contract call returns, and the native types that
//! stand for addresses, cells and amounts.

use num_bigint::{BigInt, BigUint};
use vstd::prelude::*;

verus! {

/// An unsigned integer with the bit width that it was declared with.
#[derive(Debug, PartialEq, Eq)]
pub struct Uint {
    pub number: BigUint,
    pub size: usize,
}

/// A signed integer with the bit width that it was declared with.
#[derive(Debug, PartialEq, Eq)]
pub struct Int {
    pub number: BigInt,
    pub size: usize,
}

/// Thirty-two bytes, read as a big-endian number of 256 bits.
#[derive(Debug, Clone, Copy, PartialEq, Eq)]
pub struct UInt256(pub [u8; 32]);

/// A tree of cells, held as the bytes of its serialised form. Decoding hands
/// it on unread.
#[derive(Debug, PartialEq, Eq)]
pub struct Cell {
    pub boc: Vec<u8>,
}

/// An amount of currency, in its smallest unit. Decoding hands it on unread.
#[derive(Debug, Clone, Copy, PartialEq, Eq)]
pub struct Grams(pub u128);

/// The rewriting prefix of an anycast address.
#[derive(Debug, PartialEq, Eq)]
pub struct AnycastInfo {
    pub depth: u8,
    pub rewrite_pfx: Vec<u8>,
}

/// A standard address: a workchain of eight bits and an account of 256 bits.
#[derive(Debug, PartialEq, Eq)]
pub struct MsgAddrStd {
    pub anycast: Option<AnycastInfo>,
    pub workchain_id: i8,
    pub address: Vec<u8>,
}

/// A variable address: a workchain of thirty-two bits and an account of
/// `addr_len` bits.
#[derive(Debug, PartialEq, Eq)]
pub struct MsgAddrVar {
    pub anycast: Option<AnycastInfo>,
    pub addr_len: u16,
    pub workchain_id: i32,
    pub address: Vec<u8>,
}

/// An address as a tagged value carries it: standard or variable.
#[derive(Debug, PartialEq, Eq)]
pub enum MsgAddress {
    AddrStd(MsgAddrStd),
    AddrVar(MsgAddrVar),
}

/// An internal address, the form in which messages between contracts name
/// their ends.
#[derive(Debug, PartialEq, Eq)]
pub enum MsgAddressInt {
    AddrStd(MsgAddrStd),
    AddrVar(MsgAddrVar),
}

/// A named parameter of a tuple type.
#[derive(Debug, PartialEq, Eq)]
pub struct Param {
    pub name: String,
    pub kind: ParamType,
}

/// The type that a value was declared with.
#[derive(Debug, PartialEq, Eq)]
pub enum ParamType {
    Uint(usize),
    Int(usize),
    VarUint(usize),
    VarInt(usize),
    Bool,
    Tuple(Vec<Param>),
    Array(Box<ParamType>),
    FixedArray(Box<ParamType>, usize),
    Cell,
    Mapping(Box<ParamType>, Box<ParamType>),
    Address,
    Bytes,
    FixedBytes(usize),
    String,
    Token,
    Time,
    Expire,
    PublicKey,
    Optional(Box<ParamType>),
    Ref(Box<ParamType>),
}

/// One output of a call: a value and the name that the contract gives it.
/// Decoding goes by position and never reads the name.
#[derive(Debug, PartialEq, Eq)]
pub struct Token {
    pub name: String,
    pub value: TokenValue,
}

/// A value with the tag of its kind.
///
/// The containers name the type that their items were declared with. Nothing
/// here checks the items against it: decoding looks at the items themselves.
#[derive(Debug, PartialEq, Eq)]
pub enum TokenValue {
    /// An unsigned integer of a fixed bit width.
    Uint(Uint),
    /// A signed integer of a fixed bit width.
    Int(Int),
    /// A signed integer of variable length, with the number of bytes it may take.
    VarInt(usize, BigInt),
    /// An unsigned integer of variable length, with the number of bytes it may take.
    VarUint(usize, BigUint),
    Bool(bool),
    /// Named values in the order of their declaration.
    Tuple(Vec<Token>),
    /// Items of one declared type, in order.
    Array(ParamType, Vec<TokenValue>),
    /// Items of one declared type, in order, with the count that the type fixes.
    FixedArray(ParamType, usize, Vec<TokenValue>),
    Cell(Cell),
    /// Pairs of key and value in the order in which they are stored, with the
    /// declared types of both. A key may occur more than once.
    Mapping(ParamType, ParamType, Vec<(TokenValue, TokenValue)>),
    Address(MsgAddress),
    Bytes(Vec<u8>),
    FixedBytes(Vec<u8>),
    String(String),
    /// An amount of currency.
    Token(Grams),
    Time(u64),
    Expire(u32),
    PublicKey(Option<[u8; 32]>),
    /// A value that may be absent, with its declared type.
    Optional(ParamType, Option<Box<TokenValue>>),
    /// A value stored by reference. It has a meaning only inside a present
    /// `Optional`.
    Ref(Box<TokenValue>),
}

/// A native value that was stored by reference where it is present.
#[derive(Debug, PartialEq, Eq)]
pub struct MaybeRef<T>(pub Option<T>);

/// Makes a [`Token`] of a value.
pub trait TokenValueExt {
    /// The token that holds `self` under the empty name.
    fn unnamed(self) -> Token;

    /// The token that holds `self` under `name`.
    fn named(self, name: &str) -> Token;
}

impl TokenValueExt for TokenValue {
    fn unnamed(self) -> (token: Token)
        ensures
            token.name@ == Seq::<char>::empty(),
            token.value == self,
    {
        Token { name: String::new(), value: self }
    }

    fn named(self, name: &str) -> (token: Token)
        ensures
            token.name@ == name@,
            token.value == self,
    {
        broadcast use vstd::string::to_string_from_display_ensures_for_str;

        Token { name: name.to_string(), value: self }
    }
}

} // verus!
