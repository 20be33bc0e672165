//! The values that are handed on as they are: booleans, cells, text, bytes,
//! amounts, and the three forms of an address.

use crate::error::{UnpackerError, UnpackerResult};
use crate::token::{
    Cell, Grams, MsgAddrStd, MsgAddrVar, MsgAddress, MsgAddressInt, TokenValue,
};
use crate::unpack::{single_valued, UnpackAbi};
use vstd::prelude::*;

verus! {

impl UnpackAbi<bool> for TokenValue {
    open spec fn variant_matches(self) -> bool {
        self is Bool
    }

    open spec fn well_shaped(self) -> bool {
        self is Bool
    }

    open spec fn represents(self, out: bool) -> bool {
        self matches TokenValue::Bool(b) && out == b
    }

    fn unpack(self) -> (res: UnpackerResult<bool>) {
        match self {
            TokenValue::Bool(confirmed) => Ok(confirmed),
            _ => Err(UnpackerError::InvalidAbi),
        }
    }
}

impl UnpackAbi<Cell> for TokenValue {
    open spec fn variant_matches(self) -> bool {
        self is Cell
    }

    open spec fn well_shaped(self) -> bool {
        self is Cell
    }

    open spec fn represents(self, out: Cell) -> bool {
        self matches TokenValue::Cell(cell) && out == cell
    }

    fn unpack(self) -> (res: UnpackerResult<Cell>) {
        match self {
            TokenValue::Cell(cell) => Ok(cell),
            _ => Err(UnpackerError::InvalidAbi),
        }
    }
}

/// An address of either kind, under the internal tag of the same kind.
impl UnpackAbi<MsgAddressInt> for TokenValue {
    open spec fn variant_matches(self) -> bool {
        self is Address
    }

    open spec fn well_shaped(self) -> bool {
        self is Address
    }

    open spec fn represents(self, out: MsgAddressInt) -> bool {
        self matches TokenValue::Address(address) && out == match address {
            MsgAddress::AddrStd(addr) => MsgAddressInt::AddrStd(addr),
            MsgAddress::AddrVar(addr) => MsgAddressInt::AddrVar(addr),
        }
    }

    fn unpack(self) -> (res: UnpackerResult<MsgAddressInt>) {
        match self {
            TokenValue::Address(MsgAddress::AddrStd(addr)) => Ok(MsgAddressInt::AddrStd(addr)),
            TokenValue::Address(MsgAddress::AddrVar(addr)) => Ok(MsgAddressInt::AddrVar(addr)),
            _ => Err(UnpackerError::InvalidAbi),
        }
    }
}

/// An address of either kind, unchanged.
impl UnpackAbi<MsgAddress> for TokenValue {
    open spec fn variant_matches(self) -> bool {
        self is Address
    }

    open spec fn well_shaped(self) -> bool {
        self is Address
    }

    open spec fn represents(self, out: MsgAddress) -> bool {
        self matches TokenValue::Address(address) && out == address
    }

    fn unpack(self) -> (res: UnpackerResult<MsgAddress>) {
        match self {
            TokenValue::Address(address) => Ok(address),
            _ => Err(UnpackerError::InvalidAbi),
        }
    }
}

/// A standard address, and no other kind.
impl UnpackAbi<MsgAddrStd> for TokenValue {
    open spec fn variant_matches(self) -> bool {
        self is Address
    }

    open spec fn well_shaped(self) -> bool {
        self matches TokenValue::Address(address) && address is AddrStd
    }

    open spec fn represents(self, out: MsgAddrStd) -> bool {
        self matches TokenValue::Address(MsgAddress::AddrStd(addr)) && out == addr
    }

    fn unpack(self) -> (res: UnpackerResult<MsgAddrStd>) {
        match self {
            TokenValue::Address(MsgAddress::AddrStd(addr)) => Ok(addr),
            _ => Err(UnpackerError::InvalidAbi),
        }
    }
}

/// A standard address decodes under each of the three address types: as
/// itself, as the address that holds it, and as the internal address of the
/// standard kind.
pub proof fn lemma_standard_address(addr: MsgAddrStd)
    ensures
        ({
            let value = TokenValue::Address(MsgAddress::AddrStd(addr));
            &&& UnpackAbi::<MsgAddrStd>::well_shaped(value)
            &&& UnpackAbi::<MsgAddrStd>::represents(value, addr)
            &&& UnpackAbi::<MsgAddress>::well_shaped(value)
            &&& UnpackAbi::<MsgAddress>::represents(value, MsgAddress::AddrStd(addr))
            &&& UnpackAbi::<MsgAddressInt>::well_shaped(value)
            &&& UnpackAbi::<MsgAddressInt>::represents(value, MsgAddressInt::AddrStd(addr))
        }),
{
}

/// A variable address is refused where a standard one is asked for. Under
/// the other two address types it decodes: as the address that holds it, and
/// as the internal address of the variable kind.
pub proof fn lemma_variable_address(addr: MsgAddrVar)
    ensures
        ({
            let value = TokenValue::Address(MsgAddress::AddrVar(addr));
            &&& !UnpackAbi::<MsgAddrStd>::well_shaped(value)
            &&& UnpackAbi::<MsgAddress>::well_shaped(value)
            &&& UnpackAbi::<MsgAddress>::represents(value, MsgAddress::AddrVar(addr))
            &&& UnpackAbi::<MsgAddressInt>::well_shaped(value)
            &&& UnpackAbi::<MsgAddressInt>::represents(value, MsgAddressInt::AddrVar(addr))
        }),
{
}

impl UnpackAbi<String> for TokenValue {
    open spec fn variant_matches(self) -> bool {
        self is String
    }

    open spec fn well_shaped(self) -> bool {
        self is String
    }

    open spec fn represents(self, out: String) -> bool {
        self matches TokenValue::String(data) && out == data
    }

    fn unpack(self) -> (res: UnpackerResult<String>) {
        match self {
            TokenValue::String(data) => Ok(data),
            _ => Err(UnpackerError::InvalidAbi),
        }
    }
}

/// The bytes of a byte string. A list of `u8` numbers is not read this way.
impl UnpackAbi<Vec<u8>> for TokenValue {
    open spec fn variant_matches(self) -> bool {
        self is Bytes
    }

    open spec fn well_shaped(self) -> bool {
        self is Bytes
    }

    open spec fn represents(self, out: Vec<u8>) -> bool {
        self matches TokenValue::Bytes(bytes) && out == bytes
    }

    fn unpack(self) -> (res: UnpackerResult<Vec<u8>>) {
        match self {
            TokenValue::Bytes(bytes) => Ok(bytes),
            _ => Err(UnpackerError::InvalidAbi),
        }
    }
}

impl UnpackAbi<Grams> for TokenValue {
    open spec fn variant_matches(self) -> bool {
        self is Token
    }

    open spec fn well_shaped(self) -> bool {
        self is Token
    }

    open spec fn represents(self, out: Grams) -> bool {
        self matches TokenValue::Token(grams) && out == grams
    }

    fn unpack(self) -> (res: UnpackerResult<Grams>) {
        match self {
            TokenValue::Token(grams) => Ok(grams),
            _ => Err(UnpackerError::InvalidAbi),
        }
    }
}

/// The rules of this module are single-valued: a value stands for one
/// native value at most.
pub proof fn lemma_scalars_single_valued()
    ensures
        single_valued::<bool>(),
        single_valued::<Cell>(),
        single_valued::<String>(),
        single_valued::<Vec<u8>>(),
        single_valued::<Grams>(),
        single_valued::<MsgAddress>(),
        single_valued::<MsgAddressInt>(),
        single_valued::<MsgAddrStd>(),
{
}

} // verus!
