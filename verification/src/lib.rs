//! Typed decoding of the values that a contract call returns.
//!
//! A call's output is an ordered list of [`Token`]s, each a name with a
//! dynamically tagged [`TokenValue`]. The caller chooses a native type `T`
//! and [`UnpackAbi::unpack`] either yields the `T` that the value stands for
//! or reports [`UnpackerError::InvalidAbi`]. Every rule is stated by three
//! predicates of [`UnpackAbi`] and proved against them.
//!
//! # What is assumed
//!
//! Integers of arbitrary size are those of `num_bigint`. The verifier sees
//! nothing inside them: [`number`] names the number that one holds and
//! assumes of `to_bytes_be` and of the `ToPrimitive` conversions what their
//! documentation says. In [`mapping`] one constructor of `HashMap` is assumed
//! to give an empty map. The maps and iterators of std behave as `vstd`
//! specifies them. Everything else is proved.

pub mod container;
pub mod error;
pub mod integer;
pub mod keys;
pub mod mapping;
pub mod number;
pub mod scalar;
pub mod token;
pub mod unpack;
pub mod unpacker;

pub use container::StandaloneToken;
pub use error::{UnpackerError, UnpackerResult};
pub use unpack::{unpacked, UnpackAbi};
pub use unpacker::{
    ContractOutputUnpacker, FunctionOutputMarker, IntoUnpacker, UnpackAbiPlain, UnpackFirst,
};
pub use token::{
    AnycastInfo, Cell, Grams, Int, MaybeRef, MsgAddrStd, MsgAddrVar, MsgAddress, MsgAddressInt,
    Param, ParamType, Token, TokenValue, TokenValueExt, UInt256, Uint,
};
