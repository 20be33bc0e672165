//! Reading the outputs of one call, one after the other.

use crate::error::UnpackerResult;
use crate::token::{Token, TokenValue};
use crate::unpack::{unpacked, UnpackAbi};
use vstd::prelude::*;
use vstd::std_specs::iter::IteratorSpec;

verus! {

/// The token that is read next from `remaining`, if one is left.
pub open spec fn next_token(remaining: Seq<Token>) -> Option<Token> {
    if remaining.len() > 0 {
        Some(remaining[0])
    } else {
        None
    }
}

/// `remaining` after one token has been read from it.
pub open spec fn after_next(remaining: Seq<Token>) -> Seq<Token> {
    if remaining.len() > 0 {
        remaining.drop_first()
    } else {
        remaining
    }
}

/// A cursor over the outputs of a call. It moves forward only: a token that
/// was read is gone, whether or not it could be decoded.
#[derive(Debug)]
pub struct ContractOutputUnpacker<I>(pub I);

impl<I: Iterator<Item = Token>> ContractOutputUnpacker<I> {
    /// Reads the next token and decodes its value as `T`. With no token left
    /// it fails. The token that was read is gone, whatever came of it.
    ///
    /// The contract speaks of the tokens that the iterator will still yield,
    /// and holds of every iterator that keeps the laws of iterators, as those
    /// of std do.
    pub fn unpack_next<T>(&mut self) -> (res: UnpackerResult<T>) where TokenValue: UnpackAbi<T>
        ensures
            old(self).0.obeys_prophetic_iter_laws() ==> {
                &&& final(self).0.obeys_prophetic_iter_laws()
                &&& final(self).0.remaining() == after_next(old(self).0.remaining())
                &&& unpacked(next_token(old(self).0.remaining()), res)
            },
    {
        self.0.next().unpack()
    }
}

/// What can be read as the outputs of a call.
pub trait IntoUnpacker: Sized {
    type Iter: Iterator<Item = Token>;

    /// The outputs in the order of the call's declaration.
    spec fn tokens(self) -> Seq<Token>;

    /// A cursor that has all the outputs before it.
    fn into_unpacker(self) -> (unpacker: ContractOutputUnpacker<Self::Iter>)
        ensures
            unpacker.0.obeys_prophetic_iter_laws(),
            unpacker.0.remaining() == self.tokens(),
    ;
}

impl IntoUnpacker for Vec<Token> {
    type Iter = std::vec::IntoIter<Token>;

    open spec fn tokens(self) -> Seq<Token> {
        self@
    }

    fn into_unpacker(self) -> (unpacker: ContractOutputUnpacker<Self::Iter>) {
        ContractOutputUnpacker(self.into_iter())
    }
}

/// Decoding the first output of a call, for calls that return one value.
pub trait UnpackFirst: Sized {
    /// The outputs in the order of the call's declaration.
    spec fn outputs(self) -> Seq<Token>;

    /// Decodes the value of the first output as `T`; with no output it
    /// fails. The outputs after the first are not looked at. It does what
    /// one read from a cursor over all the outputs does.
    fn unpack_first<T>(self) -> (res: UnpackerResult<T>) where TokenValue: UnpackAbi<T>
        ensures
            unpacked(next_token(self.outputs()), res),
    ;
}

impl UnpackFirst for Vec<Token> {
    open spec fn outputs(self) -> Seq<Token> {
        self@
    }

    fn unpack_first<T>(self) -> (res: UnpackerResult<T>) where TokenValue: UnpackAbi<T> {
        self.into_unpacker().unpack_next()
    }
}

/// What holds the whole output of a call.
pub trait FunctionOutputMarker {

}

impl FunctionOutputMarker for Vec<Token> {

}

/// Decoding the whole output of a call into one native value, most often a
/// struct with a field for each output. The impls are the caller's: nothing
/// is stated of them here.
pub trait UnpackAbiPlain<T>: FunctionOutputMarker {
    fn unpack(self) -> UnpackerResult<T>;
}

} // verus!
