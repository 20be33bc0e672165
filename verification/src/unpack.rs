//! The rule of decoding: one impl of [`UnpackAbi`] for each native type.

use crate::error::{UnpackerError, UnpackerResult};
use crate::token::{Token, TokenValue};
use vstd::prelude::*;

verus! {

/// Decodes `self` into the native type `T`.
///
/// The caller names `T`; the value does not say what it should become. What
/// an impl does is fixed by three predicates, and `unpack` is proved against
/// them: it succeeds exactly on the values that are [`well_shaped`], it
/// returns a native value that the value [`represents`], and it rejects
/// every value whose variant is not the one that `T` is read from.
///
/// [`well_shaped`]: UnpackAbi::well_shaped
/// [`represents`]: UnpackAbi::represents
pub trait UnpackAbi<T>: Sized {
    /// Whether `self` has the variant that `T` is read from. Only the
    /// outermost tag is looked at, through the wrappers that have no tag of
    /// their own.
    spec fn variant_matches(self) -> bool;

    /// Whether `self` can be decoded as `T`: its variant matches, a number
    /// fits the width of `T`, and every part is well shaped for the type of
    /// that part.
    spec fn well_shaped(self) -> bool;

    /// Whether `out` is the native value that `self` stands for.
    spec fn represents(self, out: T) -> bool;

    fn unpack(self) -> (res: UnpackerResult<T>)
        ensures
            res is Ok <==> self.well_shaped(),
            res matches Ok(out) ==> self.represents(out),
            !self.variant_matches() ==> res is Err,
            res matches Err(e) ==> e == UnpackerError::InvalidAbi,
    ;
}

/// What [`UnpackAbi::unpack`] returns for `source` and the native type `T`,
/// as one predicate on the result.
pub open spec fn unpacked<T, S: UnpackAbi<T>>(source: S, res: UnpackerResult<T>) -> bool {
    &&& res is Ok <==> source.well_shaped()
    &&& res matches Ok(out) ==> source.represents(out)
    &&& !source.variant_matches() ==> res is Err
    &&& res matches Err(e) ==> e == UnpackerError::InvalidAbi
}

/// Whether the rule of `T` leaves no choice: a value stands for one native
/// value at most.
pub open spec fn single_valued<T>() -> bool where TokenValue: UnpackAbi<T> {
    forall|value: TokenValue, a: T, b: T|
        #![trigger UnpackAbi::<T>::represents(value, a), UnpackAbi::<T>::represents(value, b)]
        UnpackAbi::<T>::represents(value, a) && UnpackAbi::<T>::represents(value, b) ==> a == b
}

/// A value decodes into itself, whatever it is.
impl UnpackAbi<TokenValue> for TokenValue {
    open spec fn variant_matches(self) -> bool {
        true
    }

    open spec fn well_shaped(self) -> bool {
        true
    }

    open spec fn represents(self, out: TokenValue) -> bool {
        out == self
    }

    #[inline]
    fn unpack(self) -> (res: UnpackerResult<TokenValue>) {
        Ok(self)
    }
}

/// A token decodes as its value does; the name is dropped.
impl<T> UnpackAbi<T> for Token where TokenValue: UnpackAbi<T> {
    open spec fn variant_matches(self) -> bool {
        UnpackAbi::<T>::variant_matches(self.value)
    }

    open spec fn well_shaped(self) -> bool {
        UnpackAbi::<T>::well_shaped(self.value)
    }

    open spec fn represents(self, out: T) -> bool {
        UnpackAbi::<T>::represents(self.value, out)
    }

    fn unpack(self) -> (res: UnpackerResult<T>) {
        self.value.unpack()
    }
}

/// A token that may be missing: nothing decodes from `None`.
impl<T> UnpackAbi<T> for Option<Token> where TokenValue: UnpackAbi<T> {
    open spec fn variant_matches(self) -> bool {
        self matches Some(token) && UnpackAbi::<T>::variant_matches(token.value)
    }

    open spec fn well_shaped(self) -> bool {
        self matches Some(token) && UnpackAbi::<T>::well_shaped(token.value)
    }

    open spec fn represents(self, out: T) -> bool {
        self matches Some(token) && UnpackAbi::<T>::represents(token.value, out)
    }

    fn unpack(self) -> (res: UnpackerResult<T>) {
        match self {
            Some(token) => token.value.unpack(),
            None => Err(UnpackerError::InvalidAbi),
        }
    }
}

/// A value that may be missing: nothing decodes from `None`.
impl<T> UnpackAbi<T> for Option<TokenValue> where TokenValue: UnpackAbi<T> {
    open spec fn variant_matches(self) -> bool {
        self matches Some(value) && UnpackAbi::<T>::variant_matches(value)
    }

    open spec fn well_shaped(self) -> bool {
        self matches Some(value) && UnpackAbi::<T>::well_shaped(value)
    }

    open spec fn represents(self, out: T) -> bool {
        self matches Some(value) && UnpackAbi::<T>::represents(value, out)
    }

    fn unpack(self) -> (res: UnpackerResult<T>) {
        match self {
            Some(value) => value.unpack(),
            None => Err(UnpackerError::InvalidAbi),
        }
    }
}

} // verus!
