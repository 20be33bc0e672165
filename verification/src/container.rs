//! Lists, optional values, and the wrappers that only own what they hold.

use crate::error::{UnpackerError, UnpackerResult};
use crate::token::{
    Cell, Grams, MaybeRef, MsgAddrStd, MsgAddress, MsgAddressInt, ParamType, TokenValue, UInt256,
};
use crate::unpack::{single_valued, UnpackAbi};
use num_bigint::{BigInt, BigUint};
use std::collections::{BTreeMap, HashMap};
use std::sync::Arc;
use vstd::prelude::*;

verus! {

/// The native types that may be the items of a decoded list.
///
/// `u8` is not among them: a `Vec<u8>` is read from a byte string, never from
/// a list of numbers.
pub trait StandaloneToken {

}

impl StandaloneToken for i8 {

}

impl StandaloneToken for i16 {

}

impl StandaloneToken for i32 {

}

impl StandaloneToken for i64 {

}

impl StandaloneToken for i128 {

}

impl StandaloneToken for u16 {

}

impl StandaloneToken for u32 {

}

impl StandaloneToken for u64 {

}

impl StandaloneToken for u128 {

}

impl StandaloneToken for bool {

}

impl StandaloneToken for BigInt {

}

impl StandaloneToken for BigUint {

}

impl StandaloneToken for UInt256 {

}

impl StandaloneToken for Cell {

}

impl StandaloneToken for Grams {

}

impl StandaloneToken for MsgAddress {

}

impl StandaloneToken for MsgAddressInt {

}

impl StandaloneToken for MsgAddrStd {

}

impl StandaloneToken for String {

}

impl StandaloneToken for TokenValue {

}

impl<T: StandaloneToken> StandaloneToken for Vec<T> {

}

impl<T: StandaloneToken> StandaloneToken for Option<T> {

}

impl<T: StandaloneToken> StandaloneToken for MaybeRef<T> {

}

impl<T: StandaloneToken> StandaloneToken for Box<T> {

}

impl<T: StandaloneToken> StandaloneToken for Arc<T> {

}

impl<K: StandaloneToken, V: StandaloneToken> StandaloneToken for BTreeMap<K, V> {

}

impl<K: StandaloneToken, V: StandaloneToken, S> StandaloneToken for HashMap<K, V, S> {

}

/// The items of a list, whether its length is free or fixed; `None` for
/// every other value.
pub open spec fn list_items(value: TokenValue) -> Option<Seq<TokenValue>> {
    match value {
        TokenValue::Array(_, items) => Some(items@),
        TokenValue::FixedArray(_, _, items) => Some(items@),
        _ => None,
    }
}

/// A list, item by item and in order. One item that is refused refuses the
/// list, and nothing of it is returned.
impl<T> UnpackAbi<Vec<T>> for TokenValue where TokenValue: UnpackAbi<T>, T: StandaloneToken {
    open spec fn variant_matches(self) -> bool {
        list_items(self) is Some
    }

    open spec fn well_shaped(self) -> bool {
        list_items(self) matches Some(items) && forall|i: int|
            0 <= i < items.len() ==> UnpackAbi::<T>::well_shaped(#[trigger] items[i])
    }

    open spec fn represents(self, out: Vec<T>) -> bool {
        list_items(self) matches Some(items) && out@.len() == items.len() && forall|i: int|
            0 <= i < items.len() ==> UnpackAbi::<T>::represents(#[trigger] items[i], out@[i])
    }

    fn unpack(self) -> (res: UnpackerResult<Vec<T>>) {
        match self {
            TokenValue::Array(_, tokens) | TokenValue::FixedArray(_, _, tokens) => {
                let mut vec: Vec<T> = Vec::with_capacity(tokens.len());
                for token in it: tokens.into_iter()
                    invariant
                        list_items(self) == Some(it.seq()),
                        vec@.len() == it.index(),
                        forall|i: int|
                            0 <= i < vec@.len() ==> {
                                &&& UnpackAbi::<T>::well_shaped(#[trigger] it.seq()[i])
                                &&& UnpackAbi::<T>::represents(it.seq()[i], vec@[i])
                            },
                {
                    assert(list_items(self).unwrap()[vec@.len() as int] == token);
                    vec.push(token.unpack()?);
                }
                Ok(vec)
            },
            _ => Err(UnpackerError::InvalidAbi),
        }
    }
}

/// A value that may be absent: nothing from nothing, and from a present
/// value what `T` makes of it.
impl<T> UnpackAbi<Option<T>> for TokenValue where TokenValue: UnpackAbi<T> {
    open spec fn variant_matches(self) -> bool {
        self is Optional
    }

    open spec fn well_shaped(self) -> bool {
        self matches TokenValue::Optional(_, item) && (item matches Some(inner)
            ==> UnpackAbi::<T>::well_shaped(*inner))
    }

    open spec fn represents(self, out: Option<T>) -> bool {
        self matches TokenValue::Optional(_, item) && match item {
            Some(inner) => out matches Some(native) && UnpackAbi::<T>::represents(*inner, native),
            None => out is None,
        }
    }

    fn unpack(self) -> (res: UnpackerResult<Option<T>>) {
        match self {
            TokenValue::Optional(_, item) => match item {
                Some(item) => {
                    let native: T = UnpackAbi::<T>::unpack(*item)?;
                    Ok(Some(native))
                },
                None => Ok(None),
            },
            _ => Err(UnpackerError::InvalidAbi),
        }
    }
}

/// An absent value decodes, whatever `T` is, and to an absent native value.
pub proof fn lemma_optional_absent<T>(declared: ParamType, out: Option<T>) where
    TokenValue: UnpackAbi<T>,
    ensures
        UnpackAbi::<Option<T>>::well_shaped(TokenValue::Optional(declared, None)),
        UnpackAbi::<Option<T>>::represents(TokenValue::Optional(declared, None), out)
            <==> out is None,
{
}

/// A present value decodes exactly when the value inside decodes as `T`, and
/// to a present native value: the one that the value inside stands for.
pub proof fn lemma_optional_present<T>(
    declared: ParamType,
    inner: TokenValue,
    out: Option<T>,
) where TokenValue: UnpackAbi<T>
    ensures
        UnpackAbi::<Option<T>>::well_shaped(TokenValue::Optional(declared, Some(Box::new(inner))))
            <==> UnpackAbi::<T>::well_shaped(inner),
        UnpackAbi::<Option<T>>::represents(
            TokenValue::Optional(declared, Some(Box::new(inner))),
            out,
        ) <==> (out matches Some(native) && UnpackAbi::<T>::represents(inner, native)),
{
}

/// A value that may be absent and that is stored by reference where it is
/// present: the reference is followed. A present value of any other variant
/// is refused.
impl<T> UnpackAbi<MaybeRef<T>> for TokenValue where TokenValue: UnpackAbi<T> {
    open spec fn variant_matches(self) -> bool {
        self is Optional
    }

    open spec fn well_shaped(self) -> bool {
        self matches TokenValue::Optional(_, item) && (item matches Some(inner) ==> {
            &&& *inner matches TokenValue::Ref(target)
            &&& UnpackAbi::<T>::well_shaped(*target)
        })
    }

    open spec fn represents(self, out: MaybeRef<T>) -> bool {
        self matches TokenValue::Optional(_, item) && match item {
            Some(inner) => {
                &&& *inner matches TokenValue::Ref(target)
                &&& out.0 matches Some(native)
                &&& UnpackAbi::<T>::represents(*target, native)
            },
            None => out.0 is None,
        }
    }

    fn unpack(self) -> (res: UnpackerResult<MaybeRef<T>>) {
        match self {
            TokenValue::Optional(_, Some(item)) => match *item {
                TokenValue::Ref(item) => {
                    let native: T = UnpackAbi::<T>::unpack(*item)?;
                    Ok(MaybeRef(Some(native)))
                },
                _ => Err(UnpackerError::InvalidAbi),
            },
            TokenValue::Optional(_, None) => Ok(MaybeRef(None)),
            _ => Err(UnpackerError::InvalidAbi),
        }
    }
}

/// What `T` makes of the value, in a box. The box asks nothing of the value.
impl<T> UnpackAbi<Box<T>> for TokenValue where TokenValue: UnpackAbi<T> {
    open spec fn variant_matches(self) -> bool {
        UnpackAbi::<T>::variant_matches(self)
    }

    open spec fn well_shaped(self) -> bool {
        UnpackAbi::<T>::well_shaped(self)
    }

    open spec fn represents(self, out: Box<T>) -> bool {
        UnpackAbi::<T>::represents(self, *out)
    }

    fn unpack(self) -> (res: UnpackerResult<Box<T>>) {
        let native: T = UnpackAbi::<T>::unpack(self)?;
        Ok(Box::new(native))
    }
}

/// What `T` makes of the value, behind a shared pointer. The pointer asks
/// nothing of the value.
impl<T> UnpackAbi<Arc<T>> for TokenValue where TokenValue: UnpackAbi<T> {
    open spec fn variant_matches(self) -> bool {
        UnpackAbi::<T>::variant_matches(self)
    }

    open spec fn well_shaped(self) -> bool {
        UnpackAbi::<T>::well_shaped(self)
    }

    open spec fn represents(self, out: Arc<T>) -> bool {
        UnpackAbi::<T>::represents(self, *out)
    }

    fn unpack(self) -> (res: UnpackerResult<Arc<T>>) {
        let native: T = UnpackAbi::<T>::unpack(self)?;
        Ok(Arc::new(native))
    }
}

/// The wrappers keep a rule single-valued: where a value stands for one
/// `T` at most, it stands for one optional, referenced, boxed or shared `T`
/// at most.
pub proof fn lemma_wrappers_single_valued<T>() where TokenValue: UnpackAbi<T>
    requires
        single_valued::<T>(),
    ensures
        single_valued::<Option<T>>(),
        single_valued::<MaybeRef<T>>(),
        single_valued::<Box<T>>(),
        single_valued::<Arc<T>>(),
{
    assert forall|value: TokenValue, a: Option<T>, b: Option<T>|
        UnpackAbi::<Option<T>>::represents(value, a) && UnpackAbi::<Option<T>>::represents(
            value,
            b,
        ) implies a == b by {
        if let TokenValue::Optional(_, Some(inner)) = value {
            assert(UnpackAbi::<T>::represents(*inner, a.unwrap()));
            assert(UnpackAbi::<T>::represents(*inner, b.unwrap()));
        }
    }
    assert forall|value: TokenValue, a: MaybeRef<T>, b: MaybeRef<T>|
        UnpackAbi::<MaybeRef<T>>::represents(value, a) && UnpackAbi::<MaybeRef<T>>::represents(
            value,
            b,
        ) implies a == b by {
        if let TokenValue::Optional(_, Some(inner)) = value {
            if let TokenValue::Ref(target) = *inner {
                assert(UnpackAbi::<T>::represents(*target, a.0.unwrap()));
                assert(UnpackAbi::<T>::represents(*target, b.0.unwrap()));
            }
        }
    }
    assert forall|value: TokenValue, a: Box<T>, b: Box<T>|
        UnpackAbi::<Box<T>>::represents(value, a) && UnpackAbi::<Box<T>>::represents(
            value,
            b,
        ) implies a == b by {
        assert(UnpackAbi::<T>::represents(value, *a));
        assert(UnpackAbi::<T>::represents(value, *b));
    }
    assert forall|value: TokenValue, a: Arc<T>, b: Arc<T>|
        UnpackAbi::<Arc<T>>::represents(value, a) && UnpackAbi::<Arc<T>>::represents(
            value,
            b,
        ) implies a == b by {
        assert(UnpackAbi::<T>::represents(value, *a));
        assert(UnpackAbi::<T>::represents(value, *b));
    }
}

} // verus!
