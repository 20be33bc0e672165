//! Mappings, into the ordered and the hashed map of std.

use crate::error::{UnpackerError, UnpackerResult};
use crate::keys::{hashed_keys_modelled, ordered_keys_modelled};
use crate::token::TokenValue;
use crate::unpack::{single_valued, UnpackAbi};
use std::collections::{BTreeMap, HashMap};
use std::hash::{BuildHasher, Hash};
use vstd::prelude::*;

verus! {

/// The pairs of a mapping, in the order in which it stores them; `None` for
/// every other value.
pub open spec fn mapping_pairs(value: TokenValue) -> Option<Seq<(TokenValue, TokenValue)>> {
    match value {
        TokenValue::Mapping(_, _, pairs) => Some(pairs@),
        _ => None,
    }
}

/// Whether every key can be decoded as `K` and every value as `V`.
pub open spec fn pairs_well_shaped<K, V>(pairs: Seq<(TokenValue, TokenValue)>) -> bool where
    TokenValue: UnpackAbi<K> + UnpackAbi<V>,
{
    forall|i: int|
        0 <= i < pairs.len() ==> {
            &&& UnpackAbi::<K>::well_shaped((#[trigger] pairs[i]).0)
            &&& UnpackAbi::<V>::well_shaped(pairs[i].1)
        }
}

/// Whether `keys` and `values` are, pair by pair and in order, native values
/// that the keys and values of `pairs` stand for.
pub open spec fn pairs_represent<K, V>(
    pairs: Seq<(TokenValue, TokenValue)>,
    keys: Seq<K>,
    values: Seq<V>,
) -> bool where TokenValue: UnpackAbi<K> + UnpackAbi<V> {
    &&& keys.len() == pairs.len()
    &&& values.len() == pairs.len()
    &&& forall|i: int|
        0 <= i < pairs.len() ==> {
            &&& UnpackAbi::<K>::represents((#[trigger] pairs[i]).0, keys[i])
            &&& UnpackAbi::<V>::represents(pairs[i].1, values[i])
        }
}

/// The map that is left when `values[i]` is put under `keys[i]` for each `i`
/// in turn: of two entries with one key the later one stays.
pub open spec fn collected<K, V>(keys: Seq<K>, values: Seq<V>) -> Map<K, V>
    decreases keys.len(),
{
    if keys.len() == 0 {
        Map::empty()
    } else {
        collected(keys.drop_last(), values.drop_last()).insert(keys.last(), values.last())
    }
}

/// A key is in the collected map exactly when it was put in.
pub proof fn lemma_collected_keys<K, V>(keys: Seq<K>, values: Seq<V>, key: K)
    ensures
        collected(keys, values).contains_key(key) <==> keys.contains(key),
    decreases keys.len(),
{
    if keys.len() > 0 {
        lemma_collected_keys(keys.drop_last(), values.drop_last(), key);
        if keys.contains(key) {
            let i = choose|i: int| 0 <= i < keys.len() && keys[i] == key;
            if i < keys.len() - 1 {
                assert(keys.drop_last()[i] == key);
            }
        }
        if keys.drop_last().contains(key) {
            let i = choose|i: int| 0 <= i < keys.drop_last().len() && keys.drop_last()[i] == key;
            assert(keys[i] == key);
        }
    }
}

/// The last write wins: under a key the collected map holds the value that
/// was put there last.
pub proof fn lemma_collected_last_wins<K, V>(keys: Seq<K>, values: Seq<V>, i: int)
    requires
        keys.len() == values.len(),
        0 <= i < keys.len(),
        forall|j: int| i < j < keys.len() ==> keys[j] != keys[i],
    ensures
        collected(keys, values).contains_key(keys[i]),
        collected(keys, values)[keys[i]] == values[i],
    decreases keys.len(),
{
    if i < keys.len() - 1 {
        assert(keys.last() != keys[i]);
        assert forall|j: int| i < j < keys.drop_last().len() implies keys.drop_last()[j]
            != keys.drop_last()[i] by {
            assert(keys[j] != keys[i]);
        }
        lemma_collected_last_wins(keys.drop_last(), values.drop_last(), i);
    }
}

/// The two kinds of map hold the same entries: what a mapping decodes to as
/// an ordered map and as a hashed map differs in the order of a walk only.
/// This is stated of key and value types whose rules are single-valued and
/// whose maps are modelled.
pub proof fn lemma_map_kinds_agree<K, V, S>(
    value: TokenValue,
    ordered: BTreeMap<K, V>,
    hashed: HashMap<K, V, S>,
) where K: Ord + Eq + Hash, TokenValue: UnpackAbi<K> + UnpackAbi<V>, S: BuildHasher + Default
    requires
        (UnpackAbi::<BTreeMap<K, V>>::represents(value, ordered)),
        (UnpackAbi::<HashMap<K, V, S>>::represents(value, hashed)),
        ordered_keys_modelled::<K>(),
        (hashed_keys_modelled::<K, S>()),
        single_valued::<K>(),
        single_valued::<V>(),
    ensures
        ordered@ == hashed@,
{
    let pairs = mapping_pairs(value).unwrap();
    let (keys, values) = choose|keys: Seq<K>, values: Seq<V>| #[trigger]
        pairs_represent(pairs, keys, values) && ordered@ == collected(keys, values);
    let (keys2, values2) = choose|keys: Seq<K>, values: Seq<V>| #[trigger]
        pairs_represent(pairs, keys, values) && hashed@ == collected(keys, values);
    assert forall|i: int| 0 <= i < pairs.len() implies keys[i] == keys2[i] && values[i]
        == values2[i] by {
        assert(UnpackAbi::<K>::represents(pairs[i].0, keys[i]));
        assert(UnpackAbi::<K>::represents(pairs[i].0, keys2[i]));
        assert(UnpackAbi::<V>::represents(pairs[i].1, values[i]));
        assert(UnpackAbi::<V>::represents(pairs[i].1, values2[i]));
    }
    assert(keys =~= keys2);
    assert(values =~= values2);
}

/// `HashMap::with_capacity_and_hasher` of std. Assumed: the map is empty.
#[verifier::external_body]
fn hash_map_with_capacity_and_hasher<K, V, S>(capacity: usize, hasher: S) -> (res: HashMap<K, V, S>)
    ensures
        res@.dom() == Set::<K>::empty(),
{
    HashMap::with_capacity_and_hasher(capacity, hasher)
}

/// A mapping, pair by pair in stored order, into an ordered map. One key or
/// value that is refused refuses the mapping.
///
/// What the map holds is stated where the order of `K` is modelled (see
/// [`ordered_keys_modelled`]); of other key types only the success is.
impl<K, V> UnpackAbi<BTreeMap<K, V>> for TokenValue where
    K: Ord,
    TokenValue: UnpackAbi<K> + UnpackAbi<V>,
{
    open spec fn variant_matches(self) -> bool {
        self is Mapping
    }

    open spec fn well_shaped(self) -> bool {
        mapping_pairs(self) matches Some(pairs) && pairs_well_shaped::<K, V>(pairs)
    }

    open spec fn represents(self, out: BTreeMap<K, V>) -> bool {
        mapping_pairs(self) matches Some(pairs) && (ordered_keys_modelled::<K>() ==> exists|
            keys: Seq<K>,
            values: Seq<V>,
        | #[trigger]
            pairs_represent(pairs, keys, values) && out@ == collected(keys, values))
    }

    fn unpack(self) -> (res: UnpackerResult<BTreeMap<K, V>>) {
        match self {
            TokenValue::Mapping(_, _, values) => {
                let mut map = BTreeMap::<K, V>::new();
                let ghost pairs = values@;
                let ghost mut keys: Seq<K> = Seq::empty();
                let ghost mut natives: Seq<V> = Seq::empty();
                for pair in it: values.into_iter()
                    invariant
                        it.seq() == pairs,
                        mapping_pairs(self) == Some(pairs),
                        pairs_well_shaped::<K, V>(pairs.take(it.index())),
                        pairs_represent(pairs.take(it.index()), keys, natives),
                        ordered_keys_modelled::<K>() ==> map@ == collected(keys, natives),
                {
                    let ghost done = pairs.take(it.index());
                    assert(pairs[it.index()] == pair);
                    let (key, value) = pair;
                    let key: K = UnpackAbi::<K>::unpack(key)?;
                    let value: V = UnpackAbi::<V>::unpack(value)?;
                    proof {
                        let next = pairs.take(it.index() + 1);
                        assert(next.drop_last() == done);
                        assert(next.last() == pair);
                        assert(keys.push(key).drop_last() == keys);
                        assert(natives.push(value).drop_last() == natives);
                        keys = keys.push(key);
                        natives = natives.push(value);
                    }
                    map.insert(key, value);
                }
                assert(pairs.take(pairs.len() as int) == pairs);
                Ok(map)
            },
            _ => Err(UnpackerError::InvalidAbi),
        }
    }
}

/// A mapping, pair by pair in stored order, into a hashed map. One key or
/// value that is refused refuses the mapping.
///
/// What the map holds is stated where equality and hashing of `K` are
/// modelled (see [`hashed_keys_modelled`]); of other key types only the
/// success is.
impl<K, V, S> UnpackAbi<HashMap<K, V, S>> for TokenValue where
    K: Eq + Hash,
    TokenValue: UnpackAbi<K> + UnpackAbi<V>,
    S: BuildHasher + Default,
{
    open spec fn variant_matches(self) -> bool {
        self is Mapping
    }

    open spec fn well_shaped(self) -> bool {
        mapping_pairs(self) matches Some(pairs) && pairs_well_shaped::<K, V>(pairs)
    }

    open spec fn represents(self, out: HashMap<K, V, S>) -> bool {
        mapping_pairs(self) matches Some(pairs) && (hashed_keys_modelled::<K, S>() ==> exists|
            keys: Seq<K>,
            values: Seq<V>,
        | #[trigger]
            pairs_represent(pairs, keys, values) && out@ == collected(keys, values))
    }

    fn unpack(self) -> (res: UnpackerResult<HashMap<K, V, S>>) {
        match self {
            TokenValue::Mapping(_, _, values) => {
                let mut map: HashMap<K, V, S> = hash_map_with_capacity_and_hasher(
                    values.len(),
                    Default::default(),
                );
                let ghost pairs = values@;
                let ghost mut keys: Seq<K> = Seq::empty();
                let ghost mut natives: Seq<V> = Seq::empty();
                assert(map@ =~= collected(keys, natives));
                for pair in it: values.into_iter()
                    invariant
                        it.seq() == pairs,
                        mapping_pairs(self) == Some(pairs),
                        pairs_well_shaped::<K, V>(pairs.take(it.index())),
                        pairs_represent(pairs.take(it.index()), keys, natives),
                        hashed_keys_modelled::<K, S>() ==> map@ == collected(keys, natives),
                {
                    let ghost done = pairs.take(it.index());
                    assert(pairs[it.index()] == pair);
                    let (key, value) = pair;
                    let key: K = UnpackAbi::<K>::unpack(key)?;
                    let value: V = UnpackAbi::<V>::unpack(value)?;
                    proof {
                        let next = pairs.take(it.index() + 1);
                        assert(next.drop_last() == done);
                        assert(next.last() == pair);
                        assert(keys.push(key).drop_last() == keys);
                        assert(natives.push(value).drop_last() == natives);
                        keys = keys.push(key);
                        natives = natives.push(value);
                    }
                    map.insert(key, value);
                }
                assert(pairs.take(pairs.len() as int) == pairs);
                Ok(map)
            },
            _ => Err(UnpackerError::InvalidAbi),
        }
    }
}

} // verus!
