//! When the view of a std map can be trusted: the conditions under which
//! `vstd` specifies `BTreeMap` and `HashMap`.

use vstd::prelude::*;

verus! {

/// Whether the order of `K` is the one that `vstd` models, so that a
/// `BTreeMap` keyed by `K` behaves as its view says. It holds of the
/// primitive integers.
pub open spec fn ordered_keys_modelled<K: Ord>() -> bool {
    vstd::laws_cmp::obeys_cmp::<K>()
}

/// Whether equality and hashing of `K`, with hashers built by `S`, are the
/// ones that `vstd` models, so that a `HashMap` keyed by `K` behaves as its
/// view says. It holds of the primitive integers with the default hasher.
pub open spec fn hashed_keys_modelled<K, S>() -> bool {
    vstd::std_specs::hash::obeys_key_model::<K>()
        && vstd::std_specs::hash::builds_valid_hashers::<S>()
}

} // verus!
