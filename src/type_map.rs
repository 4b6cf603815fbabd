use crate::data::{Data, Mode};
use crate::hasher::TypeIdHasher;
use std::any::TypeId;
use std::collections::HashMap;
use std::hash::BuildHasherDefault;
use vstd::prelude::*;

verus! {

/// std's `TypeId`, held as an opaque runtime identity of a type.
#[verifier::external_type_specification]
#[verifier::external_body]
pub struct ExTypeId(TypeId);

/// A hash map from type identity to stored value, hashing each identity
/// with `TypeIdHasher`.
#[verifier::external_body]
pub struct TypeMap<'ty, 'r> {
    map: HashMap<TypeId, Data<'ty, 'r>, BuildHasherDefault<TypeIdHasher>>,
}

/// The identities in a map, each with how its value is held.
pub uninterp spec fn held_modes(m: TypeMap) -> Map<TypeId, Mode>;

impl<'ty, 'r> TypeMap<'ty, 'r> {
    /// Relies on `HashMap::default`: the new map is empty.
    #[verifier::external_body]
    pub(crate) fn new() -> (r: Self)
        ensures
            (held_modes(r) == Map::<TypeId, Mode>::empty()),
    {
        TypeMap { map: HashMap::default() }
    }

    /// Relies on `HashMap::insert`: the entry for `key` becomes `data`,
    /// replacing any earlier one.
    #[verifier::external_body]
    pub(crate) fn insert(&mut self, key: TypeId, data: Data<'ty, 'r>)
        ensures
            held_modes(*final(self)) == held_modes(*old(self)).insert(key, data.mode()),
    {
        self.map.insert(key, data);
    }

    /// Relies on `HashMap::get`: the entry for `key`, if any.
    #[verifier::external_body]
    pub(crate) fn get(&self, key: &TypeId) -> (r: Option<&Data<'ty, 'r>>)
        ensures
            r is Some <==> held_modes(*self).contains_key(*key),
            r matches Some(d) ==> d.mode() == held_modes(*self)[*key],
    {
        self.map.get(key)
    }

    /// Relies on `HashMap::get_mut`: the entry for `key`, if any, to be
    /// changed in place.
    #[verifier::external_body]
    pub(crate) fn get_mut(&mut self, key: &TypeId) -> (r: Option<&mut Data<'ty, 'r>>)
        ensures
            r is Some <==> held_modes(*old(self)).contains_key(*key),
            r is Some ==> (*r->Some_0).mode() == held_modes(*old(self))[*key],
            r is Some ==> held_modes(*final(self)) == held_modes(*old(self)).insert(
                *key,
                (*final(r->Some_0)).mode(),
            ),
            r is None ==> held_modes(*final(self)) == held_modes(*old(self)),
    {
        self.map.get_mut(key)
    }

    /// Relies on `HashMap::remove`: the entry for `key` leaves the map and
    /// is returned.
    #[verifier::external_body]
    pub(crate) fn remove(&mut self, key: &TypeId) -> (r: Option<Data<'ty, 'r>>)
        ensures
            held_modes(*final(self)) == held_modes(*old(self)).remove(*key),
            r is Some <==> held_modes(*old(self)).contains_key(*key),
            r matches Some(d) ==> d.mode() == held_modes(*old(self))[*key],
    {
        self.map.remove(key)
    }

    /// Relies on `HashMap::contains_key`.
    #[verifier::external_body]
    pub(crate) fn contains_key(&self, key: &TypeId) -> (r: bool)
        ensures
            r == held_modes(*self).contains_key(*key),
    {
        self.map.contains_key(key)
    }

    /// Relies on `HashMap::clear`: no entry is left.
    #[verifier::external_body]
    pub(crate) fn clear(&mut self)
        ensures
            (held_modes(*final(self)) == Map::<TypeId, Mode>::empty()),
    {
        self.map.clear();
    }
    /// Relies on `HashMap::get_disjoint_mut`: for each of `keys`, which are
    /// pairwise distinct, the entry for it, if any, to be changed in place.
    #[verifier::external_body]
    pub(crate) fn get_disjoint_mut<'b, const N: usize>(&'b mut self, keys: [&TypeId; N]) -> (r: [Option<
        &'b mut Data<'ty, 'r>,
    >; N])
        requires
            forall|i: int, j: int| 0 <= i < j < N ==> *keys@[i] != *keys@[j],
        ensures
            forall|i: int|
                0 <= i < N ==> (#[trigger] r@[i] is Some <==> held_modes(*old(self)).contains_key(
                    *keys@[i],
                )),
            forall|i: int|
                0 <= i < N && #[trigger] r@[i] is Some ==> (*r@[i]->Some_0).mode() == held_modes(
                    *old(self),
                )[*keys@[i]],
            held_modes(*final(self)).dom() == held_modes(*old(self)).dom(),
            forall|k: TypeId|
                (forall|i: int| 0 <= i < N ==> *keys@[i] != k) ==> held_modes(*final(self))[k]
                    == #[trigger] held_modes(*old(self))[k],
            forall|i: int|
                0 <= i < N && #[trigger] r@[i] is Some ==> held_modes(*final(self))[*keys@[i]]
                    == (*final(r@[i]->Some_0)).mode(),
    {
        self.map.get_disjoint_mut(keys)
    }
}

} // verus!
