use crate::data::{Data, Mode};
use crate::type_map::{held_modes, TypeMap};
use better_any::Tid;
use std::any::TypeId;
use vstd::prelude::*;

verus! {

/// Relies on better_any's `Tid::id`: the runtime identity of `T`.
#[verifier::external_body]
fn type_key<'ty, T: Tid<'ty>>() -> (r: TypeId) {
    T::id()
}

/// Runtime context storing values by type.
///
/// A value is held owned, behind a shared borrow, or behind an exclusive
/// borrow; each type identity has at most one entry.
pub struct Context<'ty, 'r> {
    data: TypeMap<'ty, 'r>,
}

impl<'ty, 'r> View for Context<'ty, 'r> {
    type V = Map<TypeId, Mode>;

    /// The stored type identities, each with how its value is held.
    closed spec fn view(&self) -> Map<TypeId, Mode> {
        held_modes(self.data)
    }
}

impl<'ty, 'r> Default for Context<'ty, 'r> {
    fn default() -> (r: Self)
        ensures
            (r@ == Map::<TypeId, Mode>::empty()),
    {
        Self::new()
    }
}

impl<'ty, 'r> Context<'ty, 'r> {
    /// Creates an empty context.
    pub fn new() -> (r: Self)
        ensures
            (r@ == Map::<TypeId, Mode>::empty()),
    {
        Context { data: TypeMap::new() }
    }

    /// Stores `data` under `key`, replacing any earlier entry for it. The
    /// caller vouches that `key` is the identity of the value's type.
    pub fn insert_unchecked(&mut self, key: TypeId, data: Data<'ty, 'r>)
        ensures
            final(self)@ == old(self)@.insert(key, data.mode()),
    {
        self.data.insert(key, data);
    }

    /// Stores a shared borrow of `value` under the identity of `T`.
    pub fn insert_ref<T: Tid<'ty> + Send + Sync>(&mut self, value: &'r T)
        ensures
            exists|k: TypeId| #[trigger] old(self)@.insert(k, Mode::Shared) == final(self)@,
    {
        let key = type_key::<T>();
        self.insert_unchecked(key, Data::borrowed(value));
        assert(old(self)@.insert(key, Mode::Shared) == self@);
    }

    /// Stores an exclusive borrow of `value` under the identity of `T`.
    pub fn insert_mut<T: Tid<'ty> + Send + Sync>(&mut self, value: &'r mut T)
        ensures
            exists|k: TypeId| #[trigger] old(self)@.insert(k, Mode::Exclusive) == final(self)@,
    {
        let key = type_key::<T>();
        self.insert_unchecked(key, Data::exclusive(value));
        assert(old(self)@.insert(key, Mode::Exclusive) == self@);
    }

    /// Stores `value`, owned, under the identity of `T`.
    pub fn insert<T: Tid<'ty> + Send + Sync>(&mut self, value: T)
        ensures
            exists|k: TypeId| #[trigger] old(self)@.insert(k, Mode::Owned) == final(self)@,
    {
        let key = type_key::<T>();
        self.insert_unchecked(key, Data::owned(value));
        assert(old(self)@.insert(key, Mode::Owned) == self@);
    }
    /// A shared reference to the stored `T`, whatever the entry's mode.
    pub fn get<'b, T: Tid<'ty>>(&'b self) -> (r: Option<&'b T>)
        ensures
            r is Some ==> exists|k: TypeId| #[trigger] self@.contains_key(k),
    {
        let key = type_key::<T>();
        match self.data.get(&key) {
            Some(d) => {
                assert(self@.contains_key(key));
                d.downcast_ref()
            },
            None => None,
        }
    }

    /// A mutable reference to the stored `T`; never one for a shared borrow.
    /// The entries and their modes stay as they were.
    pub fn get_mut<'b, T: Tid<'ty>>(&'b mut self) -> (r: Option<&'b mut T>)
        ensures
            final(self)@ == old(self)@,
            r is Some ==> exists|k: TypeId| #[trigger]
                old(self)@.contains_key(k) && old(self)@[k] != Mode::Shared,
    {
        let key = type_key::<T>();
        match self.data.get_mut(&key) {
            Some(d) => {
                assert(old(self)@.contains_key(key));
                d.downcast_mut()
            },
            None => None,
        }
    }

    /// The stored value under `id`, whatever its type.
    pub fn get_data<'b>(&'b self, id: &TypeId) -> (r: Option<&'b Data<'ty, 'r>>)
        ensures
            r is Some <==> self@.contains_key(*id),
            r matches Some(d) ==> d.mode() == self@[*id],
    {
        self.data.get(id)
    }

    /// The stored value under `id`, to be changed in place.
    pub fn get_data_mut<'b>(&'b mut self, id: &TypeId) -> (r: Option<&'b mut Data<'ty, 'r>>)
        ensures
            r is Some <==> old(self)@.contains_key(*id),
            r is Some ==> (*r->Some_0).mode() == old(self)@[*id],
            r is Some ==> final(self)@ == old(self)@.insert(*id, (*final(r->Some_0)).mode()),
            r is None ==> final(self)@ == old(self)@,
    {
        self.data.get_mut(id)
    }

    /// The stored values under `keys`, which are pairwise distinct, each to
    /// be changed in place independently of the others.
    pub fn get_disjoint_mut<'b, const N: usize>(&'b mut self, keys: [&TypeId; N]) -> (r: [Option<
        &'b mut Data<'ty, 'r>,
    >; N])
        requires
            forall|i: int, j: int| 0 <= i < j < N ==> *keys@[i] != *keys@[j],
        ensures
            forall|i: int|
                0 <= i < N ==> (#[trigger] r@[i] is Some <==> old(self)@.contains_key(*keys@[i])),
            forall|i: int|
                0 <= i < N && #[trigger] r@[i] is Some ==> (*r@[i]->Some_0).mode() == old(
                    self,
                )@[*keys@[i]],
            final(self)@.dom() == old(self)@.dom(),
            forall|k: TypeId|
                (forall|i: int| 0 <= i < N ==> *keys@[i] != k) ==> final(self)@[k]
                    == #[trigger] old(self)@[k],
            forall|i: int|
                0 <= i < N && #[trigger] r@[i] is Some ==> final(self)@[*keys@[i]]
                    == (*final(r@[i]->Some_0)).mode(),
    {
        self.data.get_disjoint_mut(keys)
    }

    /// Removes the entry for `T` whatever its mode, and returns the value
    /// when it was owned and is a `T`. A borrowed entry is dropped too.
    pub fn take<T: Tid<'ty>>(&mut self) -> (r: Option<T>)
        ensures
            exists|k: TypeId|
                #[trigger] old(self)@.remove(k) == final(self)@ && (r is Some
                    ==> old(self)@.contains_key(k) && old(self)@[k] == Mode::Owned),
    {
        let key = type_key::<T>();
        let r = match self.data.remove(&key) {
            Some(data) => match data.try_take_owned::<T>() {
                Ok(v) => Some(v),
                Err(_) => None,
            },
            None => None,
        };
        assert(old(self)@.remove(key) == self@);
        r
    }

    /// Removes the entry for `T`, whatever its mode, and returns it.
    pub fn remove<T: Tid<'ty>>(&mut self) -> (r: Option<Data<'ty, 'r>>)
        ensures
            exists|k: TypeId|
                #[trigger] old(self)@.remove(k) == final(self)@ && (r is Some
                    <==> old(self)@.contains_key(k)) && (r matches Some(d) ==> d.mode() == old(
                    self,
                )@[k]),
    {
        let key = type_key::<T>();
        let r = self.data.remove(&key);
        assert(old(self)@.remove(key) == self@);
        r
    }

    /// Whether there is an entry for `T`.
    pub fn contains<T: Tid<'ty>>(&self) -> (r: bool)
        ensures
            exists|k: TypeId| r == #[trigger] self@.contains_key(k),
    {
        let key = type_key::<T>();
        let r = self.data.contains_key(&key);
        assert(r == self@.contains_key(key));
        r
    }

    /// Removes every entry: owned values are dropped, borrowed ones released.
    pub fn clear(&mut self)
        ensures
            (final(self)@ == Map::<TypeId, Mode>::empty()),
    {
        self.data.clear();
    }
}

} // verus!
