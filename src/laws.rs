//! Laws that relate the operations of `Context`, stated over the map from
//! type identity to `Mode` that each operation's contract speaks of.
use crate::data::Mode;
use std::any::TypeId;
use vstd::prelude::*;

verus! {

/// After a value is stored under `key`, there is an entry for `key`, held
/// the way the value was stored.
pub proof fn stored_entry_is_present(
    before: Map<TypeId, Mode>,
    after: Map<TypeId, Mode>,
    key: TypeId,
    mode: Mode,
)
    requires
        after == before.insert(key, mode),
    ensures
        after.contains_key(key),
        after[key] == mode,
{
}

/// Whatever the identity of the stored type, an insert leaves an entry of
/// the mode it stored.
pub proof fn insert_leaves_entry_of_its_mode(
    before: Map<TypeId, Mode>,
    after: Map<TypeId, Mode>,
    mode: Mode,
)
    requires
        exists|k: TypeId| #[trigger] before.insert(k, mode) == after,
    ensures
        exists|k: TypeId| #[trigger] after.contains_key(k) && after[k] == mode,
{
    let k = choose|k: TypeId| #[trigger] before.insert(k, mode) == after;
    assert(after.contains_key(k));
}

/// An entry stored as a shared borrow stays one until it is replaced or
/// removed, so no mutable reference is handed out for it.
pub proof fn shared_entry_stays_shared(
    before: Map<TypeId, Mode>,
    after: Map<TypeId, Mode>,
    key: TypeId,
)
    requires
        after == before.insert(key, Mode::Shared),
    ensures
        after[key] == Mode::Shared,
        after[key] != Mode::Owned && after[key] != Mode::Exclusive,
{
}

/// Storing twice under one identity keeps only the second entry: the
/// context is as if the first had never been stored.
pub proof fn reinsert_replaces(
    start: Map<TypeId, Mode>,
    key: TypeId,
    first: Mode,
    second: Mode,
)
    ensures
        start.insert(key, first).insert(key, second) == start.insert(key, second),
{
    assert(start.insert(key, first).insert(key, second) =~= start.insert(key, second));
}

/// Taking or removing the entry for an identity leaves no entry for it,
/// whatever its mode was, and leaves every other entry as it was.
pub proof fn removal_consumes_entry(
    before: Map<TypeId, Mode>,
    after: Map<TypeId, Mode>,
    key: TypeId,
)
    requires
        after == before.remove(key),
    ensures
        !after.contains_key(key),
        forall|k: TypeId|
            k != key ==> (#[trigger] after.contains_key(k) == before.contains_key(k)) && (
            before.contains_key(k) ==> after[k] == before[k]),
{
}

/// After two values are changed through the handles of one disjoint access,
/// each identity's entry is what its own handle left, and no other entry
/// has changed.
pub proof fn disjoint_handles_are_independent(
    before: Map<TypeId, Mode>,
    after: Map<TypeId, Mode>,
    a: TypeId,
    b: TypeId,
    left_a: Mode,
    left_b: Mode,
)
    requires
        a != b,
        before.contains_key(a),
        before.contains_key(b),
        after.dom() == before.dom(),
        after[a] == left_a,
        after[b] == left_b,
        forall|k: TypeId| k != a && k != b ==> after[k] == #[trigger] before[k],
    ensures
        after == before.insert(a, left_a).insert(b, left_b),
{
    assert(after =~= before.insert(a, left_a).insert(b, left_b));
}

/// After clearing, no identity has an entry.
pub proof fn cleared_has_no_entry(after: Map<TypeId, Mode>, key: TypeId)
    requires
        after == Map::<TypeId, Mode>::empty(),
    ensures
        !after.contains_key(key),
{
}

} // verus!
