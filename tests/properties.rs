use std::hash::Hasher;
use typed_context::{Context, Data, Mode, TypeIdHasher};

#[derive(Debug, Clone, PartialEq, Eq)]
struct Item(u32);

#[derive(Debug, Clone, PartialEq, Eq)]
struct Note(&'static str);

#[test]
fn inserted_value_is_returned_and_present() {
    let item = Item(41);
    let mut context = Context::new();
    context.insert(&item);
    assert_eq!(context.get::<&Item>(), Some(&&Item(41)));
    assert!(context.contains::<&Item>());
    assert!(!context.contains::<&Note>());
}

#[test]
fn shared_borrow_gives_no_mutable_reference() {
    let item = Item(3);
    let handle = &item;
    let mut context = Context::new();
    context.insert_ref(&handle);
    assert!(context.get_mut::<&Item>().is_none());
    assert_eq!(context.get::<&Item>(), Some(&&Item(3)));
}

#[test]
fn second_insert_replaces_first() {
    let first = Item(1);
    let second = Item(2);
    let mut context = Context::new();
    context.insert(&first);
    context.insert(&second);
    assert_eq!(context.get::<&Item>(), Some(&&Item(2)));
    assert!(context.take::<&Item>().is_some());
    assert!(!context.contains::<&Item>());
    assert!(context.get::<&Item>().is_none());
}

#[test]
fn take_of_borrowed_entry_drops_it() {
    let item = Item(5);
    let mut shared = &item;
    let mut context = Context::new();
    context.insert_ref(&shared);
    assert_eq!(context.take::<&Item>(), None);
    assert!(!context.contains::<&Item>());

    let mut other = Context::new();
    other.insert_mut(&mut shared);
    assert_eq!(other.take::<&Item>(), None);
    assert!(!other.contains::<&Item>());
}

#[test]
fn take_of_missing_entry_is_none() {
    let mut context: Context = Context::new();
    assert_eq!(context.take::<&Item>(), None);
    assert!(context.remove::<&Item>().is_none());
}

#[test]
fn clear_removes_every_type() {
    let item = Item(8);
    let note = Note("kept elsewhere");
    let note_handle = &note;
    let mut context = Context::new();
    context.insert(&item);
    context.insert_ref(&note_handle);
    context.clear();
    assert!(!context.contains::<&Item>());
    assert!(!context.contains::<&Note>());
    assert!(context.get::<&Item>().is_none());
    assert_eq!(note.0, "kept elsewhere");
}

#[test]
fn remove_then_take_owned_only_for_owned() {
    let item = Item(9);
    let handle = &item;
    let mut context = Context::new();

    context.insert(&item);
    let data = context.remove::<&Item>().unwrap();
    assert_eq!(data.get_mode(), Mode::Owned);
    assert!(matches!(data.try_take_owned::<&Item>(), Ok(&Item(9))));

    context.insert_ref(&handle);
    let data = context.remove::<&Item>().unwrap();
    assert_eq!(data.get_mode(), Mode::Shared);
    assert!(data.try_take_owned::<&Item>().is_err());
    assert!(!context.contains::<&Item>());
}

#[test]
fn into_owned_of_shared_entry_is_a_clone() {
    let a = Item(1);
    let b = Item(2);
    let list = vec![&a];
    let data = Data::borrowed(&list);
    let mut copy = match data.into_owned::<Vec<&Item>>() {
        Ok(v) => v,
        Err(_) => panic!("the shared value is a list of items"),
    };
    copy.push(&b);
    assert_eq!(copy.len(), 2);
    assert_eq!(list, vec![&Item(1)]);
}

#[test]
fn insert_unchecked_and_raw_access() {
    let item = Item(12);
    let key = better_any::typeid_of::<&Item>();
    let mut context = Context::default();
    context.insert_unchecked(key, Data::owned(&item));
    assert!(context.contains::<&Item>());
    assert_eq!(context.get_data(&key).unwrap().get_mode(), Mode::Owned);

    let data = context.get_data_mut(&key).unwrap();
    assert_eq!(data.downcast_mut::<&Item>().unwrap().0, 12);
    assert!(context.get_data(&better_any::typeid_of::<&Note>()).is_none());
}

#[test]
fn disjoint_access_to_a_missing_key_is_none() {
    let item = Item(4);
    let mut context = Context::new();
    context.insert(&item);
    let present = better_any::typeid_of::<&Item>();
    let missing = better_any::typeid_of::<&Note>();
    let [p, m] = context.get_disjoint_mut([&present, &missing]);
    assert!(m.is_none());
    assert_eq!(p.unwrap().get_mode(), Mode::Owned);
}

#[test]
fn hasher_passes_u64_through() {
    let mut hasher = TypeIdHasher::default();
    hasher.write_u64(0x1234_5678_9abc_def0);
    assert_eq!(hasher.finish(), 0x1234_5678_9abc_def0);
    hasher.write_u64(7);
    assert_eq!(hasher.finish(), 7);
}
