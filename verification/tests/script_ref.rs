use bevy_script_api::error::{ReflectionError, TypeTag};
use bevy_script_api::script_ref::{ScriptRef, Store};
use bevy_script_api::wrappers::WrappedValue;

const INT: TypeTag = TypeTag { id: 1 };
const OTHER: TypeTag = TypeTag { id: 8 };

#[test]
fn empty_store_resolves_nothing() {
    let mut store: Store<i32> = Store::new(INT);
    assert_eq!(store.type_tag(), INT);
    let handle = ScriptRef { tag: INT, index: 0 };
    assert_eq!(store.check(&handle), Err(ReflectionError::InvalidReference { index: 0 }));
    assert_eq!(handle.get(&mut store, |v| *v), Err(ReflectionError::InvalidReference { index: 0 }));
    assert!(!store.is_locked(&handle));
    assert_eq!(store.remove(&handle), None);
}

#[test]
fn insert_hands_out_successive_references() {
    let mut store: Store<i32> = Store::new(INT);
    let a = store.insert(10);
    let b = store.insert(20);
    assert_eq!(a, ScriptRef { tag: INT, index: 0 });
    assert_eq!(b, ScriptRef { tag: INT, index: 1 });
    assert_eq!(store.check(&a), Ok(()));
    assert_eq!(a.get(&mut store, |v| *v), Ok(10));
    assert_eq!(b.get(&mut store, |v| *v), Ok(20));
}

#[test]
fn get_hands_back_what_the_accessor_returns() {
    let mut store: Store<String> = Store::new(OTHER);
    let handle = store.insert(String::from("hello"));
    assert_eq!(handle.get(&mut store, |v| v.len()), Ok(5));
    assert_eq!(handle.get(&mut store, |v| v.to_uppercase()), Ok(String::from("HELLO")));
    assert_eq!(handle.get(&mut store, |v| v.clone()), Ok(String::from("hello")));
}

#[test]
fn get_mut_changes_only_the_referent() {
    let mut store: Store<i32> = Store::new(INT);
    let a = store.insert(10);
    let b = store.insert(20);
    assert_eq!(a.get_mut(&mut store, |v| { *v += 1; *v * 2 }), Ok(22));
    assert_eq!(a.get(&mut store, |v| *v), Ok(11));
    assert_eq!(b.get(&mut store, |v| *v), Ok(20));
}

#[test]
fn get_mut_proceeds_under_a_hold() {
    let mut store: Store<i32> = Store::new(INT);
    let a = store.insert(10);
    assert_eq!(a.lock_read(&mut store), Ok(()));
    assert_eq!(a.get_mut(&mut store, |v| *v = 5), Ok(()));
    assert_eq!(a.get(&mut store, |v| *v), Ok(5));
    assert!(store.is_locked(&a));
}

#[test]
fn accessor_is_not_run_on_failure() {
    let mut store: Store<i32> = Store::new(INT);
    let good = store.insert(1);
    let mut ran = 0;
    let stale = ScriptRef { tag: INT, index: 1 };
    let foreign = ScriptRef { tag: OTHER, index: 0 };
    assert!(stale.get(&mut store, |_| ran += 1).is_err());
    assert!(stale.get_mut(&mut store, |_| ran += 1).is_err());
    assert!(foreign.get(&mut store, |_| ran += 1).is_err());
    assert!(foreign.get_mut(&mut store, |_| ran += 1).is_err());
    assert_eq!(ran, 0);
    assert!(good.get(&mut store, |_| ran += 1).is_ok());
    assert_eq!(ran, 1);
}

#[test]
fn tag_is_checked_before_the_slot() {
    let mut store: Store<i32> = Store::new(INT);
    let foreign = ScriptRef { tag: OTHER, index: 3 };
    assert_eq!(
        store.check(&foreign),
        Err(ReflectionError::CannotDowncast { expected: INT, found: OTHER })
    );
    assert_eq!(
        foreign.get_mut(&mut store, |v| *v = 0),
        Err(ReflectionError::CannotDowncast { expected: INT, found: OTHER })
    );
}

#[test]
fn remove_takes_a_host_value_away() {
    let mut store: Store<i32> = Store::new(INT);
    let a = store.insert(10);
    let b = store.insert(20);
    assert_eq!(store.remove(&a), Some(10));
    assert_eq!(store.remove(&a), None);
    assert_eq!(a.get(&mut store, |v| *v), Err(ReflectionError::InvalidReference { index: 0 }));
    assert_eq!(b.get(&mut store, |v| *v), Ok(20));
    assert_eq!(store.insert(30), ScriptRef { tag: INT, index: 2 });
    assert_eq!(a.get(&mut store, |v| *v), Err(ReflectionError::InvalidReference { index: 0 }));
}

#[test]
fn remove_does_not_consult_the_lock() {
    let mut store: Store<i32> = Store::new(INT);
    let a = store.insert(10);
    assert_eq!(a.lock_read(&mut store), Ok(()));
    assert_eq!(store.remove(&a), Some(10));
    assert!(!store.is_locked(&a));
    assert_eq!(a.unlock_read(&mut store), Err(ReflectionError::InvalidReference { index: 0 }));
}

#[test]
fn remove_leaves_script_owned_values() {
    let mut store: Store<i32> = Store::new(INT);
    let wrapper = WrappedValue::new(&mut store, 10);
    let handle = wrapper.script_ref();
    assert_eq!(store.remove(&handle), None);
    assert_eq!(wrapper.val(&mut store, |v| *v), Ok(10));
    assert_eq!(store.remove(&ScriptRef { tag: OTHER, index: 0 }), None);
    assert_eq!(wrapper.val(&mut store, |v| *v), Ok(10));
}

#[test]
fn holds_are_counted() {
    let mut store: Store<i32> = Store::new(INT);
    let a = store.insert(10);
    let b = store.insert(20);
    assert!(!store.is_locked(&a));
    assert_eq!(a.lock_read(&mut store), Ok(()));
    assert_eq!(a.lock_read(&mut store), Ok(()));
    assert!(store.is_locked(&a));
    assert!(!store.is_locked(&b));
    assert_eq!(a.unlock_read(&mut store), Ok(()));
    assert!(store.is_locked(&a));
    assert_eq!(a.unlock_read(&mut store), Ok(()));
    assert!(!store.is_locked(&a));
}

#[test]
fn unlock_without_a_hold_is_an_error() {
    let mut store: Store<i32> = Store::new(INT);
    let _first = store.insert(10);
    let b = store.insert(20);
    assert_eq!(b.unlock_read(&mut store), Err(ReflectionError::NotHeld { index: 1 }));
    assert_eq!(b.lock_read(&mut store), Ok(()));
    assert_eq!(b.unlock_read(&mut store), Ok(()));
    assert_eq!(b.unlock_read(&mut store), Err(ReflectionError::NotHeld { index: 1 }));
    assert!(!store.is_locked(&b));
}

#[test]
fn lock_through_a_stale_reference_fails() {
    let mut store: Store<i32> = Store::new(INT);
    let stale = ScriptRef { tag: INT, index: 4 };
    assert_eq!(stale.lock_read(&mut store), Err(ReflectionError::InvalidReference { index: 4 }));
    assert_eq!(stale.unlock_read(&mut store), Err(ReflectionError::InvalidReference { index: 4 }));
}

#[test]
fn apply_copies_the_source() {
    let mut store: Store<Vec<u8>> = Store::new(OTHER);
    let source = store.insert(vec![1, 2]);
    let mut target = store.insert(vec![9]);
    assert_eq!(target.apply(&mut store, &source), Ok(()));
    assert_eq!(target.get(&mut store, |v| v.clone()), Ok(vec![1, 2]));
    assert_eq!(source.get_mut(&mut store, |v| v.push(3)), Ok(()));
    assert_eq!(target.get(&mut store, |v| v.clone()), Ok(vec![1, 2]));
    assert_eq!(source.get(&mut store, |v| v.clone()), Ok(vec![1, 2, 3]));
}

#[test]
fn apply_fails_before_it_writes() {
    let mut store: Store<i32> = Store::new(INT);
    let mut target = store.insert(1);
    let stale = ScriptRef { tag: INT, index: 5 };
    assert_eq!(
        target.apply(&mut store, &stale),
        Err(ReflectionError::InvalidReference { index: 5 })
    );
    assert_eq!(target.get(&mut store, |v| *v), Ok(1));
    let mut missing = ScriptRef { tag: INT, index: 6 };
    assert_eq!(
        missing.apply(&mut store, &stale),
        Err(ReflectionError::InvalidReference { index: 6 })
    );
}
