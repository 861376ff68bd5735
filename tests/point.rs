use sp_jni::{to_ptr, to_status, to_status_replace, to_status_use, PointStore, SpError, ToJavaPoint};

#[test]
fn opaque_pointer_round_trip() {
    let mut store = PointStore::new();
    let h = to_ptr(&mut store, 42);
    {
        let v = to_status_use(&mut store, h).unwrap();
        assert_eq!(*v, 42);
        *v = 7;
    }
    let b = to_status(&mut store, h).unwrap();
    assert_eq!(*b, 7);
    assert_eq!(to_status_use(&mut store, h).err(), Some(SpError::NullHandle));
    assert_eq!(to_status(&mut store, h).err(), Some(SpError::NullHandle));
}

#[test]
fn replace_in_place_applies_transform() {
    let mut store = PointStore::new();
    let h = to_ptr(&mut store, 5);
    assert_eq!(to_status_replace(&mut store, h, |v| v + 1), Ok(()));
    assert_eq!(*to_status_use(&mut store, h).unwrap(), 6);
}

#[test]
fn replace_on_dead_handle_fails() {
    let mut store = PointStore::new();
    let h = to_ptr(&mut store, String::from("a"));
    let _ = to_status(&mut store, h).unwrap();
    assert_eq!(
        to_status_replace(&mut store, h, |s: String| s + "b"),
        Err(SpError::NullHandle)
    );
}

#[test]
fn null_handle_is_refused() {
    let mut store: PointStore<u32> = PointStore::new();
    assert_eq!(to_status_use(&mut store, 0).err(), Some(SpError::NullHandle));
    assert_eq!(to_status(&mut store, 0).err(), Some(SpError::NullHandle));
    assert_eq!(to_status_replace(&mut store, 0, |v| v), Err(SpError::NullHandle));
    assert_eq!(to_status_use(&mut store, 3).err(), Some(SpError::NullHandle));
}

#[test]
fn reclaimed_handle_is_not_reused() {
    let mut store = PointStore::new();
    let a = to_ptr(&mut store, 1u8);
    let _ = to_status(&mut store, a).unwrap();
    let b = to_ptr(&mut store, 2u8);
    assert_ne!(a, b);
    assert_eq!(to_status_use(&mut store, a).err(), Some(SpError::NullHandle));
    assert_eq!(*to_status_use(&mut store, b).unwrap(), 2);
}

#[test]
fn handles_are_independent() {
    let mut store = PointStore::new();
    let a = to_ptr(&mut store, vec![1, 2]);
    let b = to_ptr(&mut store, vec![3]);
    to_status_use(&mut store, a).unwrap().push(9);
    assert_eq!(*to_status(&mut store, b).unwrap(), vec![3]);
    assert_eq!(*to_status(&mut store, a).unwrap(), vec![1, 2, 9]);
}

#[test]
fn handle_converts_to_host_integer() {
    let p: usize = 12345;
    assert_eq!(p.to_point(), 12345i64);
    assert_eq!(0usize.to_point(), 0i64);
}
