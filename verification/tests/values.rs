use m8_bridge::value::Value;

#[test]
fn new_value_is_clean() {
    let mut v: Value<u8> = Value::new(100);
    assert_eq!(v.get(), 100);
    assert!(!v.changed());
}

#[test]
fn set_different_value_raises_dirty() {
    let mut v: Value<u8> = Value::new(10);
    v.set(11);
    assert_eq!(v.get(), 11);
    assert!(v.changed());
    // changed() also cleared the flag
    assert!(!v.changed());
}

#[test]
fn set_equal_value_leaves_dirty_unchanged() {
    let mut v: Value<u8> = Value::new(42);
    v.set(42);
    assert!(!v.changed());
    v.set(43);
    v.set(43);
    assert!(v.changed());
}

#[test]
fn coarse_add_steps_by_sixteen() {
    let mut v: Value<u8> = Value::new(100);
    v.add(16, 127);
    assert_eq!(v.get(), 116);
    assert!(v.changed());
}

#[test]
fn add_saturates_at_ceiling() {
    let mut v: Value<u8> = Value::new(116);
    v.add(16, 127);
    assert_eq!(v.get(), 127);
    v.add(16, 127);
    assert_eq!(v.get(), 127);
    v.add(1, 127);
    assert_eq!(v.get(), 127);
}

#[test]
fn add_at_ceiling_does_not_raise_dirty() {
    let mut v: Value<u8> = Value::new(127);
    assert!(!v.changed());
    v.add(16, 127);
    assert_eq!(v.get(), 127);
    assert!(!v.changed());
}

#[test]
fn sub_saturates_at_floor() {
    let mut v: Value<u8> = Value::new(10);
    v.sub(16, 0);
    assert_eq!(v.get(), 0);
    assert!(v.changed());
    v.sub(1, 0);
    assert_eq!(v.get(), 0);
    assert!(!v.changed());
}

#[test]
fn sub_respects_nonzero_floor() {
    let mut v: Value<u8> = Value::new(5);
    v.sub(2, 4);
    assert_eq!(v.get(), 4);
}

#[test]
fn set_changed_forces_retransmission() {
    let mut v: Value<u8> = Value::new(77);
    v.set_changed();
    assert_eq!(v.get(), 77);
    assert!(v.changed());
}

#[test]
fn bool_value_tracks_changes() {
    let mut v: Value<bool> = Value::new(false);
    v.set(false);
    assert!(!v.changed());
    v.set(true);
    assert!(v.get());
    assert!(v.changed());
}
