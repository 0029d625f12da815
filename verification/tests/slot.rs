use iris_ls::slot::OnceSlot;

#[test]
fn a_new_slot_is_empty() {
    let slot: OnceSlot<u32> = OnceSlot::new();
    assert!(!slot.is_set());
    assert_eq!(slot.get(), None);
}

#[test]
fn the_first_write_is_kept() {
    let mut slot = OnceSlot::new();
    assert_eq!(slot.set(String::from("first")), Ok(()));
    assert!(slot.is_set());
    assert_eq!(slot.get(), Some(&String::from("first")));
    assert_eq!(slot.value(), "first");
}

#[test]
fn a_second_write_is_handed_back() {
    let mut slot = OnceSlot::new();
    assert_eq!(slot.set(1u8), Ok(()));
    assert_eq!(slot.set(2u8), Err(2u8));
    assert_eq!(slot.set(3u8), Err(3u8));
    assert_eq!(slot.get(), Some(&1u8));
    assert_eq!(*slot.value(), 1u8);
}

#[test]
fn a_slot_can_hold_an_absent_value() {
    let mut slot: OnceSlot<Option<u8>> = OnceSlot::new();
    assert_eq!(slot.set(None), Ok(()));
    assert!(slot.is_set());
    assert_eq!(slot.get(), Some(&None));
    assert_eq!(slot.set(Some(7)), Err(Some(7)));
    assert_eq!(slot.get(), Some(&None));
}
