use openmm::Error;
use openmm::Handle;

#[test]
fn null_address_is_refused() {
    assert!(matches!(Handle::create(0), Err(Error::NullAllocation)));
}

#[test]
fn handle_keeps_its_address() {
    let mut handle = Handle::create(0x4000).unwrap();
    assert_eq!(handle.borrow_shared(), 0x4000);
    assert_eq!(handle.borrow_exclusive(), 0x4000);
    assert_eq!(handle.into_raw(), 0x4000);
}
