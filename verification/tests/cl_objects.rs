use open_cl::cl_object::{
    cl_context, cl_device_id, cl_event, cl_mem, CheckValidClObject, ClObject, ClObjectError,
    UNUSABLE_DEVICE_PTR,
};

#[test]
fn null_handles_are_refused() {
    assert_eq!(
        cl_mem::new(0).err(),
        Some(ClObjectError::NullPointer("cl_mem"))
    );
    assert_eq!(
        cl_context::null_ptr().check(),
        Err(ClObjectError::NullPointer("cl_context"))
    );
}

#[test]
fn unusable_device_address_is_refused() {
    assert_eq!(
        cl_device_id::new(UNUSABLE_DEVICE_PTR).err(),
        Some(ClObjectError::UnusableDeviceAddress)
    );
    assert_eq!(
        cl_device_id::null_ptr().check_valid_cl_object(),
        Err(ClObjectError::NullPointer("cl_device_id"))
    );
}

#[test]
fn other_addresses_are_accepted() {
    let d = cl_device_id::new(0x1000).unwrap();
    assert_eq!(d.address(), 0x1000);
    assert_eq!(d.check(), Ok(()));
    let e = cl_event::new(UNUSABLE_DEVICE_PTR).unwrap();
    assert_eq!(e.check_valid_cl_object(), Ok(()));
    assert_eq!(cl_event::cl_type_name(), "cl_event");
}
