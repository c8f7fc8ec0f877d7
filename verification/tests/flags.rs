use open_cl::device::{
    affinity_domain_from_info, device_type_from_info, exec_capabilities_from_info, DeviceError,
};
use open_cl::flags::{
    CommandQueueProperties, DeviceType, HostAccessMemFlags, KernelAccessMemFlags,
    MemAllocationMemFlags, MemFlags, MemLocationMemFlags,
};

#[test]
fn command_queue_properties_from_bits_refuses_unknown_bits() {
    assert_eq!(CommandQueueProperties::from_bits(16), None);
    assert_eq!(
        CommandQueueProperties::from_bits(3).map(|p| p.bits()),
        Some(3)
    );
}

#[test]
fn command_queue_properties_all_and_empty() {
    assert_eq!(CommandQueueProperties::all().bits(), 15);
    assert_eq!(CommandQueueProperties::empty().bits(), 0);
    assert_eq!(CommandQueueProperties::ON_DEVICE().bits(), 4);
    assert_eq!(CommandQueueProperties::ON_DEVICE_DEFAULT().bits(), 8);
    assert_eq!(CommandQueueProperties::OUT_OF_ORDER_EXEC_MODE_ENABLE().bits(), 1);
}

#[test]
fn mem_flags_union_and_contains() {
    let f = MemFlags::KERNEL_READ_WRITE().union(MemFlags::ALLOC_HOST_PTR());
    assert_eq!(f, MemFlags::READ_WRITE_ALLOC_HOST_PTR());
    assert!(f.contains(MemFlags::ALLOC_HOST_PTR()));
    assert!(!f.contains(MemFlags::COPY_HOST_PTR()));
    assert_eq!(MemFlags::READ_ONLY_ALLOC_HOST_PTR().bits(), 20);
    assert_eq!(MemFlags::WRITE_ONLY_ALLOC_HOST_PTR().bits(), 18);
    assert_eq!(MemFlags::all().bits(), 959);
}

#[test]
fn host_access_flags_round_trip_through_mem_flags() {
    let h = HostAccessMemFlags::NO_ACCESS();
    let m = MemFlags::from(h);
    assert_eq!(m.bits(), 512);
    assert_eq!(Option::<HostAccessMemFlags>::from(m), Some(h));
}

#[test]
fn kernel_access_flags_round_trip_through_mem_flags() {
    let k = KernelAccessMemFlags::WRITE_ONLY();
    assert_eq!(Option::<KernelAccessMemFlags>::from(MemFlags::from(k)), Some(k));
}

#[test]
fn mem_allocation_and_location_flags_round_trip_through_mem_flags() {
    let a = MemAllocationMemFlags::FORCE_COPY_TO_DEVICE();
    assert_eq!(MemFlags::from(a).bits(), 48);
    assert_eq!(Option::<MemAllocationMemFlags>::from(MemFlags::from(a)), Some(a));
    let l = MemLocationMemFlags::KEEP_IN_PLACE();
    assert_eq!(Option::<MemLocationMemFlags>::from(MemFlags::from(l)), Some(l));
}

#[test]
fn mem_flags_outside_a_group_do_not_convert() {
    let m = MemFlags::READ_WRITE_ALLOC_HOST_PTR();
    assert_eq!(Option::<HostAccessMemFlags>::from(m), None);
    assert_eq!(Option::<KernelAccessMemFlags>::from(m), None);
    assert_eq!(Option::<MemAllocationMemFlags>::from(m), None);
    assert_eq!(u64::from(m), 17);
}

#[test]
fn mem_flags_from_bits_unchecked_keeps_any_bits() {
    assert_eq!(MemFlags::from_bits_unchecked(1 << 20).bits(), 1 << 20);
    assert_eq!(MemFlags::from_bits(1 << 20), None);
}

#[test]
fn device_type_info_decodes_known_bits() {
    assert_eq!(device_type_from_info(4), Ok(DeviceType::GPU()));
    assert_eq!(device_type_from_info(0xFFFF_FFFF), Ok(DeviceType::ALL()));
    assert_eq!(
        device_type_from_info(1 << 40),
        Err(DeviceError::InvalidInfoValue)
    );
}

#[test]
fn exec_capabilities_and_affinity_info_decode() {
    assert_eq!(exec_capabilities_from_info(3).map(|c| c.bits()), Ok(3));
    assert_eq!(
        exec_capabilities_from_info(4).map(|c| c.bits()),
        Err(DeviceError::InvalidInfoValue)
    );
    assert_eq!(affinity_domain_from_info(32).map(|d| d.bits()), Ok(32));
    assert_eq!(
        affinity_domain_from_info(64).map(|d| d.bits()),
        Err(DeviceError::InvalidInfoValue)
    );
}

#[test]
fn flag_sets_round_trip_through_their_bits() {
    for p in [
        CommandQueueProperties::empty(),
        CommandQueueProperties::PROFILING_ENABLE(),
        CommandQueueProperties::ON_DEVICE().union(CommandQueueProperties::ON_DEVICE_DEFAULT()),
        CommandQueueProperties::all(),
    ] {
        assert_eq!(CommandQueueProperties::from_bits(p.bits()), Some(p));
    }
    for t in [DeviceType::CPU(), DeviceType::GPU().union(DeviceType::ACCELERATOR()), DeviceType::ALL()] {
        assert_eq!(DeviceType::from_bits(t.bits()), Some(t));
    }
}
