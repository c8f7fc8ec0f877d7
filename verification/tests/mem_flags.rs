use open_cl::flags::{
    cl_mem_flags, HostAccessMemFlags, KernelAccessMemFlags, MemAllocationMemFlags, MemFlags,
    MemLocationMemFlags,
};
use open_cl::mem;
use open_cl::mem_config;

#[test]
fn mem_kernel_access_read_only_conversion_into_kernel_access_mem_flag() {
    let kernel_access = mem::KernelAccess::ReadOnly;
    assert_eq!(KernelAccessMemFlags::from(kernel_access), KernelAccessMemFlags::READ_ONLY());
}

#[test]
fn mem_kernel_access_write_only_conversion_into_kernel_access_mem_flag() {
    let kernel_access = mem::KernelAccess::WriteOnly;
    assert_eq!(KernelAccessMemFlags::from(kernel_access), KernelAccessMemFlags::WRITE_ONLY());
}

#[test]
fn mem_kernel_access_convert_read_write_into_kernel_access_mem_flag() {
    let kernel_access = mem::KernelAccess::ReadWrite;
    assert_eq!(KernelAccessMemFlags::from(kernel_access), KernelAccessMemFlags::READ_WRITE());
}

#[test]
fn mem_host_access_read_only_conversion_into_host_access_mem_flag() {
    let host_access = mem::HostAccess::ReadOnly;
    assert_eq!(HostAccessMemFlags::from(host_access), HostAccessMemFlags::READ_ONLY());
}

#[test]
fn mem_host_access_write_only_conversion_into_host_access_mem_flag() {
    let host_access = mem::HostAccess::WriteOnly;
    assert_eq!(HostAccessMemFlags::from(host_access), HostAccessMemFlags::WRITE_ONLY());
}

#[test]
fn mem_host_access_read_write_conversion_into_host_access_mem_flag() {
    let host_access = mem::HostAccess::ReadWrite;
    assert_eq!(HostAccessMemFlags::from(host_access), HostAccessMemFlags::READ_WRITE());
}

#[test]
fn mem_host_access_no_access_conversion_into_host_access_mem_flag() {
    let host_access = mem::HostAccess::NoAccess;
    assert_eq!(HostAccessMemFlags::from(host_access), HostAccessMemFlags::NO_ACCESS());
}

#[test]
fn mem_location_keep_in_place_conversion_into_mem_location_mem_flag() {
    let mem_location = mem::MemLocation::KeepInPlace;
    assert_eq!(MemLocationMemFlags::from(mem_location), MemLocationMemFlags::KEEP_IN_PLACE());
}

#[test]
fn mem_location_alloc_on_device_conversion_into_mem_location_mem_flag() {
    let mem_location = mem::MemLocation::AllocOnDevice;
    assert_eq!(MemLocationMemFlags::from(mem_location), MemLocationMemFlags::ALLOC_ON_DEVICE());
}

#[test]
fn mem_location_copy_to_device_conversion_into_mem_location_mem_flag() {
    let mem_location = mem::MemLocation::CopyToDevice;
    assert_eq!(MemLocationMemFlags::from(mem_location), MemLocationMemFlags::COPY_TO_DEVICE());
}

#[test]
fn mem_location_force_copy_to_device_conversion_into_mem_location_mem_flag() {
    let mem_location = mem::MemLocation::ForceCopyToDevice;
    assert_eq!(MemLocationMemFlags::from(mem_location), MemLocationMemFlags::FORCE_COPY_TO_DEVICE());
}

#[test]
fn mem_mem_config_conversion_into_cl_mem_flags() {
    let mem_location = mem::MemLocation::AllocOnDevice;
    let host_access = mem::HostAccess::ReadWrite;
    let kernel_access = mem::KernelAccess::ReadWrite;
    let mem_config = mem::MemConfig {
        mem_location,
        host_access,
        kernel_access,
    };
    let expected = MemFlags::ALLOC_HOST_PTR().bits()
        | MemFlags::HOST_READ_WRITE().bits()
        | MemFlags::KERNEL_READ_WRITE().bits();

    assert_eq!(cl_mem_flags::from(mem_config), expected);
}

#[test]
fn mem_config_kernel_access_read_only_conversion_into_kernel_access_mem_flag() {
    let kernel_access = mem_config::KernelAccess::ReadOnly;
    assert_eq!(KernelAccessMemFlags::from(kernel_access), KernelAccessMemFlags::READ_ONLY());
}

#[test]
fn mem_config_kernel_access_write_only_conversion_into_kernel_access_mem_flag() {
    let kernel_access = mem_config::KernelAccess::WriteOnly;
    assert_eq!(KernelAccessMemFlags::from(kernel_access), KernelAccessMemFlags::WRITE_ONLY());
}

#[test]
fn mem_config_kernel_access_convert_read_write_into_kernel_access_mem_flag() {
    let kernel_access = mem_config::KernelAccess::ReadWrite;
    assert_eq!(KernelAccessMemFlags::from(kernel_access), KernelAccessMemFlags::READ_WRITE());
}

#[test]
fn mem_config_host_access_read_only_conversion_into_host_access_mem_flag() {
    let host_access = mem_config::HostAccess::ReadOnly;
    assert_eq!(HostAccessMemFlags::from(host_access), HostAccessMemFlags::READ_ONLY());
}

#[test]
fn mem_config_host_access_write_only_conversion_into_host_access_mem_flag() {
    let host_access = mem_config::HostAccess::WriteOnly;
    assert_eq!(HostAccessMemFlags::from(host_access), HostAccessMemFlags::WRITE_ONLY());
}

#[test]
fn mem_config_host_access_read_write_conversion_into_host_access_mem_flag() {
    let host_access = mem_config::HostAccess::ReadWrite;
    assert_eq!(HostAccessMemFlags::from(host_access), HostAccessMemFlags::READ_WRITE());
}

#[test]
fn mem_config_host_access_no_access_conversion_into_host_access_mem_flag() {
    let host_access = mem_config::HostAccess::NoAccess;
    assert_eq!(HostAccessMemFlags::from(host_access), HostAccessMemFlags::NO_ACCESS());
}

#[test]
fn mem_allocation_keep_in_place_conversion_into_mem_allocation_mem_flag() {
    let mem_allocation = mem_config::MemAllocation::KeepInPlace;
    assert_eq!(MemAllocationMemFlags::from(mem_allocation), MemAllocationMemFlags::KEEP_IN_PLACE());
}

#[test]
fn mem_allocation_alloc_on_device_conversion_into_mem_allocation_mem_flag() {
    let mem_allocation = mem_config::MemAllocation::AllocOnDevice;
    assert_eq!(MemAllocationMemFlags::from(mem_allocation), MemAllocationMemFlags::ALLOC_ON_DEVICE());
}

#[test]
fn mem_allocation_copy_to_device_conversion_into_mem_allocation_mem_flag() {
    let mem_allocation = mem_config::MemAllocation::CopyToDevice;
    assert_eq!(MemAllocationMemFlags::from(mem_allocation), MemAllocationMemFlags::COPY_TO_DEVICE());
}

#[test]
fn mem_allocation_force_copy_to_device_conversion_into_mem_allocation_mem_flag() {
    let mem_allocation = mem_config::MemAllocation::ForceCopyToDevice;
    assert_eq!(MemAllocationMemFlags::from(mem_allocation), MemAllocationMemFlags::FORCE_COPY_TO_DEVICE());
}

#[test]
fn mem_config_mem_config_conversion_into_cl_mem_flags() {
    let mem_allocation = mem_config::MemAllocation::AllocOnDevice;
    let host_access = mem_config::HostAccess::ReadWrite;
    let kernel_access = mem_config::KernelAccess::ReadWrite;
    let mem_config = mem_config::MemConfig::new(host_access, kernel_access, mem_allocation);
    let expected = MemFlags::ALLOC_HOST_PTR().bits()
        | MemFlags::HOST_READ_WRITE().bits()
        | MemFlags::KERNEL_READ_WRITE().bits();

    assert_eq!(cl_mem_flags::from(mem_config), expected);
}
