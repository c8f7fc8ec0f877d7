use open_cl::flags::{cl_mem_flags, MemFlags};
use open_cl::mem;
use open_cl::mem_config::{HostAccess, KernelAccess, MemAllocation, MemConfig, MemConfigBuilder};
use open_cl::number_type::{NumberType, NumberTypeKind};

#[test]
fn mem_config_for_data_and_for_size() {
    let d = MemConfig::for_data();
    assert_eq!(d.host_access(), HostAccess::ReadWrite);
    assert_eq!(d.kernel_access(), KernelAccess::ReadWrite);
    assert_eq!(d.mem_allocation(), MemAllocation::CopyToDevice);
    assert_eq!(d.cl_mem_flags(), 33);
    let s = MemConfig::for_size();
    assert_eq!(s.mem_allocation(), MemAllocation::AllocOnDevice);
    assert_eq!(s, MemConfig::default());
    assert_eq!(s.cl_mem_flags(), 17);
}

#[test]
fn mem_config_builder_round_trip() {
    let c = MemConfig::new(HostAccess::NoAccess, KernelAccess::ReadOnly, MemAllocation::KeepInPlace);
    let b = c.as_builder();
    assert_eq!(b.host_access, HostAccess::NoAccess);
    assert_eq!(b.build(), c);
    assert_eq!(c.cl_mem_flags(), 512 | 4 | 8);
    assert_eq!(MemFlags::from(c).bits(), 524);
}

#[test]
fn mem_config_builder_default() {
    let b = MemConfigBuilder::default();
    assert_eq!(b.build(), MemConfig::default());
}

#[test]
fn distinct_mem_configs_have_distinct_flags() {
    let a = MemConfig::new(HostAccess::WriteOnly, KernelAccess::ReadWrite, MemAllocation::ForceCopyToDevice);
    let b = MemConfig::new(HostAccess::WriteOnly, KernelAccess::WriteOnly, MemAllocation::ForceCopyToDevice);
    assert_ne!(a.cl_mem_flags(), b.cl_mem_flags());
    assert_eq!(cl_mem_flags::from(a), 128 | 1 | 48);
}

#[test]
fn single_parts_convert_to_cl_mem_flags() {
    assert_eq!(cl_mem_flags::from(HostAccess::ReadOnly), 256);
    assert_eq!(cl_mem_flags::from(KernelAccess::WriteOnly), 2);
    assert_eq!(cl_mem_flags::from(MemAllocation::KeepInPlace), 8);
    assert_eq!(MemFlags::from(HostAccess::ReadWrite).bits(), 0);
}

#[test]
fn old_mem_config_build_and_defaults() {
    let c = mem::MemConfig::build(
        mem::HostAccess::ReadOnly,
        mem::KernelAccess::WriteOnly,
        mem::MemLocation::ForceCopyToDevice,
    );
    assert_eq!(cl_mem_flags::from(c), 256 | 2 | 48);
    assert_eq!(cl_mem_flags::from(mem::MemConfig::for_data()), 33);
    assert_eq!(cl_mem_flags::from(mem::MemConfig::for_size()), 17);
    assert_eq!(MemFlags::from(mem::MemConfig::default()).bits(), 17);
}

#[test]
fn len_from_byte_size_divides_by_item_size() {
    assert_eq!(mem::len_from_byte_size(40, NumberType::ClUint(NumberTypeKind::Primitive)), 10);
    assert_eq!(mem::len_from_byte_size(41, NumberType::ClUint(NumberTypeKind::Primitive)), 10);
    assert_eq!(mem::len_from_byte_size(16, NumberType::ClShort(NumberTypeKind::Two)), 4);
}
