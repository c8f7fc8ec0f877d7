use vstd::prelude::*;
use vstd::std_specs::convert::FromSpecImpl;

use crate::number_type::NumberType;
use crate::flags::{
    cl_mem_flags, lemma_mem_config_bits, HostAccessMemFlags, KernelAccessMemFlags, MemFlags,
    MemLocationMemFlags,
};

verus! {

/// How a kernel may access a buffer.
pub enum KernelAccess {
    ReadOnly,
    WriteOnly,
    ReadWrite,
}

impl KernelAccess {
    /// The memory flag bits that stand for this kind of kernel access.
    pub open spec fn mem_flag_bits(self) -> u64 {
        match self {
            KernelAccess::ReadOnly => 4,
            KernelAccess::WriteOnly => 2,
            KernelAccess::ReadWrite => 1,
        }
    }
}

impl From<KernelAccess> for KernelAccessMemFlags {
    fn from(kernel_access: KernelAccess) -> (f: KernelAccessMemFlags)
        ensures
            f@ == kernel_access.mem_flag_bits(),
            f.wf(),
    {
        match kernel_access {
            KernelAccess::ReadOnly => KernelAccessMemFlags::READ_ONLY(),
            KernelAccess::WriteOnly => KernelAccessMemFlags::WRITE_ONLY(),
            KernelAccess::ReadWrite => KernelAccessMemFlags::READ_WRITE(),
        }
    }
}

impl FromSpecImpl<KernelAccess> for KernelAccessMemFlags {
    open spec fn obeys_from_spec() -> bool {
        true
    }

    open spec fn from_spec(v: KernelAccess) -> KernelAccessMemFlags {
        KernelAccessMemFlags { bits: v.mem_flag_bits() }
    }
}

impl From<KernelAccess> for MemFlags {
    fn from(kernel_access: KernelAccess) -> (f: MemFlags)
        ensures
            f@ == kernel_access.mem_flag_bits(),
            f.wf(),
    {
        MemFlags::from(KernelAccessMemFlags::from(kernel_access))
    }
}

impl FromSpecImpl<KernelAccess> for MemFlags {
    open spec fn obeys_from_spec() -> bool {
        true
    }

    open spec fn from_spec(v: KernelAccess) -> MemFlags {
        MemFlags { bits: v.mem_flag_bits() }
    }
}

impl From<KernelAccess> for cl_mem_flags {
    fn from(kernel_access: KernelAccess) -> (b: cl_mem_flags)
        ensures
            b == kernel_access.mem_flag_bits(),
    {
        cl_mem_flags::from(MemFlags::from(kernel_access))
    }
}

impl FromSpecImpl<KernelAccess> for cl_mem_flags {
    open spec fn obeys_from_spec() -> bool {
        true
    }

    open spec fn from_spec(v: KernelAccess) -> cl_mem_flags {
        v.mem_flag_bits()
    }
}

/// How the host may access a buffer.
pub enum HostAccess {
    ReadOnly,
    WriteOnly,
    NoAccess,
    ReadWrite,
}

impl HostAccess {
    /// The memory flag bits that stand for this kind of host access.
    pub open spec fn mem_flag_bits(self) -> u64 {
        match self {
            HostAccess::ReadOnly => 256,
            HostAccess::WriteOnly => 128,
            HostAccess::NoAccess => 512,
            HostAccess::ReadWrite => 0,
        }
    }
}

impl From<HostAccess> for HostAccessMemFlags {
    fn from(host_access: HostAccess) -> (f: HostAccessMemFlags)
        ensures
            f@ == host_access.mem_flag_bits(),
            f.wf(),
    {
        match host_access {
            HostAccess::ReadOnly => HostAccessMemFlags::READ_ONLY(),
            HostAccess::WriteOnly => HostAccessMemFlags::WRITE_ONLY(),
            HostAccess::NoAccess => HostAccessMemFlags::NO_ACCESS(),
            HostAccess::ReadWrite => HostAccessMemFlags::READ_WRITE(),
        }
    }
}

impl FromSpecImpl<HostAccess> for HostAccessMemFlags {
    open spec fn obeys_from_spec() -> bool {
        true
    }

    open spec fn from_spec(v: HostAccess) -> HostAccessMemFlags {
        HostAccessMemFlags { bits: v.mem_flag_bits() }
    }
}

impl From<HostAccess> for MemFlags {
    fn from(host_access: HostAccess) -> (f: MemFlags)
        ensures
            f@ == host_access.mem_flag_bits(),
            f.wf(),
    {
        MemFlags::from(HostAccessMemFlags::from(host_access))
    }
}

impl FromSpecImpl<HostAccess> for MemFlags {
    open spec fn obeys_from_spec() -> bool {
        true
    }

    open spec fn from_spec(v: HostAccess) -> MemFlags {
        MemFlags { bits: v.mem_flag_bits() }
    }
}

impl From<HostAccess> for cl_mem_flags {
    fn from(host_access: HostAccess) -> (b: cl_mem_flags)
        ensures
            b == host_access.mem_flag_bits(),
    {
        cl_mem_flags::from(MemFlags::from(host_access))
    }
}

impl FromSpecImpl<HostAccess> for cl_mem_flags {
    open spec fn obeys_from_spec() -> bool {
        true
    }

    open spec fn from_spec(v: HostAccess) -> cl_mem_flags {
        v.mem_flag_bits()
    }
}

/// The enumeration of where a buffer's memory is located and how it gets there.
pub enum MemLocation {
    KeepInPlace,
    AllocOnDevice,
    CopyToDevice,
    ForceCopyToDevice,
}

impl MemLocation {
    /// The memory flag bits that stand for this memory location.
    pub open spec fn mem_flag_bits(self) -> u64 {
        match self {
            MemLocation::KeepInPlace => 8,
            MemLocation::AllocOnDevice => 16,
            MemLocation::CopyToDevice => 32,
            MemLocation::ForceCopyToDevice => 48,
        }
    }
}

impl From<MemLocation> for MemLocationMemFlags {
    fn from(mem_location: MemLocation) -> (f: MemLocationMemFlags)
        ensures
            f@ == mem_location.mem_flag_bits(),
            f.wf(),
    {
        match mem_location {
            MemLocation::KeepInPlace => MemLocationMemFlags::KEEP_IN_PLACE(),
            MemLocation::AllocOnDevice => MemLocationMemFlags::ALLOC_ON_DEVICE(),
            MemLocation::CopyToDevice => MemLocationMemFlags::COPY_TO_DEVICE(),
            MemLocation::ForceCopyToDevice => MemLocationMemFlags::FORCE_COPY_TO_DEVICE(),
        }
    }
}

impl FromSpecImpl<MemLocation> for MemLocationMemFlags {
    open spec fn obeys_from_spec() -> bool {
        true
    }

    open spec fn from_spec(v: MemLocation) -> MemLocationMemFlags {
        MemLocationMemFlags { bits: v.mem_flag_bits() }
    }
}

impl From<MemLocation> for MemFlags {
    fn from(mem_location: MemLocation) -> (f: MemFlags)
        ensures
            f@ == mem_location.mem_flag_bits(),
            f.wf(),
    {
        MemFlags::from(MemLocationMemFlags::from(mem_location))
    }
}

impl FromSpecImpl<MemLocation> for MemFlags {
    open spec fn obeys_from_spec() -> bool {
        true
    }

    open spec fn from_spec(v: MemLocation) -> MemFlags {
        MemFlags { bits: v.mem_flag_bits() }
    }
}

impl From<MemLocation> for cl_mem_flags {
    fn from(mem_location: MemLocation) -> (b: cl_mem_flags)
        ensures
            b == mem_location.mem_flag_bits(),
    {
        cl_mem_flags::from(MemFlags::from(mem_location))
    }
}

impl FromSpecImpl<MemLocation> for cl_mem_flags {
    open spec fn obeys_from_spec() -> bool {
        true
    }

    open spec fn from_spec(v: MemLocation) -> cl_mem_flags {
        v.mem_flag_bits()
    }
}

/// The memory flag bits of a host access, a kernel access and a memory location together.
pub open spec fn config_flag_bits(
    host_access: HostAccess,
    kernel_access: KernelAccess,
    mem_location: MemLocation,
) -> u64 {
    host_access.mem_flag_bits() | kernel_access.mem_flag_bits() | mem_location.mem_flag_bits()
}

/// How a buffer is accessed by the host and by kernels and where its memory is located.
pub struct MemConfig {
    pub host_access: HostAccess,
    pub kernel_access: KernelAccess,
    pub mem_location: MemLocation,
}

impl MemConfig {
    /// The memory flag bits that this configuration stands for.
    pub open spec fn flag_bits(self) -> u64 {
        config_flag_bits(self.host_access, self.kernel_access, self.mem_location)
    }

    pub fn build(
        host_access: HostAccess,
        kernel_access: KernelAccess,
        mem_location: MemLocation,
    ) -> (config: MemConfig)
        ensures
            config == (MemConfig { host_access, kernel_access, mem_location }),
    {
        MemConfig { host_access, kernel_access, mem_location }
    }

    /// The configuration for a buffer created from host data: read and written by both
    /// sides, with the data copied to the device.
    pub fn for_data() -> (config: MemConfig)
        ensures
            config == (MemConfig {
                host_access: HostAccess::ReadWrite,
                kernel_access: KernelAccess::ReadWrite,
                mem_location: MemLocation::CopyToDevice,
            }),
    {
        MemConfig { mem_location: MemLocation::CopyToDevice, ..MemConfig::default() }
    }

    /// The configuration for a buffer created from a length: read and written by both
    /// sides, allocated on the device.
    pub fn for_size() -> (config: MemConfig)
        ensures
            config == (MemConfig {
                host_access: HostAccess::ReadWrite,
                kernel_access: KernelAccess::ReadWrite,
                mem_location: MemLocation::AllocOnDevice,
            }),
    {
        MemConfig { mem_location: MemLocation::AllocOnDevice, ..MemConfig::default() }
    }
}

impl Default for MemConfig {
    fn default() -> (config: MemConfig)
        ensures
            config == (MemConfig {
                host_access: HostAccess::ReadWrite,
                kernel_access: KernelAccess::ReadWrite,
                mem_location: MemLocation::AllocOnDevice,
            }),
    {
        MemConfig {
            host_access: HostAccess::ReadWrite,
            kernel_access: KernelAccess::ReadWrite,
            mem_location: MemLocation::AllocOnDevice,
        }
    }
}

/// The three groups of flags of a configuration occupy disjoint bits, so each group can
/// be read back from the configuration's flags and their union names only memory flags.
pub proof fn lemma_config_flag_groups(config: MemConfig)
    ensures
        config.flag_bits() & 896u64 == config.host_access.mem_flag_bits(),
        config.flag_bits() & 7u64 == config.kernel_access.mem_flag_bits(),
        config.flag_bits() & 56u64 == config.mem_location.mem_flag_bits(),
        config.flag_bits() & !MemFlags::all_bits() == 0,
{
    let h = config.host_access.mem_flag_bits();
    let k = config.kernel_access.mem_flag_bits();
    let a = config.mem_location.mem_flag_bits();
    assert(h & !896u64 == 0 && k & !7u64 == 0 && a & !56u64 == 0) by {
        crate::mem_config::lemma_group_masks();
    }
    lemma_mem_config_bits(h, k, a);
}

/// Two configurations with the same memory flags are the same configuration.
pub proof fn lemma_mem_config_flags_injective(a: MemConfig, b: MemConfig)
    requires
        a.flag_bits() == b.flag_bits(),
    ensures
        a == b,
{
    lemma_config_flag_groups(a);
    lemma_config_flag_groups(b);
}

impl From<MemConfig> for MemFlags {
    fn from(mem_config: MemConfig) -> (f: MemFlags)
        ensures
            f@ == mem_config.flag_bits(),
            f.wf(),
    {
        proof {
            lemma_config_flag_groups(mem_config);
        }
        MemFlags::from_bits_unchecked(cl_mem_flags::from(mem_config))
    }
}

impl FromSpecImpl<MemConfig> for MemFlags {
    open spec fn obeys_from_spec() -> bool {
        true
    }

    open spec fn from_spec(v: MemConfig) -> MemFlags {
        MemFlags { bits: v.flag_bits() }
    }
}

impl From<MemConfig> for cl_mem_flags {
    fn from(mem_config: MemConfig) -> (b: cl_mem_flags)
        ensures
            b == mem_config.flag_bits(),
    {
        cl_mem_flags::from(mem_config.host_access) | cl_mem_flags::from(mem_config.kernel_access)
            | cl_mem_flags::from(mem_config.mem_location)
    }
}

impl FromSpecImpl<MemConfig> for cl_mem_flags {
    open spec fn obeys_from_spec() -> bool {
        true
    }

    open spec fn from_spec(v: MemConfig) -> cl_mem_flags {
        v.flag_bits()
    }
}

/// The number of items of the given number type that a memory object of the given size in
/// bytes holds: the size divided by the size of one item, rounded down.
pub fn len_from_byte_size(size_in_bytes: usize, number_type: NumberType) -> (n: usize)
    ensures
        n == size_in_bytes as nat / number_type.size_spec(),
{
    size_in_bytes / number_type.size_of_t()
}

/// Each kind of kernel access, host access and allocation converts to the OpenCL memory
/// flag it names (`CL_MEM_READ_WRITE` 1, `CL_MEM_WRITE_ONLY` 2, `CL_MEM_READ_ONLY` 4,
/// `CL_MEM_USE_HOST_PTR` 8, `CL_MEM_ALLOC_HOST_PTR` 16, `CL_MEM_COPY_HOST_PTR` 32,
/// `CL_MEM_HOST_WRITE_ONLY` 128, `CL_MEM_HOST_READ_ONLY` 256, `CL_MEM_HOST_NO_ACCESS` 512),
/// and a configuration converts to the union of the flags of its three parts.
pub proof fn lemma_mem_flag_values()
    ensures
        forall|x: KernelAccess, b: cl_mem_flags|
            #[trigger] call_ensures(<cl_mem_flags as From<KernelAccess>>::from, (x,), b) ==> b == match x {
                KernelAccess::ReadWrite => 1u64,
                KernelAccess::WriteOnly => 2u64,
                KernelAccess::ReadOnly => 4u64,
            },
        forall|x: HostAccess, b: cl_mem_flags|
            #[trigger] call_ensures(<cl_mem_flags as From<HostAccess>>::from, (x,), b) ==> b == match x {
                HostAccess::ReadWrite => 0u64,
                HostAccess::WriteOnly => 128u64,
                HostAccess::ReadOnly => 256u64,
                HostAccess::NoAccess => 512u64,
            },
        forall|x: MemLocation, b: cl_mem_flags|
            #[trigger] call_ensures(<cl_mem_flags as From<MemLocation>>::from, (x,), b) ==> b == match x {
                MemLocation::KeepInPlace => 8u64,
                MemLocation::AllocOnDevice => 16u64,
                MemLocation::CopyToDevice => 32u64,
                MemLocation::ForceCopyToDevice => 48u64,
            },
        forall|c: MemConfig, b: cl_mem_flags, h: cl_mem_flags, k: cl_mem_flags, a: cl_mem_flags|
            #![trigger call_ensures(<cl_mem_flags as From<MemConfig>>::from, (c,), b), call_ensures(<cl_mem_flags as From<HostAccess>>::from, (c.host_access,), h), call_ensures(<cl_mem_flags as From<KernelAccess>>::from, (c.kernel_access,), k), call_ensures(<cl_mem_flags as From<MemLocation>>::from, (c.mem_location,), a)]
            call_ensures(<cl_mem_flags as From<MemConfig>>::from, (c,), b)
                && call_ensures(<cl_mem_flags as From<HostAccess>>::from, (c.host_access,), h)
                && call_ensures(<cl_mem_flags as From<KernelAccess>>::from, (c.kernel_access,), k)
                && call_ensures(<cl_mem_flags as From<MemLocation>>::from, (c.mem_location,), a) ==> b == (h | k | a),
{
}

} // verus!
