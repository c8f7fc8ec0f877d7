use vstd::prelude::*;
use vstd::std_specs::convert::FromSpecImpl;

use crate::flags::{
    cl_mem_flags, lemma_mem_config_bits, HostAccessMemFlags, KernelAccessMemFlags,
    MemAllocationMemFlags, MemFlags,
};

verus! {

/// How a kernel may access a buffer.
#[derive(Clone, Copy, Debug, Eq, PartialEq, Hash, Ord, PartialOrd, Structural)]
pub enum KernelAccess {
    ReadOnly,
    WriteOnly,
    ReadWrite,
}

impl KernelAccess {
    /// The memory flag bits that stand for this kind of kernel access.
    pub open spec fn mem_flag_bits(self) -> u64 {
        match self {
            KernelAccess::ReadOnly => 4,
            KernelAccess::WriteOnly => 2,
            KernelAccess::ReadWrite => 1,
        }
    }
}

impl From<KernelAccess> for KernelAccessMemFlags {
    fn from(kernel_access: KernelAccess) -> (f: KernelAccessMemFlags)
        ensures
            f@ == kernel_access.mem_flag_bits(),
            f.wf(),
    {
        match kernel_access {
            KernelAccess::ReadOnly => KernelAccessMemFlags::READ_ONLY(),
            KernelAccess::WriteOnly => KernelAccessMemFlags::WRITE_ONLY(),
            KernelAccess::ReadWrite => KernelAccessMemFlags::READ_WRITE(),
        }
    }
}

impl FromSpecImpl<KernelAccess> for KernelAccessMemFlags {
    open spec fn obeys_from_spec() -> bool {
        true
    }

    open spec fn from_spec(v: KernelAccess) -> KernelAccessMemFlags {
        KernelAccessMemFlags { bits: v.mem_flag_bits() }
    }
}

impl From<KernelAccess> for MemFlags {
    fn from(kernel_access: KernelAccess) -> (f: MemFlags)
        ensures
            f@ == kernel_access.mem_flag_bits(),
            f.wf(),
    {
        MemFlags::from(KernelAccessMemFlags::from(kernel_access))
    }
}

impl FromSpecImpl<KernelAccess> for MemFlags {
    open spec fn obeys_from_spec() -> bool {
        true
    }

    open spec fn from_spec(v: KernelAccess) -> MemFlags {
        MemFlags { bits: v.mem_flag_bits() }
    }
}

impl From<KernelAccess> for cl_mem_flags {
    fn from(kernel_access: KernelAccess) -> (b: cl_mem_flags)
        ensures
            b == kernel_access.mem_flag_bits(),
    {
        cl_mem_flags::from(MemFlags::from(kernel_access))
    }
}

impl FromSpecImpl<KernelAccess> for cl_mem_flags {
    open spec fn obeys_from_spec() -> bool {
        true
    }

    open spec fn from_spec(v: KernelAccess) -> cl_mem_flags {
        v.mem_flag_bits()
    }
}

/// How the host may access a buffer.
#[derive(Clone, Copy, Debug, Eq, PartialEq, Hash, Ord, PartialOrd, Structural)]
pub enum HostAccess {
    ReadOnly,
    WriteOnly,
    NoAccess,
    ReadWrite,
}

impl HostAccess {
    /// The memory flag bits that stand for this kind of host access.
    pub open spec fn mem_flag_bits(self) -> u64 {
        match self {
            HostAccess::ReadOnly => 256,
            HostAccess::WriteOnly => 128,
            HostAccess::NoAccess => 512,
            HostAccess::ReadWrite => 0,
        }
    }
}

impl From<HostAccess> for HostAccessMemFlags {
    fn from(host_access: HostAccess) -> (f: HostAccessMemFlags)
        ensures
            f@ == host_access.mem_flag_bits(),
            f.wf(),
    {
        match host_access {
            HostAccess::ReadOnly => HostAccessMemFlags::READ_ONLY(),
            HostAccess::WriteOnly => HostAccessMemFlags::WRITE_ONLY(),
            HostAccess::NoAccess => HostAccessMemFlags::NO_ACCESS(),
            HostAccess::ReadWrite => HostAccessMemFlags::READ_WRITE(),
        }
    }
}

impl FromSpecImpl<HostAccess> for HostAccessMemFlags {
    open spec fn obeys_from_spec() -> bool {
        true
    }

    open spec fn from_spec(v: HostAccess) -> HostAccessMemFlags {
        HostAccessMemFlags { bits: v.mem_flag_bits() }
    }
}

impl From<HostAccess> for MemFlags {
    fn from(host_access: HostAccess) -> (f: MemFlags)
        ensures
            f@ == host_access.mem_flag_bits(),
            f.wf(),
    {
        MemFlags::from(HostAccessMemFlags::from(host_access))
    }
}

impl FromSpecImpl<HostAccess> for MemFlags {
    open spec fn obeys_from_spec() -> bool {
        true
    }

    open spec fn from_spec(v: HostAccess) -> MemFlags {
        MemFlags { bits: v.mem_flag_bits() }
    }
}

impl From<HostAccess> for cl_mem_flags {
    fn from(host_access: HostAccess) -> (b: cl_mem_flags)
        ensures
            b == host_access.mem_flag_bits(),
    {
        cl_mem_flags::from(MemFlags::from(host_access))
    }
}

impl FromSpecImpl<HostAccess> for cl_mem_flags {
    open spec fn obeys_from_spec() -> bool {
        true
    }

    open spec fn from_spec(v: HostAccess) -> cl_mem_flags {
        v.mem_flag_bits()
    }
}

/// The enumeration of how memory allocation (or not) can be directed.
#[derive(Clone, Copy, Debug, Eq, PartialEq, Hash, Ord, PartialOrd, Structural)]
pub enum MemAllocation {
    KeepInPlace,
    AllocOnDevice,
    CopyToDevice,
    ForceCopyToDevice,
}

impl MemAllocation {
    /// The memory flag bits that stand for this way of allocating.
    pub open spec fn mem_flag_bits(self) -> u64 {
        match self {
            MemAllocation::KeepInPlace => 8,
            MemAllocation::AllocOnDevice => 16,
            MemAllocation::CopyToDevice => 32,
            MemAllocation::ForceCopyToDevice => 48,
        }
    }
}

impl From<MemAllocation> for MemAllocationMemFlags {
    fn from(mem_allocation: MemAllocation) -> (f: MemAllocationMemFlags)
        ensures
            f@ == mem_allocation.mem_flag_bits(),
            f.wf(),
    {
        match mem_allocation {
            MemAllocation::KeepInPlace => MemAllocationMemFlags::KEEP_IN_PLACE(),
            MemAllocation::AllocOnDevice => MemAllocationMemFlags::ALLOC_ON_DEVICE(),
            MemAllocation::CopyToDevice => MemAllocationMemFlags::COPY_TO_DEVICE(),
            MemAllocation::ForceCopyToDevice => MemAllocationMemFlags::FORCE_COPY_TO_DEVICE(),
        }
    }
}

impl FromSpecImpl<MemAllocation> for MemAllocationMemFlags {
    open spec fn obeys_from_spec() -> bool {
        true
    }

    open spec fn from_spec(v: MemAllocation) -> MemAllocationMemFlags {
        MemAllocationMemFlags { bits: v.mem_flag_bits() }
    }
}

impl From<MemAllocation> for MemFlags {
    fn from(mem_allocation: MemAllocation) -> (f: MemFlags)
        ensures
            f@ == mem_allocation.mem_flag_bits(),
            f.wf(),
    {
        MemFlags::from(MemAllocationMemFlags::from(mem_allocation))
    }
}

impl FromSpecImpl<MemAllocation> for MemFlags {
    open spec fn obeys_from_spec() -> bool {
        true
    }

    open spec fn from_spec(v: MemAllocation) -> MemFlags {
        MemFlags { bits: v.mem_flag_bits() }
    }
}

impl From<MemAllocation> for cl_mem_flags {
    fn from(mem_allocation: MemAllocation) -> (b: cl_mem_flags)
        ensures
            b == mem_allocation.mem_flag_bits(),
    {
        cl_mem_flags::from(MemFlags::from(mem_allocation))
    }
}

impl FromSpecImpl<MemAllocation> for cl_mem_flags {
    open spec fn obeys_from_spec() -> bool {
        true
    }

    open spec fn from_spec(v: MemAllocation) -> cl_mem_flags {
        v.mem_flag_bits()
    }
}

/// The memory flag bits of a host access, a kernel access and an allocation together.
pub open spec fn config_flag_bits(
    host_access: HostAccess,
    kernel_access: KernelAccess,
    mem_allocation: MemAllocation,
) -> u64 {
    host_access.mem_flag_bits() | kernel_access.mem_flag_bits() | mem_allocation.mem_flag_bits()
}

/// A mutable description of a `MemConfig`, turned into one by `build`.
pub struct MemConfigBuilder {
    pub host_access: HostAccess,
    pub kernel_access: KernelAccess,
    pub mem_allocation: MemAllocation,
}

impl Default for MemConfigBuilder {
    fn default() -> (b: MemConfigBuilder)
        ensures
            b.host_access == HostAccess::ReadWrite,
            b.kernel_access == KernelAccess::ReadWrite,
            b.mem_allocation == MemAllocation::AllocOnDevice,
    {
        MemConfigBuilder {
            host_access: HostAccess::ReadWrite,
            kernel_access: KernelAccess::ReadWrite,
            mem_allocation: MemAllocation::AllocOnDevice,
        }
    }
}

impl MemConfigBuilder {
    pub fn build(&self) -> (config: MemConfig)
        ensures
            config@ == (self.host_access, self.kernel_access, self.mem_allocation),
    {
        MemConfig {
            host_access: self.host_access,
            kernel_access: self.kernel_access,
            mem_allocation: self.mem_allocation,
        }
    }
}

/// How a buffer is accessed by the host and by kernels and how its memory is allocated.
#[derive(Clone, Copy, Debug, Eq, PartialEq, Hash, Ord, PartialOrd, Structural)]
pub struct MemConfig {
    host_access: HostAccess,
    kernel_access: KernelAccess,
    mem_allocation: MemAllocation,
}

impl View for MemConfig {
    type V = (HostAccess, KernelAccess, MemAllocation);

    closed spec fn view(&self) -> (HostAccess, KernelAccess, MemAllocation) {
        (self.host_access, self.kernel_access, self.mem_allocation)
    }
}

impl MemConfig {
    /// The memory flag bits that this configuration stands for.
    pub open spec fn flag_bits(self) -> u64 {
        config_flag_bits(self@.0, self@.1, self@.2)
    }

    pub fn new(
        host_access: HostAccess,
        kernel_access: KernelAccess,
        mem_allocation: MemAllocation,
    ) -> (config: MemConfig)
        ensures
            config@ == (host_access, kernel_access, mem_allocation),
    {
        MemConfig { host_access, kernel_access, mem_allocation }
    }

    pub fn as_builder(&self) -> (builder: MemConfigBuilder)
        ensures
            (builder.host_access, builder.kernel_access, builder.mem_allocation) == self@,
    {
        MemConfigBuilder {
            host_access: self.host_access,
            kernel_access: self.kernel_access,
            mem_allocation: self.mem_allocation,
        }
    }

    /// The memory flags of the configuration: the union of its host access, kernel access
    /// and allocation flags.
    pub fn cl_mem_flags(&self) -> (flags: cl_mem_flags)
        ensures
            flags == self.flag_bits(),
    {
        cl_mem_flags::from(self.host_access) | cl_mem_flags::from(self.kernel_access)
            | cl_mem_flags::from(self.mem_allocation)
    }

    pub fn host_access(&self) -> (h: HostAccess)
        ensures
            h == self@.0,
    {
        self.host_access
    }

    pub fn kernel_access(&self) -> (k: KernelAccess)
        ensures
            k == self@.1,
    {
        self.kernel_access
    }

    pub fn mem_allocation(&self) -> (a: MemAllocation)
        ensures
            a == self@.2,
    {
        self.mem_allocation
    }

    /// The configuration for a buffer created from host data: read and written by both
    /// sides, with the data copied to the device.
    pub fn for_data() -> (config: MemConfig)
        ensures
            config@ == (HostAccess::ReadWrite, KernelAccess::ReadWrite, MemAllocation::CopyToDevice),
    {
        MemConfig { mem_allocation: MemAllocation::CopyToDevice, ..MemConfig::default() }
    }

    /// The configuration for a buffer created from a length: read and written by both
    /// sides, allocated on the device.
    pub fn for_size() -> (config: MemConfig)
        ensures
            config@ == (HostAccess::ReadWrite, KernelAccess::ReadWrite, MemAllocation::AllocOnDevice),
    {
        MemConfig { mem_allocation: MemAllocation::AllocOnDevice, ..MemConfig::default() }
    }
}

impl Default for MemConfig {
    fn default() -> (config: MemConfig)
        ensures
            config@ == (HostAccess::ReadWrite, KernelAccess::ReadWrite, MemAllocation::AllocOnDevice),
    {
        MemConfig {
            host_access: HostAccess::ReadWrite,
            kernel_access: KernelAccess::ReadWrite,
            mem_allocation: MemAllocation::AllocOnDevice,
        }
    }
}

/// The three groups of flags of a configuration occupy disjoint bits, so each group can
/// be read back from the configuration's flags and their union names only memory flags.
pub proof fn lemma_config_flag_groups(config: MemConfig)
    ensures
        config.flag_bits() & 896u64 == config@.0.mem_flag_bits(),
        config.flag_bits() & 7u64 == config@.1.mem_flag_bits(),
        config.flag_bits() & 56u64 == config@.2.mem_flag_bits(),
        config.flag_bits() & !MemFlags::all_bits() == 0,
{
    let h = config@.0.mem_flag_bits();
    let k = config@.1.mem_flag_bits();
    let a = config@.2.mem_flag_bits();
    assert(h & !896u64 == 0 && k & !7u64 == 0 && a & !56u64 == 0) by {
        lemma_group_masks();
    }
    lemma_mem_config_bits(h, k, a);
}

/// Each host access, kernel access and allocation lies inside the mask of its group.
pub(crate) proof fn lemma_group_masks()
    by (bit_vector)
    ensures
        256u64 & !896u64 == 0,
        128u64 & !896u64 == 0,
        512u64 & !896u64 == 0,
        0u64 & !896u64 == 0,
        4u64 & !7u64 == 0,
        2u64 & !7u64 == 0,
        1u64 & !7u64 == 0,
        8u64 & !56u64 == 0,
        16u64 & !56u64 == 0,
        32u64 & !56u64 == 0,
        48u64 & !56u64 == 0,
{
}

/// Two configurations with the same memory flags are the same configuration.
pub proof fn lemma_cl_mem_flags_injective(a: MemConfig, b: MemConfig)
    requires
        a.flag_bits() == b.flag_bits(),
    ensures
        a == b,
{
    lemma_config_flag_groups(a);
    lemma_config_flag_groups(b);
    assert(a@ == b@);
}

/// Turning a configuration into a builder and building it gives the same configuration.
pub proof fn lemma_builder_round_trip(config: MemConfig, builder: MemConfigBuilder, rebuilt: MemConfig)
    requires
        call_ensures(MemConfig::as_builder, (&config,), builder),
        call_ensures(MemConfigBuilder::build, (&builder,), rebuilt),
    ensures
        rebuilt == config,
{
    assert(rebuilt@ == config@);
}

impl From<MemConfig> for MemFlags {
    fn from(mem_config: MemConfig) -> (f: MemFlags)
        ensures
            f@ == mem_config.flag_bits(),
            f.wf(),
    {
        proof {
            lemma_config_flag_groups(mem_config);
        }
        MemFlags::from_bits_unchecked(cl_mem_flags::from(mem_config))
    }
}

impl FromSpecImpl<MemConfig> for MemFlags {
    open spec fn obeys_from_spec() -> bool {
        true
    }

    open spec fn from_spec(v: MemConfig) -> MemFlags {
        MemFlags { bits: v.flag_bits() }
    }
}

impl From<MemConfig> for cl_mem_flags {
    fn from(mem_config: MemConfig) -> (b: cl_mem_flags)
        ensures
            b == mem_config.flag_bits(),
    {
        mem_config.cl_mem_flags()
    }
}

impl FromSpecImpl<MemConfig> for cl_mem_flags {
    open spec fn obeys_from_spec() -> bool {
        true
    }

    open spec fn from_spec(v: MemConfig) -> cl_mem_flags {
        v.flag_bits()
    }
}

/// Each kind of kernel access, host access and allocation converts to the OpenCL memory
/// flag it names (`CL_MEM_READ_WRITE` 1, `CL_MEM_WRITE_ONLY` 2, `CL_MEM_READ_ONLY` 4,
/// `CL_MEM_USE_HOST_PTR` 8, `CL_MEM_ALLOC_HOST_PTR` 16, `CL_MEM_COPY_HOST_PTR` 32,
/// `CL_MEM_HOST_WRITE_ONLY` 128, `CL_MEM_HOST_READ_ONLY` 256, `CL_MEM_HOST_NO_ACCESS` 512),
/// and a configuration converts to the union of the flags of its three parts.
pub proof fn lemma_mem_flag_values()
    ensures
        forall|x: KernelAccess, b: cl_mem_flags|
            #[trigger] call_ensures(<cl_mem_flags as From<KernelAccess>>::from, (x,), b) ==> b == match x {
                KernelAccess::ReadWrite => 1u64,
                KernelAccess::WriteOnly => 2u64,
                KernelAccess::ReadOnly => 4u64,
            },
        forall|x: HostAccess, b: cl_mem_flags|
            #[trigger] call_ensures(<cl_mem_flags as From<HostAccess>>::from, (x,), b) ==> b == match x {
                HostAccess::ReadWrite => 0u64,
                HostAccess::WriteOnly => 128u64,
                HostAccess::ReadOnly => 256u64,
                HostAccess::NoAccess => 512u64,
            },
        forall|x: MemAllocation, b: cl_mem_flags|
            #[trigger] call_ensures(<cl_mem_flags as From<MemAllocation>>::from, (x,), b) ==> b == match x {
                MemAllocation::KeepInPlace => 8u64,
                MemAllocation::AllocOnDevice => 16u64,
                MemAllocation::CopyToDevice => 32u64,
                MemAllocation::ForceCopyToDevice => 48u64,
            },
        forall|c: MemConfig, b: cl_mem_flags, h: cl_mem_flags, k: cl_mem_flags, a: cl_mem_flags|
            #![trigger call_ensures(<cl_mem_flags as From<MemConfig>>::from, (c,), b), call_ensures(<cl_mem_flags as From<HostAccess>>::from, (c@.0,), h), call_ensures(<cl_mem_flags as From<KernelAccess>>::from, (c@.1,), k), call_ensures(<cl_mem_flags as From<MemAllocation>>::from, (c@.2,), a)]
            call_ensures(<cl_mem_flags as From<MemConfig>>::from, (c,), b)
                && call_ensures(<cl_mem_flags as From<HostAccess>>::from, (c@.0,), h)
                && call_ensures(<cl_mem_flags as From<KernelAccess>>::from, (c@.1,), k)
                && call_ensures(<cl_mem_flags as From<MemAllocation>>::from, (c@.2,), a) ==> b == (h | k | a),
{
}

} // verus!
