use vstd::prelude::*;
use vstd::std_specs::convert::FromSpec;
use vstd::std_specs::convert::FromSpecImpl;

verus! {

/// The integer type of OpenCL's memory flags.
#[allow(non_camel_case_types)]
pub type cl_mem_flags = u64;

/// The integer type of OpenCL's command queue properties.
#[allow(non_camel_case_types)]
pub type cl_command_queue_properties = u64;

/// A value whose bits all lie inside a mask stays inside any larger mask.
pub proof fn lemma_within_wider_mask(a: u64, m1: u64, m2: u64)
    by (bit_vector)
    requires
        a & !m1 == 0,
        m1 & !m2 == 0,
    ensures
        a & !m2 == 0,
{
}

/// The union of two values inside a mask stays inside the mask.
pub proof fn lemma_union_within_mask(a: u64, b: u64, m: u64)
    by (bit_vector)
    requires
        a & !m == 0,
        b & !m == 0,
    ensures
        (a | b) & !m == 0,
{
}

/// The properties that a command queue can be created with.
#[derive(Debug, Clone, Copy, PartialEq, Eq, Structural)]
pub struct CommandQueueProperties {
    pub bits: cl_command_queue_properties,
}

impl View for CommandQueueProperties {
    type V = u64;

    open spec fn view(&self) -> u64 {
        self.bits
    }
}

#[allow(non_snake_case)]
impl CommandQueueProperties {
    /// The bits of every flag of this set together.
    pub open spec fn all_bits() -> u64 {
        15
    }

    /// A value is well formed when it holds no bit outside the named flags.
    pub open spec fn wf(self) -> bool {
        self@ & !Self::all_bits() == 0
    }

    /// The flag `OUT_OF_ORDER_EXEC_MODE_ENABLE` (bits `1`).
    pub fn OUT_OF_ORDER_EXEC_MODE_ENABLE() -> (f: CommandQueueProperties)
        ensures
            f@ == 1,
            f.wf(),
    {
        proof {
            lemma_flag_constants();
        }
        CommandQueueProperties { bits: 1 }
    }

    /// The flag `PROFILING_ENABLE` (bits `2`).
    pub fn PROFILING_ENABLE() -> (f: CommandQueueProperties)
        ensures
            f@ == 2,
            f.wf(),
    {
        proof {
            lemma_flag_constants();
        }
        CommandQueueProperties { bits: 2 }
    }

    /// The flag `ON_DEVICE` (bits `4`).
    pub fn ON_DEVICE() -> (f: CommandQueueProperties)
        ensures
            f@ == 4,
            f.wf(),
    {
        proof {
            lemma_flag_constants();
        }
        CommandQueueProperties { bits: 4 }
    }

    /// The flag `ON_DEVICE_DEFAULT` (bits `8`).
    pub fn ON_DEVICE_DEFAULT() -> (f: CommandQueueProperties)
        ensures
            f@ == 8,
            f.wf(),
    {
        proof {
            lemma_flag_constants();
        }
        CommandQueueProperties { bits: 8 }
    }

    /// The set with no flag.
    pub fn empty() -> (f: CommandQueueProperties)
        ensures
            f@ == 0,
            f.wf(),
    {
        proof {
            lemma_flag_constants();
        }
        CommandQueueProperties { bits: 0 }
    }

    /// The set with every flag.
    pub fn all() -> (f: CommandQueueProperties)
        ensures
            f@ == Self::all_bits(),
            f.wf(),
    {
        proof {
            lemma_flag_constants();
        }
        CommandQueueProperties { bits: 15 }
    }

    /// The raw bits of the set.
    pub fn bits(&self) -> (b: cl_command_queue_properties)
        ensures
            b == self@,
    {
        self.bits
    }

    /// The set with the given bits, or `None` when a bit names no flag.
    pub fn from_bits(bits: cl_command_queue_properties) -> (f: Option<CommandQueueProperties>)
        ensures
            f is Some <==> bits & !Self::all_bits() == 0,
            f matches Some(v) ==> v@ == bits && v.wf(),
    {
        if bits & !15u64 == 0 {
            Some(CommandQueueProperties { bits })
        } else {
            None
        }
    }

    /// Whether every flag of `other` is set in `self`.
    pub fn contains(&self, other: CommandQueueProperties) -> (r: bool)
        ensures
            r == (self@ & other@ == other@),
    {
        self.bits & other.bits == other.bits
    }

    /// The set of flags that are set in `self` or in `other`.
    pub fn union(&self, other: CommandQueueProperties) -> (f: CommandQueueProperties)
        ensures
            f@ == self@ | other@,
            self.wf() && other.wf() ==> f.wf(),
    {
        proof {
            if self.wf() && other.wf() {
                lemma_union_within_mask(self@, other@, Self::all_bits());
            }
        }
        CommandQueueProperties { bits: self.bits | other.bits }
    }
}

/// The memory flags that say how the host may access a buffer.
#[derive(Debug, Clone, Copy, PartialEq, Eq, Structural)]
pub struct HostAccessMemFlags {
    pub bits: cl_mem_flags,
}

impl View for HostAccessMemFlags {
    type V = u64;

    open spec fn view(&self) -> u64 {
        self.bits
    }
}

#[allow(non_snake_case)]
impl HostAccessMemFlags {
    /// The bits of every flag of this set together.
    pub open spec fn all_bits() -> u64 {
        896
    }

    /// A value is well formed when it holds no bit outside the named flags.
    pub open spec fn wf(self) -> bool {
        self@ & !Self::all_bits() == 0
    }

    /// The flag `READ_WRITE` (bits `0`).
    pub fn READ_WRITE() -> (f: HostAccessMemFlags)
        ensures
            f@ == 0,
            f.wf(),
    {
        proof {
            lemma_flag_constants();
        }
        HostAccessMemFlags { bits: 0 }
    }

    /// The flag `WRITE_ONLY` (bits `128`).
    pub fn WRITE_ONLY() -> (f: HostAccessMemFlags)
        ensures
            f@ == 128,
            f.wf(),
    {
        proof {
            lemma_flag_constants();
        }
        HostAccessMemFlags { bits: 128 }
    }

    /// The flag `READ_ONLY` (bits `256`).
    pub fn READ_ONLY() -> (f: HostAccessMemFlags)
        ensures
            f@ == 256,
            f.wf(),
    {
        proof {
            lemma_flag_constants();
        }
        HostAccessMemFlags { bits: 256 }
    }

    /// The flag `NO_ACCESS` (bits `512`).
    pub fn NO_ACCESS() -> (f: HostAccessMemFlags)
        ensures
            f@ == 512,
            f.wf(),
    {
        proof {
            lemma_flag_constants();
        }
        HostAccessMemFlags { bits: 512 }
    }

    /// The set with no flag.
    pub fn empty() -> (f: HostAccessMemFlags)
        ensures
            f@ == 0,
            f.wf(),
    {
        proof {
            lemma_flag_constants();
        }
        HostAccessMemFlags { bits: 0 }
    }

    /// The set with every flag.
    pub fn all() -> (f: HostAccessMemFlags)
        ensures
            f@ == Self::all_bits(),
            f.wf(),
    {
        proof {
            lemma_flag_constants();
        }
        HostAccessMemFlags { bits: 896 }
    }

    /// The raw bits of the set.
    pub fn bits(&self) -> (b: cl_mem_flags)
        ensures
            b == self@,
    {
        self.bits
    }

    /// The set with the given bits, or `None` when a bit names no flag.
    pub fn from_bits(bits: cl_mem_flags) -> (f: Option<HostAccessMemFlags>)
        ensures
            f is Some <==> bits & !Self::all_bits() == 0,
            f matches Some(v) ==> v@ == bits && v.wf(),
    {
        if bits & !896u64 == 0 {
            Some(HostAccessMemFlags { bits })
        } else {
            None
        }
    }

    /// Whether every flag of `other` is set in `self`.
    pub fn contains(&self, other: HostAccessMemFlags) -> (r: bool)
        ensures
            r == (self@ & other@ == other@),
    {
        self.bits & other.bits == other.bits
    }

    /// The set of flags that are set in `self` or in `other`.
    pub fn union(&self, other: HostAccessMemFlags) -> (f: HostAccessMemFlags)
        ensures
            f@ == self@ | other@,
            self.wf() && other.wf() ==> f.wf(),
    {
        proof {
            if self.wf() && other.wf() {
                lemma_union_within_mask(self@, other@, Self::all_bits());
            }
        }
        HostAccessMemFlags { bits: self.bits | other.bits }
    }
}

/// The memory flags that say how a kernel may access a buffer.
#[derive(Debug, Clone, Copy, PartialEq, Eq, Structural)]
pub struct KernelAccessMemFlags {
    pub bits: cl_mem_flags,
}

impl View for KernelAccessMemFlags {
    type V = u64;

    open spec fn view(&self) -> u64 {
        self.bits
    }
}

#[allow(non_snake_case)]
impl KernelAccessMemFlags {
    /// The bits of every flag of this set together.
    pub open spec fn all_bits() -> u64 {
        7
    }

    /// A value is well formed when it holds no bit outside the named flags.
    pub open spec fn wf(self) -> bool {
        self@ & !Self::all_bits() == 0
    }

    /// The flag `READ_WRITE` (bits `1`).
    pub fn READ_WRITE() -> (f: KernelAccessMemFlags)
        ensures
            f@ == 1,
            f.wf(),
    {
        proof {
            lemma_flag_constants();
        }
        KernelAccessMemFlags { bits: 1 }
    }

    /// The flag `WRITE_ONLY` (bits `2`).
    pub fn WRITE_ONLY() -> (f: KernelAccessMemFlags)
        ensures
            f@ == 2,
            f.wf(),
    {
        proof {
            lemma_flag_constants();
        }
        KernelAccessMemFlags { bits: 2 }
    }

    /// The flag `READ_ONLY` (bits `4`).
    pub fn READ_ONLY() -> (f: KernelAccessMemFlags)
        ensures
            f@ == 4,
            f.wf(),
    {
        proof {
            lemma_flag_constants();
        }
        KernelAccessMemFlags { bits: 4 }
    }

    /// The set with no flag.
    pub fn empty() -> (f: KernelAccessMemFlags)
        ensures
            f@ == 0,
            f.wf(),
    {
        proof {
            lemma_flag_constants();
        }
        KernelAccessMemFlags { bits: 0 }
    }

    /// The set with every flag.
    pub fn all() -> (f: KernelAccessMemFlags)
        ensures
            f@ == Self::all_bits(),
            f.wf(),
    {
        proof {
            lemma_flag_constants();
        }
        KernelAccessMemFlags { bits: 7 }
    }

    /// The raw bits of the set.
    pub fn bits(&self) -> (b: cl_mem_flags)
        ensures
            b == self@,
    {
        self.bits
    }

    /// The set with the given bits, or `None` when a bit names no flag.
    pub fn from_bits(bits: cl_mem_flags) -> (f: Option<KernelAccessMemFlags>)
        ensures
            f is Some <==> bits & !Self::all_bits() == 0,
            f matches Some(v) ==> v@ == bits && v.wf(),
    {
        if bits & !7u64 == 0 {
            Some(KernelAccessMemFlags { bits })
        } else {
            None
        }
    }

    /// Whether every flag of `other` is set in `self`.
    pub fn contains(&self, other: KernelAccessMemFlags) -> (r: bool)
        ensures
            r == (self@ & other@ == other@),
    {
        self.bits & other.bits == other.bits
    }

    /// The set of flags that are set in `self` or in `other`.
    pub fn union(&self, other: KernelAccessMemFlags) -> (f: KernelAccessMemFlags)
        ensures
            f@ == self@ | other@,
            self.wf() && other.wf() ==> f.wf(),
    {
        proof {
            if self.wf() && other.wf() {
                lemma_union_within_mask(self@, other@, Self::all_bits());
            }
        }
        KernelAccessMemFlags { bits: self.bits | other.bits }
    }
}

/// The memory flags that say where and how a buffer is allocated.
#[derive(Debug, Clone, Copy, PartialEq, Eq, Structural)]
pub struct MemAllocationMemFlags {
    pub bits: cl_mem_flags,
}

impl View for MemAllocationMemFlags {
    type V = u64;

    open spec fn view(&self) -> u64 {
        self.bits
    }
}

#[allow(non_snake_case)]
impl MemAllocationMemFlags {
    /// The bits of every flag of this set together.
    pub open spec fn all_bits() -> u64 {
        56
    }

    /// A value is well formed when it holds no bit outside the named flags.
    pub open spec fn wf(self) -> bool {
        self@ & !Self::all_bits() == 0
    }

    /// The flag `KEEP_IN_PLACE` (bits `8`).
    pub fn KEEP_IN_PLACE() -> (f: MemAllocationMemFlags)
        ensures
            f@ == 8,
            f.wf(),
    {
        proof {
            lemma_flag_constants();
        }
        MemAllocationMemFlags { bits: 8 }
    }

    /// The flag `ALLOC_ON_DEVICE` (bits `16`).
    pub fn ALLOC_ON_DEVICE() -> (f: MemAllocationMemFlags)
        ensures
            f@ == 16,
            f.wf(),
    {
        proof {
            lemma_flag_constants();
        }
        MemAllocationMemFlags { bits: 16 }
    }

    /// The flag `COPY_TO_DEVICE` (bits `32`).
    pub fn COPY_TO_DEVICE() -> (f: MemAllocationMemFlags)
        ensures
            f@ == 32,
            f.wf(),
    {
        proof {
            lemma_flag_constants();
        }
        MemAllocationMemFlags { bits: 32 }
    }

    /// The flag `FORCE_COPY_TO_DEVICE` (bits `48`).
    pub fn FORCE_COPY_TO_DEVICE() -> (f: MemAllocationMemFlags)
        ensures
            f@ == 48,
            f.wf(),
    {
        proof {
            lemma_flag_constants();
        }
        MemAllocationMemFlags { bits: 48 }
    }

    /// The set with no flag.
    pub fn empty() -> (f: MemAllocationMemFlags)
        ensures
            f@ == 0,
            f.wf(),
    {
        proof {
            lemma_flag_constants();
        }
        MemAllocationMemFlags { bits: 0 }
    }

    /// The set with every flag.
    pub fn all() -> (f: MemAllocationMemFlags)
        ensures
            f@ == Self::all_bits(),
            f.wf(),
    {
        proof {
            lemma_flag_constants();
        }
        MemAllocationMemFlags { bits: 56 }
    }

    /// The raw bits of the set.
    pub fn bits(&self) -> (b: cl_mem_flags)
        ensures
            b == self@,
    {
        self.bits
    }

    /// The set with the given bits, or `None` when a bit names no flag.
    pub fn from_bits(bits: cl_mem_flags) -> (f: Option<MemAllocationMemFlags>)
        ensures
            f is Some <==> bits & !Self::all_bits() == 0,
            f matches Some(v) ==> v@ == bits && v.wf(),
    {
        if bits & !56u64 == 0 {
            Some(MemAllocationMemFlags { bits })
        } else {
            None
        }
    }

    /// Whether every flag of `other` is set in `self`.
    pub fn contains(&self, other: MemAllocationMemFlags) -> (r: bool)
        ensures
            r == (self@ & other@ == other@),
    {
        self.bits & other.bits == other.bits
    }

    /// The set of flags that are set in `self` or in `other`.
    pub fn union(&self, other: MemAllocationMemFlags) -> (f: MemAllocationMemFlags)
        ensures
            f@ == self@ | other@,
            self.wf() && other.wf() ==> f.wf(),
    {
        proof {
            if self.wf() && other.wf() {
                lemma_union_within_mask(self@, other@, Self::all_bits());
            }
        }
        MemAllocationMemFlags { bits: self.bits | other.bits }
    }
}

/// The memory flags that say where a buffer's memory is located.
#[derive(Debug, Clone, Copy, PartialEq, Eq, Structural)]
pub struct MemLocationMemFlags {
    pub bits: cl_mem_flags,
}

impl View for MemLocationMemFlags {
    type V = u64;

    open spec fn view(&self) -> u64 {
        self.bits
    }
}

#[allow(non_snake_case)]
impl MemLocationMemFlags {
    /// The bits of every flag of this set together.
    pub open spec fn all_bits() -> u64 {
        56
    }

    /// A value is well formed when it holds no bit outside the named flags.
    pub open spec fn wf(self) -> bool {
        self@ & !Self::all_bits() == 0
    }

    /// The flag `KEEP_IN_PLACE` (bits `8`).
    pub fn KEEP_IN_PLACE() -> (f: MemLocationMemFlags)
        ensures
            f@ == 8,
            f.wf(),
    {
        proof {
            lemma_flag_constants();
        }
        MemLocationMemFlags { bits: 8 }
    }

    /// The flag `ALLOC_ON_DEVICE` (bits `16`).
    pub fn ALLOC_ON_DEVICE() -> (f: MemLocationMemFlags)
        ensures
            f@ == 16,
            f.wf(),
    {
        proof {
            lemma_flag_constants();
        }
        MemLocationMemFlags { bits: 16 }
    }

    /// The flag `COPY_TO_DEVICE` (bits `32`).
    pub fn COPY_TO_DEVICE() -> (f: MemLocationMemFlags)
        ensures
            f@ == 32,
            f.wf(),
    {
        proof {
            lemma_flag_constants();
        }
        MemLocationMemFlags { bits: 32 }
    }

    /// The flag `FORCE_COPY_TO_DEVICE` (bits `48`).
    pub fn FORCE_COPY_TO_DEVICE() -> (f: MemLocationMemFlags)
        ensures
            f@ == 48,
            f.wf(),
    {
        proof {
            lemma_flag_constants();
        }
        MemLocationMemFlags { bits: 48 }
    }

    /// The set with no flag.
    pub fn empty() -> (f: MemLocationMemFlags)
        ensures
            f@ == 0,
            f.wf(),
    {
        proof {
            lemma_flag_constants();
        }
        MemLocationMemFlags { bits: 0 }
    }

    /// The set with every flag.
    pub fn all() -> (f: MemLocationMemFlags)
        ensures
            f@ == Self::all_bits(),
            f.wf(),
    {
        proof {
            lemma_flag_constants();
        }
        MemLocationMemFlags { bits: 56 }
    }

    /// The raw bits of the set.
    pub fn bits(&self) -> (b: cl_mem_flags)
        ensures
            b == self@,
    {
        self.bits
    }

    /// The set with the given bits, or `None` when a bit names no flag.
    pub fn from_bits(bits: cl_mem_flags) -> (f: Option<MemLocationMemFlags>)
        ensures
            f is Some <==> bits & !Self::all_bits() == 0,
            f matches Some(v) ==> v@ == bits && v.wf(),
    {
        if bits & !56u64 == 0 {
            Some(MemLocationMemFlags { bits })
        } else {
            None
        }
    }

    /// Whether every flag of `other` is set in `self`.
    pub fn contains(&self, other: MemLocationMemFlags) -> (r: bool)
        ensures
            r == (self@ & other@ == other@),
    {
        self.bits & other.bits == other.bits
    }

    /// The set of flags that are set in `self` or in `other`.
    pub fn union(&self, other: MemLocationMemFlags) -> (f: MemLocationMemFlags)
        ensures
            f@ == self@ | other@,
            self.wf() && other.wf() ==> f.wf(),
    {
        proof {
            if self.wf() && other.wf() {
                lemma_union_within_mask(self@, other@, Self::all_bits());
            }
        }
        MemLocationMemFlags { bits: self.bits | other.bits }
    }
}

/// The full set of memory flags that a buffer is created with.
#[derive(Debug, Clone, Copy, PartialEq, Eq, Structural)]
pub struct MemFlags {
    pub bits: cl_mem_flags,
}

impl View for MemFlags {
    type V = u64;

    open spec fn view(&self) -> u64 {
        self.bits
    }
}

#[allow(non_snake_case)]
impl MemFlags {
    /// The bits of every flag of this set together.
    pub open spec fn all_bits() -> u64 {
        959
    }

    /// A value is well formed when it holds no bit outside the named flags.
    pub open spec fn wf(self) -> bool {
        self@ & !Self::all_bits() == 0
    }

    /// The flag `EMPTY` (bits `0`).
    pub fn EMPTY() -> (f: MemFlags)
        ensures
            f@ == 0,
            f.wf(),
    {
        proof {
            lemma_flag_constants();
        }
        MemFlags { bits: 0 }
    }

    /// The flag `KERNEL_READ_WRITE` (bits `1`).
    pub fn KERNEL_READ_WRITE() -> (f: MemFlags)
        ensures
            f@ == 1,
            f.wf(),
    {
        proof {
            lemma_flag_constants();
        }
        MemFlags { bits: 1 }
    }

    /// The flag `KERNEL_WRITE_ONLY` (bits `2`).
    pub fn KERNEL_WRITE_ONLY() -> (f: MemFlags)
        ensures
            f@ == 2,
            f.wf(),
    {
        proof {
            lemma_flag_constants();
        }
        MemFlags { bits: 2 }
    }

    /// The flag `KERNEL_READ_ONLY` (bits `4`).
    pub fn KERNEL_READ_ONLY() -> (f: MemFlags)
        ensures
            f@ == 4,
            f.wf(),
    {
        proof {
            lemma_flag_constants();
        }
        MemFlags { bits: 4 }
    }

    /// The flag `ALLOC_HOST_PTR` (bits `16`).
    pub fn ALLOC_HOST_PTR() -> (f: MemFlags)
        ensures
            f@ == 16,
            f.wf(),
    {
        proof {
            lemma_flag_constants();
        }
        MemFlags { bits: 16 }
    }

    /// The flag `USE_HOST_PTR` (bits `8`).
    pub fn USE_HOST_PTR() -> (f: MemFlags)
        ensures
            f@ == 8,
            f.wf(),
    {
        proof {
            lemma_flag_constants();
        }
        MemFlags { bits: 8 }
    }

    /// The flag `COPY_HOST_PTR` (bits `32`).
    pub fn COPY_HOST_PTR() -> (f: MemFlags)
        ensures
            f@ == 32,
            f.wf(),
    {
        proof {
            lemma_flag_constants();
        }
        MemFlags { bits: 32 }
    }

    /// The flag `HOST_WRITE_ONLY` (bits `128`).
    pub fn HOST_WRITE_ONLY() -> (f: MemFlags)
        ensures
            f@ == 128,
            f.wf(),
    {
        proof {
            lemma_flag_constants();
        }
        MemFlags { bits: 128 }
    }

    /// The flag `HOST_READ_ONLY` (bits `256`).
    pub fn HOST_READ_ONLY() -> (f: MemFlags)
        ensures
            f@ == 256,
            f.wf(),
    {
        proof {
            lemma_flag_constants();
        }
        MemFlags { bits: 256 }
    }

    /// The flag `HOST_NO_ACCESS` (bits `512`).
    pub fn HOST_NO_ACCESS() -> (f: MemFlags)
        ensures
            f@ == 512,
            f.wf(),
    {
        proof {
            lemma_flag_constants();
        }
        MemFlags { bits: 512 }
    }

    /// The flag `HOST_READ_WRITE` (bits `0`).
    pub fn HOST_READ_WRITE() -> (f: MemFlags)
        ensures
            f@ == 0,
            f.wf(),
    {
        proof {
            lemma_flag_constants();
        }
        MemFlags { bits: 0 }
    }

    /// The flag `READ_WRITE_ALLOC_HOST_PTR` (bits `17`).
    pub fn READ_WRITE_ALLOC_HOST_PTR() -> (f: MemFlags)
        ensures
            f@ == 17,
            f.wf(),
    {
        proof {
            lemma_flag_constants();
        }
        MemFlags { bits: 17 }
    }

    /// The flag `READ_ONLY_ALLOC_HOST_PTR` (bits `20`).
    pub fn READ_ONLY_ALLOC_HOST_PTR() -> (f: MemFlags)
        ensures
            f@ == 20,
            f.wf(),
    {
        proof {
            lemma_flag_constants();
        }
        MemFlags { bits: 20 }
    }

    /// The flag `WRITE_ONLY_ALLOC_HOST_PTR` (bits `18`).
    pub fn WRITE_ONLY_ALLOC_HOST_PTR() -> (f: MemFlags)
        ensures
            f@ == 18,
            f.wf(),
    {
        proof {
            lemma_flag_constants();
        }
        MemFlags { bits: 18 }
    }

    /// The set with no flag.
    pub fn empty() -> (f: MemFlags)
        ensures
            f@ == 0,
            f.wf(),
    {
        proof {
            lemma_flag_constants();
        }
        MemFlags { bits: 0 }
    }

    /// The set with every flag.
    pub fn all() -> (f: MemFlags)
        ensures
            f@ == Self::all_bits(),
            f.wf(),
    {
        proof {
            lemma_flag_constants();
        }
        MemFlags { bits: 959 }
    }

    /// The raw bits of the set.
    pub fn bits(&self) -> (b: cl_mem_flags)
        ensures
            b == self@,
    {
        self.bits
    }

    /// The set with the given bits, or `None` when a bit names no flag.
    pub fn from_bits(bits: cl_mem_flags) -> (f: Option<MemFlags>)
        ensures
            f is Some <==> bits & !Self::all_bits() == 0,
            f matches Some(v) ==> v@ == bits && v.wf(),
    {
        if bits & !959u64 == 0 {
            Some(MemFlags { bits })
        } else {
            None
        }
    }

    /// Whether every flag of `other` is set in `self`.
    pub fn contains(&self, other: MemFlags) -> (r: bool)
        ensures
            r == (self@ & other@ == other@),
    {
        self.bits & other.bits == other.bits
    }

    /// The set of flags that are set in `self` or in `other`.
    pub fn union(&self, other: MemFlags) -> (f: MemFlags)
        ensures
            f@ == self@ | other@,
            self.wf() && other.wf() ==> f.wf(),
    {
        proof {
            if self.wf() && other.wf() {
                lemma_union_within_mask(self@, other@, Self::all_bits());
            }
        }
        MemFlags { bits: self.bits | other.bits }
    }
}

/// Every named flag, the empty set and the full set lie inside the mask of their flag set.
proof fn lemma_flag_constants()
    by (bit_vector)
    ensures
        0u64 & !7u64 == 0,
        0u64 & !15u64 == 0,
        0u64 & !56u64 == 0,
        0u64 & !896u64 == 0,
        0u64 & !959u64 == 0,
        1u64 & !7u64 == 0,
        1u64 & !15u64 == 0,
        1u64 & !959u64 == 0,
        2u64 & !7u64 == 0,
        2u64 & !15u64 == 0,
        2u64 & !959u64 == 0,
        4u64 & !7u64 == 0,
        4u64 & !15u64 == 0,
        4u64 & !959u64 == 0,
        7u64 & !7u64 == 0,
        8u64 & !15u64 == 0,
        8u64 & !56u64 == 0,
        8u64 & !959u64 == 0,
        15u64 & !15u64 == 0,
        16u64 & !56u64 == 0,
        16u64 & !959u64 == 0,
        17u64 & !959u64 == 0,
        18u64 & !959u64 == 0,
        20u64 & !959u64 == 0,
        32u64 & !56u64 == 0,
        32u64 & !959u64 == 0,
        48u64 & !56u64 == 0,
        56u64 & !56u64 == 0,
        128u64 & !896u64 == 0,
        128u64 & !959u64 == 0,
        256u64 & !896u64 == 0,
        256u64 & !959u64 == 0,
        512u64 & !896u64 == 0,
        512u64 & !959u64 == 0,
        896u64 & !896u64 == 0,
        959u64 & !959u64 == 0,
{
}

/// The masks of the host access, kernel access, allocation and location flags all lie
/// inside the mask of the full memory flags.
proof fn lemma_mem_flag_masks()
    by (bit_vector)
    ensures
        896u64 & !959u64 == 0,
        7u64 & !959u64 == 0,
        56u64 & !959u64 == 0,
{
}

impl Default for CommandQueueProperties {
    /// A command queue records profiling information unless told otherwise.
    fn default() -> (p: CommandQueueProperties)
        ensures
            p@ == 2,
            p.wf(),
    {
        CommandQueueProperties::PROFILING_ENABLE()
    }
}

/// Reading the bits of well formed command queue properties and assembling properties from
/// those bits gives the same properties back.
pub proof fn lemma_command_queue_properties_bits_round_trip(
    props: CommandQueueProperties,
    bits: cl_command_queue_properties,
    back: Option<CommandQueueProperties>,
)
    requires
        props.wf(),
        call_ensures(CommandQueueProperties::bits, (&props,), bits),
        call_ensures(CommandQueueProperties::from_bits, (bits,), back),
    ensures
        back == Some(props),
{
}

/// Reading the bits of a well formed device type and assembling a device type from those
/// bits gives the same device type back.
pub proof fn lemma_device_type_bits_round_trip(
    device_type: DeviceType,
    bits: cl_device_type,
    back: Option<DeviceType>,
)
    requires
        device_type.wf(),
        call_ensures(DeviceType::bits, (&device_type,), bits),
        call_ensures(DeviceType::from_bits, (bits,), back),
    ensures
        back == Some(device_type),
{
}

impl From<HostAccessMemFlags> for MemFlags {
    /// The memory flags with the same bits.
    fn from(flags: HostAccessMemFlags) -> (f: MemFlags)
        ensures
            f@ == flags@,
            flags.wf() ==> f.wf(),
    {
        proof {
            lemma_mem_flag_masks();
            if flags.wf() {
                lemma_within_wider_mask(flags@, 896, 959);
            }
        }
        MemFlags { bits: flags.bits }
    }
}

impl FromSpecImpl<HostAccessMemFlags> for MemFlags {
    open spec fn obeys_from_spec() -> bool {
        true
    }

    open spec fn from_spec(v: HostAccessMemFlags) -> MemFlags {
        MemFlags { bits: v.bits }
    }
}

impl From<MemFlags> for Option<HostAccessMemFlags> {
    /// The flags of this group with the same bits, or `None` when the memory flags hold a bit
    /// outside the group.
    fn from(mem_flags: MemFlags) -> (f: Option<HostAccessMemFlags>)
        ensures
            f is Some <==> mem_flags@ & !HostAccessMemFlags::all_bits() == 0,
            f matches Some(v) ==> v@ == mem_flags@ && v.wf(),
    {
        HostAccessMemFlags::from_bits(mem_flags.bits)
    }
}

impl FromSpecImpl<MemFlags> for Option<HostAccessMemFlags> {
    open spec fn obeys_from_spec() -> bool {
        true
    }

    open spec fn from_spec(v: MemFlags) -> Option<HostAccessMemFlags> {
        if v.bits & !896u64 == 0 {
            Some(HostAccessMemFlags { bits: v.bits })
        } else {
            None
        }
    }
}

impl From<KernelAccessMemFlags> for MemFlags {
    /// The memory flags with the same bits.
    fn from(flags: KernelAccessMemFlags) -> (f: MemFlags)
        ensures
            f@ == flags@,
            flags.wf() ==> f.wf(),
    {
        proof {
            lemma_mem_flag_masks();
            if flags.wf() {
                lemma_within_wider_mask(flags@, 7, 959);
            }
        }
        MemFlags { bits: flags.bits }
    }
}

impl FromSpecImpl<KernelAccessMemFlags> for MemFlags {
    open spec fn obeys_from_spec() -> bool {
        true
    }

    open spec fn from_spec(v: KernelAccessMemFlags) -> MemFlags {
        MemFlags { bits: v.bits }
    }
}

impl From<MemFlags> for Option<KernelAccessMemFlags> {
    /// The flags of this group with the same bits, or `None` when the memory flags hold a bit
    /// outside the group.
    fn from(mem_flags: MemFlags) -> (f: Option<KernelAccessMemFlags>)
        ensures
            f is Some <==> mem_flags@ & !KernelAccessMemFlags::all_bits() == 0,
            f matches Some(v) ==> v@ == mem_flags@ && v.wf(),
    {
        KernelAccessMemFlags::from_bits(mem_flags.bits)
    }
}

impl FromSpecImpl<MemFlags> for Option<KernelAccessMemFlags> {
    open spec fn obeys_from_spec() -> bool {
        true
    }

    open spec fn from_spec(v: MemFlags) -> Option<KernelAccessMemFlags> {
        if v.bits & !7u64 == 0 {
            Some(KernelAccessMemFlags { bits: v.bits })
        } else {
            None
        }
    }
}

impl From<MemAllocationMemFlags> for MemFlags {
    /// The memory flags with the same bits.
    fn from(flags: MemAllocationMemFlags) -> (f: MemFlags)
        ensures
            f@ == flags@,
            flags.wf() ==> f.wf(),
    {
        proof {
            lemma_mem_flag_masks();
            if flags.wf() {
                lemma_within_wider_mask(flags@, 56, 959);
            }
        }
        MemFlags { bits: flags.bits }
    }
}

impl FromSpecImpl<MemAllocationMemFlags> for MemFlags {
    open spec fn obeys_from_spec() -> bool {
        true
    }

    open spec fn from_spec(v: MemAllocationMemFlags) -> MemFlags {
        MemFlags { bits: v.bits }
    }
}

impl From<MemFlags> for Option<MemAllocationMemFlags> {
    /// The flags of this group with the same bits, or `None` when the memory flags hold a bit
    /// outside the group.
    fn from(mem_flags: MemFlags) -> (f: Option<MemAllocationMemFlags>)
        ensures
            f is Some <==> mem_flags@ & !MemAllocationMemFlags::all_bits() == 0,
            f matches Some(v) ==> v@ == mem_flags@ && v.wf(),
    {
        MemAllocationMemFlags::from_bits(mem_flags.bits)
    }
}

impl FromSpecImpl<MemFlags> for Option<MemAllocationMemFlags> {
    open spec fn obeys_from_spec() -> bool {
        true
    }

    open spec fn from_spec(v: MemFlags) -> Option<MemAllocationMemFlags> {
        if v.bits & !56u64 == 0 {
            Some(MemAllocationMemFlags { bits: v.bits })
        } else {
            None
        }
    }
}

impl From<MemLocationMemFlags> for MemFlags {
    /// The memory flags with the same bits.
    fn from(flags: MemLocationMemFlags) -> (f: MemFlags)
        ensures
            f@ == flags@,
            flags.wf() ==> f.wf(),
    {
        proof {
            lemma_mem_flag_masks();
            if flags.wf() {
                lemma_within_wider_mask(flags@, 56, 959);
            }
        }
        MemFlags { bits: flags.bits }
    }
}

impl FromSpecImpl<MemLocationMemFlags> for MemFlags {
    open spec fn obeys_from_spec() -> bool {
        true
    }

    open spec fn from_spec(v: MemLocationMemFlags) -> MemFlags {
        MemFlags { bits: v.bits }
    }
}

impl From<MemFlags> for Option<MemLocationMemFlags> {
    /// The flags of this group with the same bits, or `None` when the memory flags hold a bit
    /// outside the group.
    fn from(mem_flags: MemFlags) -> (f: Option<MemLocationMemFlags>)
        ensures
            f is Some <==> mem_flags@ & !MemLocationMemFlags::all_bits() == 0,
            f matches Some(v) ==> v@ == mem_flags@ && v.wf(),
    {
        MemLocationMemFlags::from_bits(mem_flags.bits)
    }
}

impl FromSpecImpl<MemFlags> for Option<MemLocationMemFlags> {
    open spec fn obeys_from_spec() -> bool {
        true
    }

    open spec fn from_spec(v: MemFlags) -> Option<MemLocationMemFlags> {
        if v.bits & !56u64 == 0 {
            Some(MemLocationMemFlags { bits: v.bits })
        } else {
            None
        }
    }
}

impl From<MemFlags> for cl_mem_flags {
    /// The raw bits of the memory flags.
    fn from(flags: MemFlags) -> (b: cl_mem_flags)
        ensures
            b == flags@,
    {
        flags.bits
    }
}

impl FromSpecImpl<MemFlags> for cl_mem_flags {
    open spec fn obeys_from_spec() -> bool {
        true
    }

    open spec fn from_spec(v: MemFlags) -> cl_mem_flags {
        v.bits
    }
}

/// Turning well formed HostAccessMemFlags into memory flags and back gives the same flags, and the
/// memory flags keep their bits.
pub proof fn lemma_host_access_mem_flags_round_trip(flags: HostAccessMemFlags)
    requires
        flags.wf(),
    ensures
        <MemFlags as FromSpec<HostAccessMemFlags>>::from_spec(flags)@ == flags@,
        <MemFlags as FromSpec<HostAccessMemFlags>>::from_spec(flags).wf(),
        <Option<HostAccessMemFlags> as FromSpec<MemFlags>>::from_spec(
            <MemFlags as FromSpec<HostAccessMemFlags>>::from_spec(flags),
        ) == Some(flags),
{
    lemma_mem_flag_masks();
    lemma_within_wider_mask(flags@, 896, 959);
}

/// Turning well formed KernelAccessMemFlags into memory flags and back gives the same flags, and the
/// memory flags keep their bits.
pub proof fn lemma_kernel_access_mem_flags_round_trip(flags: KernelAccessMemFlags)
    requires
        flags.wf(),
    ensures
        <MemFlags as FromSpec<KernelAccessMemFlags>>::from_spec(flags)@ == flags@,
        <MemFlags as FromSpec<KernelAccessMemFlags>>::from_spec(flags).wf(),
        <Option<KernelAccessMemFlags> as FromSpec<MemFlags>>::from_spec(
            <MemFlags as FromSpec<KernelAccessMemFlags>>::from_spec(flags),
        ) == Some(flags),
{
    lemma_mem_flag_masks();
    lemma_within_wider_mask(flags@, 7, 959);
}

/// Turning well formed MemAllocationMemFlags into memory flags and back gives the same flags, and the
/// memory flags keep their bits.
pub proof fn lemma_mem_allocation_mem_flags_round_trip(flags: MemAllocationMemFlags)
    requires
        flags.wf(),
    ensures
        <MemFlags as FromSpec<MemAllocationMemFlags>>::from_spec(flags)@ == flags@,
        <MemFlags as FromSpec<MemAllocationMemFlags>>::from_spec(flags).wf(),
        <Option<MemAllocationMemFlags> as FromSpec<MemFlags>>::from_spec(
            <MemFlags as FromSpec<MemAllocationMemFlags>>::from_spec(flags),
        ) == Some(flags),
{
    lemma_mem_flag_masks();
    lemma_within_wider_mask(flags@, 56, 959);
}

/// Turning well formed MemLocationMemFlags into memory flags and back gives the same flags, and the
/// memory flags keep their bits.
pub proof fn lemma_mem_location_mem_flags_round_trip(flags: MemLocationMemFlags)
    requires
        flags.wf(),
    ensures
        <MemFlags as FromSpec<MemLocationMemFlags>>::from_spec(flags)@ == flags@,
        <MemFlags as FromSpec<MemLocationMemFlags>>::from_spec(flags).wf(),
        <Option<MemLocationMemFlags> as FromSpec<MemFlags>>::from_spec(
            <MemFlags as FromSpec<MemLocationMemFlags>>::from_spec(flags),
        ) == Some(flags),
{
    lemma_mem_flag_masks();
    lemma_within_wider_mask(flags@, 56, 959);
}


/// Host access, kernel access and allocation bits that each lie inside their own mask can
/// be read back from their union, and the union lies inside the mask of the memory flags.
pub proof fn lemma_mem_config_bits(host: u64, kernel: u64, alloc: u64)
    by (bit_vector)
    requires
        host & !896u64 == 0,
        kernel & !7u64 == 0,
        alloc & !56u64 == 0,
    ensures
        (host | kernel | alloc) & 896u64 == host,
        (host | kernel | alloc) & 7u64 == kernel,
        (host | kernel | alloc) & 56u64 == alloc,
        (host | kernel | alloc) & !959u64 == 0,
{
}

impl MemFlags {
    /// The memory flags with exactly the given bits, whether or not each bit names a flag.
    pub fn from_bits_unchecked(bits: cl_mem_flags) -> (f: MemFlags)
        ensures
            f@ == bits,
    {
        MemFlags { bits }
    }
}


/// The integer type of OpenCL's device types.
#[allow(non_camel_case_types)]
pub type cl_device_type = u64;

/// The integer type of OpenCL's device execution capabilities.
#[allow(non_camel_case_types)]
pub type cl_device_exec_capabilities = u64;

/// The integer type of OpenCL's device floating-point configurations.
#[allow(non_camel_case_types)]
pub type cl_device_fp_config = u64;

/// The integer type of OpenCL's device affinity domains.
#[allow(non_camel_case_types)]
pub type cl_device_affinity_domain = u64;

/// The types of OpenCL devices, as a set.
#[derive(Debug, Clone, Copy, PartialEq, Eq, Structural)]
pub struct DeviceType {
    pub bits: cl_device_type,
}

impl View for DeviceType {
    type V = u64;

    open spec fn view(&self) -> u64 {
        self.bits
    }
}

#[allow(non_snake_case)]
impl DeviceType {
    /// The bits of every flag of this set together.
    pub open spec fn all_bits() -> u64 {
        4294967295
    }

    /// A value is well formed when it holds no bit outside the named flags.
    pub open spec fn wf(self) -> bool {
        self@ & !Self::all_bits() == 0
    }

    /// The flag `DEFAULT` (bits `1`).
    pub fn DEFAULT() -> (f: DeviceType)
        ensures
            f@ == 1,
            f.wf(),
    {
        proof {
            lemma_device_flag_constants();
        }
        DeviceType { bits: 1 }
    }

    /// The flag `CPU` (bits `2`).
    pub fn CPU() -> (f: DeviceType)
        ensures
            f@ == 2,
            f.wf(),
    {
        proof {
            lemma_device_flag_constants();
        }
        DeviceType { bits: 2 }
    }

    /// The flag `GPU` (bits `4`).
    pub fn GPU() -> (f: DeviceType)
        ensures
            f@ == 4,
            f.wf(),
    {
        proof {
            lemma_device_flag_constants();
        }
        DeviceType { bits: 4 }
    }

    /// The flag `ACCELERATOR` (bits `8`).
    pub fn ACCELERATOR() -> (f: DeviceType)
        ensures
            f@ == 8,
            f.wf(),
    {
        proof {
            lemma_device_flag_constants();
        }
        DeviceType { bits: 8 }
    }

    /// The flag `CUSTOM` (bits `16`).
    pub fn CUSTOM() -> (f: DeviceType)
        ensures
            f@ == 16,
            f.wf(),
    {
        proof {
            lemma_device_flag_constants();
        }
        DeviceType { bits: 16 }
    }

    /// The flag `ALL` (bits `4294967295`).
    pub fn ALL() -> (f: DeviceType)
        ensures
            f@ == 4294967295,
            f.wf(),
    {
        proof {
            lemma_device_flag_constants();
        }
        DeviceType { bits: 4294967295 }
    }

    /// The set with no flag.
    pub fn empty() -> (f: DeviceType)
        ensures
            f@ == 0,
            f.wf(),
    {
        proof {
            lemma_device_flag_constants();
        }
        DeviceType { bits: 0 }
    }

    /// The set with every flag.
    pub fn all() -> (f: DeviceType)
        ensures
            f@ == Self::all_bits(),
            f.wf(),
    {
        proof {
            lemma_device_flag_constants();
        }
        DeviceType { bits: 4294967295 }
    }

    /// The raw bits of the set.
    pub fn bits(&self) -> (b: cl_device_type)
        ensures
            b == self@,
    {
        self.bits
    }

    /// The set with the given bits, or `None` when a bit names no flag.
    pub fn from_bits(bits: cl_device_type) -> (f: Option<DeviceType>)
        ensures
            f is Some <==> bits & !Self::all_bits() == 0,
            f matches Some(v) ==> v@ == bits && v.wf(),
    {
        if bits & !4294967295u64 == 0 {
            Some(DeviceType { bits })
        } else {
            None
        }
    }

    /// Whether every flag of `other` is set in `self`.
    pub fn contains(&self, other: DeviceType) -> (r: bool)
        ensures
            r == (self@ & other@ == other@),
    {
        self.bits & other.bits == other.bits
    }

    /// The set of flags that are set in `self` or in `other`.
    pub fn union(&self, other: DeviceType) -> (f: DeviceType)
        ensures
            f@ == self@ | other@,
            self.wf() && other.wf() ==> f.wf(),
    {
        proof {
            if self.wf() && other.wf() {
                lemma_union_within_mask(self@, other@, Self::all_bits());
            }
        }
        DeviceType { bits: self.bits | other.bits }
    }
}

/// The execution capabilities of an OpenCL device.
#[derive(Debug, Clone, Copy, PartialEq, Eq, Structural)]
pub struct DeviceExecCapabilities {
    pub bits: cl_device_exec_capabilities,
}

impl View for DeviceExecCapabilities {
    type V = u64;

    open spec fn view(&self) -> u64 {
        self.bits
    }
}

#[allow(non_snake_case)]
impl DeviceExecCapabilities {
    /// The bits of every flag of this set together.
    pub open spec fn all_bits() -> u64 {
        3
    }

    /// A value is well formed when it holds no bit outside the named flags.
    pub open spec fn wf(self) -> bool {
        self@ & !Self::all_bits() == 0
    }

    /// The flag `KERNEL` (bits `1`).
    pub fn KERNEL() -> (f: DeviceExecCapabilities)
        ensures
            f@ == 1,
            f.wf(),
    {
        proof {
            lemma_device_flag_constants();
        }
        DeviceExecCapabilities { bits: 1 }
    }

    /// The flag `NATIVE_KERNEL` (bits `2`).
    pub fn NATIVE_KERNEL() -> (f: DeviceExecCapabilities)
        ensures
            f@ == 2,
            f.wf(),
    {
        proof {
            lemma_device_flag_constants();
        }
        DeviceExecCapabilities { bits: 2 }
    }

    /// The set with no flag.
    pub fn empty() -> (f: DeviceExecCapabilities)
        ensures
            f@ == 0,
            f.wf(),
    {
        proof {
            lemma_device_flag_constants();
        }
        DeviceExecCapabilities { bits: 0 }
    }

    /// The set with every flag.
    pub fn all() -> (f: DeviceExecCapabilities)
        ensures
            f@ == Self::all_bits(),
            f.wf(),
    {
        proof {
            lemma_device_flag_constants();
        }
        DeviceExecCapabilities { bits: 3 }
    }

    /// The raw bits of the set.
    pub fn bits(&self) -> (b: cl_device_exec_capabilities)
        ensures
            b == self@,
    {
        self.bits
    }

    /// The set with the given bits, or `None` when a bit names no flag.
    pub fn from_bits(bits: cl_device_exec_capabilities) -> (f: Option<DeviceExecCapabilities>)
        ensures
            f is Some <==> bits & !Self::all_bits() == 0,
            f matches Some(v) ==> v@ == bits && v.wf(),
    {
        if bits & !3u64 == 0 {
            Some(DeviceExecCapabilities { bits })
        } else {
            None
        }
    }

    /// Whether every flag of `other` is set in `self`.
    pub fn contains(&self, other: DeviceExecCapabilities) -> (r: bool)
        ensures
            r == (self@ & other@ == other@),
    {
        self.bits & other.bits == other.bits
    }

    /// The set of flags that are set in `self` or in `other`.
    pub fn union(&self, other: DeviceExecCapabilities) -> (f: DeviceExecCapabilities)
        ensures
            f@ == self@ | other@,
            self.wf() && other.wf() ==> f.wf(),
    {
        proof {
            if self.wf() && other.wf() {
                lemma_union_within_mask(self@, other@, Self::all_bits());
            }
        }
        DeviceExecCapabilities { bits: self.bits | other.bits }
    }
}

/// The floating-point capabilities of an OpenCL device.
#[derive(Debug, Clone, Copy, PartialEq, Eq, Structural)]
pub struct DeviceFpConfig {
    pub bits: cl_device_fp_config,
}

impl View for DeviceFpConfig {
    type V = u64;

    open spec fn view(&self) -> u64 {
        self.bits
    }
}

#[allow(non_snake_case)]
impl DeviceFpConfig {
    /// The bits of every flag of this set together.
    pub open spec fn all_bits() -> u64 {
        255
    }

    /// A value is well formed when it holds no bit outside the named flags.
    pub open spec fn wf(self) -> bool {
        self@ & !Self::all_bits() == 0
    }

    /// The flag `DENORM` (bits `1`).
    pub fn DENORM() -> (f: DeviceFpConfig)
        ensures
            f@ == 1,
            f.wf(),
    {
        proof {
            lemma_device_flag_constants();
        }
        DeviceFpConfig { bits: 1 }
    }

    /// The flag `INF_NAN` (bits `2`).
    pub fn INF_NAN() -> (f: DeviceFpConfig)
        ensures
            f@ == 2,
            f.wf(),
    {
        proof {
            lemma_device_flag_constants();
        }
        DeviceFpConfig { bits: 2 }
    }

    /// The flag `ROUND_TO_NEAREST` (bits `4`).
    pub fn ROUND_TO_NEAREST() -> (f: DeviceFpConfig)
        ensures
            f@ == 4,
            f.wf(),
    {
        proof {
            lemma_device_flag_constants();
        }
        DeviceFpConfig { bits: 4 }
    }

    /// The flag `ROUND_TO_ZERO` (bits `8`).
    pub fn ROUND_TO_ZERO() -> (f: DeviceFpConfig)
        ensures
            f@ == 8,
            f.wf(),
    {
        proof {
            lemma_device_flag_constants();
        }
        DeviceFpConfig { bits: 8 }
    }

    /// The flag `ROUND_TO_INF` (bits `16`).
    pub fn ROUND_TO_INF() -> (f: DeviceFpConfig)
        ensures
            f@ == 16,
            f.wf(),
    {
        proof {
            lemma_device_flag_constants();
        }
        DeviceFpConfig { bits: 16 }
    }

    /// The flag `FMA` (bits `32`).
    pub fn FMA() -> (f: DeviceFpConfig)
        ensures
            f@ == 32,
            f.wf(),
    {
        proof {
            lemma_device_flag_constants();
        }
        DeviceFpConfig { bits: 32 }
    }

    /// The flag `SOFT_FLOAT` (bits `64`).
    pub fn SOFT_FLOAT() -> (f: DeviceFpConfig)
        ensures
            f@ == 64,
            f.wf(),
    {
        proof {
            lemma_device_flag_constants();
        }
        DeviceFpConfig { bits: 64 }
    }

    /// The flag `CORRECTLY_ROUNDED_DIVIDE_SQRT` (bits `128`).
    pub fn CORRECTLY_ROUNDED_DIVIDE_SQRT() -> (f: DeviceFpConfig)
        ensures
            f@ == 128,
            f.wf(),
    {
        proof {
            lemma_device_flag_constants();
        }
        DeviceFpConfig { bits: 128 }
    }

    /// The set with no flag.
    pub fn empty() -> (f: DeviceFpConfig)
        ensures
            f@ == 0,
            f.wf(),
    {
        proof {
            lemma_device_flag_constants();
        }
        DeviceFpConfig { bits: 0 }
    }

    /// The set with every flag.
    pub fn all() -> (f: DeviceFpConfig)
        ensures
            f@ == Self::all_bits(),
            f.wf(),
    {
        proof {
            lemma_device_flag_constants();
        }
        DeviceFpConfig { bits: 255 }
    }

    /// The raw bits of the set.
    pub fn bits(&self) -> (b: cl_device_fp_config)
        ensures
            b == self@,
    {
        self.bits
    }

    /// The set with the given bits, or `None` when a bit names no flag.
    pub fn from_bits(bits: cl_device_fp_config) -> (f: Option<DeviceFpConfig>)
        ensures
            f is Some <==> bits & !Self::all_bits() == 0,
            f matches Some(v) ==> v@ == bits && v.wf(),
    {
        if bits & !255u64 == 0 {
            Some(DeviceFpConfig { bits })
        } else {
            None
        }
    }

    /// Whether every flag of `other` is set in `self`.
    pub fn contains(&self, other: DeviceFpConfig) -> (r: bool)
        ensures
            r == (self@ & other@ == other@),
    {
        self.bits & other.bits == other.bits
    }

    /// The set of flags that are set in `self` or in `other`.
    pub fn union(&self, other: DeviceFpConfig) -> (f: DeviceFpConfig)
        ensures
            f@ == self@ | other@,
            self.wf() && other.wf() ==> f.wf(),
    {
        proof {
            if self.wf() && other.wf() {
                lemma_union_within_mask(self@, other@, Self::all_bits());
            }
        }
        DeviceFpConfig { bits: self.bits | other.bits }
    }
}

/// The affinity domains along which an OpenCL device can be partitioned.
#[derive(Debug, Clone, Copy, PartialEq, Eq, Structural)]
pub struct DeviceAffinityDomain {
    pub bits: cl_device_affinity_domain,
}

impl View for DeviceAffinityDomain {
    type V = u64;

    open spec fn view(&self) -> u64 {
        self.bits
    }
}

#[allow(non_snake_case)]
impl DeviceAffinityDomain {
    /// The bits of every flag of this set together.
    pub open spec fn all_bits() -> u64 {
        63
    }

    /// A value is well formed when it holds no bit outside the named flags.
    pub open spec fn wf(self) -> bool {
        self@ & !Self::all_bits() == 0
    }

    /// The flag `NUMA` (bits `1`).
    pub fn NUMA() -> (f: DeviceAffinityDomain)
        ensures
            f@ == 1,
            f.wf(),
    {
        proof {
            lemma_device_flag_constants();
        }
        DeviceAffinityDomain { bits: 1 }
    }

    /// The flag `L4_CACHE` (bits `2`).
    pub fn L4_CACHE() -> (f: DeviceAffinityDomain)
        ensures
            f@ == 2,
            f.wf(),
    {
        proof {
            lemma_device_flag_constants();
        }
        DeviceAffinityDomain { bits: 2 }
    }

    /// The flag `L3_CACHE` (bits `4`).
    pub fn L3_CACHE() -> (f: DeviceAffinityDomain)
        ensures
            f@ == 4,
            f.wf(),
    {
        proof {
            lemma_device_flag_constants();
        }
        DeviceAffinityDomain { bits: 4 }
    }

    /// The flag `L2_CACHE` (bits `8`).
    pub fn L2_CACHE() -> (f: DeviceAffinityDomain)
        ensures
            f@ == 8,
            f.wf(),
    {
        proof {
            lemma_device_flag_constants();
        }
        DeviceAffinityDomain { bits: 8 }
    }

    /// The flag `L1_CACHE` (bits `16`).
    pub fn L1_CACHE() -> (f: DeviceAffinityDomain)
        ensures
            f@ == 16,
            f.wf(),
    {
        proof {
            lemma_device_flag_constants();
        }
        DeviceAffinityDomain { bits: 16 }
    }

    /// The flag `NEXT_PARTITIONABLE` (bits `32`).
    pub fn NEXT_PARTITIONABLE() -> (f: DeviceAffinityDomain)
        ensures
            f@ == 32,
            f.wf(),
    {
        proof {
            lemma_device_flag_constants();
        }
        DeviceAffinityDomain { bits: 32 }
    }

    /// The set with no flag.
    pub fn empty() -> (f: DeviceAffinityDomain)
        ensures
            f@ == 0,
            f.wf(),
    {
        proof {
            lemma_device_flag_constants();
        }
        DeviceAffinityDomain { bits: 0 }
    }

    /// The set with every flag.
    pub fn all() -> (f: DeviceAffinityDomain)
        ensures
            f@ == Self::all_bits(),
            f.wf(),
    {
        proof {
            lemma_device_flag_constants();
        }
        DeviceAffinityDomain { bits: 63 }
    }

    /// The raw bits of the set.
    pub fn bits(&self) -> (b: cl_device_affinity_domain)
        ensures
            b == self@,
    {
        self.bits
    }

    /// The set with the given bits, or `None` when a bit names no flag.
    pub fn from_bits(bits: cl_device_affinity_domain) -> (f: Option<DeviceAffinityDomain>)
        ensures
            f is Some <==> bits & !Self::all_bits() == 0,
            f matches Some(v) ==> v@ == bits && v.wf(),
    {
        if bits & !63u64 == 0 {
            Some(DeviceAffinityDomain { bits })
        } else {
            None
        }
    }

    /// Whether every flag of `other` is set in `self`.
    pub fn contains(&self, other: DeviceAffinityDomain) -> (r: bool)
        ensures
            r == (self@ & other@ == other@),
    {
        self.bits & other.bits == other.bits
    }

    /// The set of flags that are set in `self` or in `other`.
    pub fn union(&self, other: DeviceAffinityDomain) -> (f: DeviceAffinityDomain)
        ensures
            f@ == self@ | other@,
            self.wf() && other.wf() ==> f.wf(),
    {
        proof {
            if self.wf() && other.wf() {
                lemma_union_within_mask(self@, other@, Self::all_bits());
            }
        }
        DeviceAffinityDomain { bits: self.bits | other.bits }
    }
}

/// Every named device flag, the empty set and the full set lie inside the mask of their flag set.
proof fn lemma_device_flag_constants()
    by (bit_vector)
    ensures
        0u64 & !3u64 == 0,
        0u64 & !63u64 == 0,
        0u64 & !255u64 == 0,
        0u64 & !4294967295u64 == 0,
        1u64 & !3u64 == 0,
        1u64 & !63u64 == 0,
        1u64 & !255u64 == 0,
        1u64 & !4294967295u64 == 0,
        2u64 & !3u64 == 0,
        2u64 & !63u64 == 0,
        2u64 & !255u64 == 0,
        2u64 & !4294967295u64 == 0,
        3u64 & !3u64 == 0,
        4u64 & !63u64 == 0,
        4u64 & !255u64 == 0,
        4u64 & !4294967295u64 == 0,
        8u64 & !63u64 == 0,
        8u64 & !255u64 == 0,
        8u64 & !4294967295u64 == 0,
        16u64 & !63u64 == 0,
        16u64 & !255u64 == 0,
        16u64 & !4294967295u64 == 0,
        32u64 & !63u64 == 0,
        32u64 & !255u64 == 0,
        63u64 & !63u64 == 0,
        64u64 & !255u64 == 0,
        128u64 & !255u64 == 0,
        255u64 & !255u64 == 0,
        4294967295u64 & !4294967295u64 == 0,
{
}

} // verus!
