use vstd::prelude::*;

use crate::mem;
use crate::mem_config;
use crate::number::ClNumber;

verus! {

/// What a buffer is created from: a length, for an empty buffer, or host data to copy.
pub trait BufferBuilder: Sized {
    /// The number of items of the buffer.
    spec fn buffer_len_spec(&self) -> nat;

    /// Whether the buffer is created from host data.
    spec fn holds_data(&self) -> bool;

    /// The number of items of the buffer.
    fn buffer_len(&self) -> (n: usize)
        ensures
            n == self.buffer_len_spec(),
    ;

    /// The configuration that suits the builder: `MemConfig::for_data` for host data,
    /// `MemConfig::for_size` for a length.
    fn mem_config(&self) -> (config: mem_config::MemConfig)
        ensures
            config@ == (if self.holds_data() {
                (
                    mem_config::HostAccess::ReadWrite,
                    mem_config::KernelAccess::ReadWrite,
                    mem_config::MemAllocation::CopyToDevice,
                )
            } else {
                (
                    mem_config::HostAccess::ReadWrite,
                    mem_config::KernelAccess::ReadWrite,
                    mem_config::MemAllocation::AllocOnDevice,
                )
            }),
    ;
}

impl<'a, T: ClNumber> BufferBuilder for &'a [T] {
    open spec fn buffer_len_spec(&self) -> nat {
        self@.len()
    }

    open spec fn holds_data(&self) -> bool {
        true
    }

    fn buffer_len(&self) -> (n: usize) {
        self.len()
    }

    fn mem_config(&self) -> (config: mem_config::MemConfig) {
        mem_config::MemConfig::for_data()
    }
}

impl<'a, T: ClNumber> BufferBuilder for &'a mut [T] {
    open spec fn buffer_len_spec(&self) -> nat {
        (**self)@.len()
    }

    open spec fn holds_data(&self) -> bool {
        true
    }

    fn buffer_len(&self) -> (n: usize) {
        (**self).len()
    }

    fn mem_config(&self) -> (config: mem_config::MemConfig) {
        mem_config::MemConfig::for_data()
    }
}

impl BufferBuilder for usize {
    open spec fn buffer_len_spec(&self) -> nat {
        *self as nat
    }

    open spec fn holds_data(&self) -> bool {
        false
    }

    fn buffer_len(&self) -> (n: usize) {
        *self
    }

    fn mem_config(&self) -> (config: mem_config::MemConfig) {
        mem_config::MemConfig::for_size()
    }
}

/// What a buffer of numbers of type `T` is created from: a length, for an empty buffer, or
/// host data to copy.
pub trait BufferCreator<T: ClNumber>: Sized {
    /// The number of items of the buffer.
    spec fn item_count(&self) -> nat;

    /// Whether the buffer is created from host data.
    spec fn holds_data(&self) -> bool;

    /// The size of the buffer in bytes: the size of `T` times the number of items.
    fn buffer_byte_size(&self) -> (n: usize)
        requires
            vstd::layout::size_of::<T>() * self.item_count() <= usize::MAX,
        ensures
            n == vstd::layout::size_of::<T>() * self.item_count(),
    ;

    /// The configuration that suits the creator: `MemConfig::for_data` for host data,
    /// `MemConfig::for_size` for a length.
    fn mem_config(&self) -> (config: mem::MemConfig)
        ensures
            config.host_access == mem::HostAccess::ReadWrite,
            config.kernel_access == mem::KernelAccess::ReadWrite,
            config.mem_location == (if self.holds_data() {
                mem::MemLocation::CopyToDevice
            } else {
                mem::MemLocation::AllocOnDevice
            }),
    ;
}

impl<'a, T: ClNumber> BufferCreator<T> for &'a [T] {
    open spec fn item_count(&self) -> nat {
        self@.len()
    }

    open spec fn holds_data(&self) -> bool {
        true
    }

    fn buffer_byte_size(&self) -> (n: usize) {
        core::mem::size_of::<T>() * self.len()
    }

    fn mem_config(&self) -> (config: mem::MemConfig) {
        mem::MemConfig::for_data()
    }
}

impl<'a, T: ClNumber> BufferCreator<T> for &'a mut [T] {
    open spec fn item_count(&self) -> nat {
        (**self)@.len()
    }

    open spec fn holds_data(&self) -> bool {
        true
    }

    fn buffer_byte_size(&self) -> (n: usize) {
        core::mem::size_of::<T>() * (**self).len()
    }

    fn mem_config(&self) -> (config: mem::MemConfig) {
        mem::MemConfig::for_data()
    }
}

impl<T: ClNumber> BufferCreator<T> for usize {
    open spec fn item_count(&self) -> nat {
        *self as nat
    }

    open spec fn holds_data(&self) -> bool {
        false
    }

    fn buffer_byte_size(&self) -> (n: usize) {
        core::mem::size_of::<T>() * *self
    }

    fn mem_config(&self) -> (config: mem::MemConfig) {
        mem::MemConfig::for_size()
    }
}

} // verus!
