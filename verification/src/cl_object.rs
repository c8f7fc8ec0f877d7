use vstd::prelude::*;

verus! {

/// The address that OpenCL reports for a device that became unusable (seen for a graphics
/// card that a power-saving mode had switched off): `0xFFFF_FFFF`.
pub const UNUSABLE_DEVICE_PTR: usize = 0xFFFF_FFFF;

/// An error about a handle to an OpenCL object.
#[derive(Debug, Clone, Copy, PartialEq, Eq)]
pub enum ClObjectError {
    /// OpenCL returned a handle of the named type as a null pointer.
    NullPointer(&'static str),
    /// OpenCL returned an unusable device address (`0xFFFF_FFFF`).
    UnusableDeviceAddress,
}

/// Whether the error is a null pointer error that names the given handle type.
pub open spec fn is_null_pointer_error(e: ClObjectError, name: Seq<char>) -> bool {
    e matches ClObjectError::NullPointer(n) && n@ == name
}

/// A handle to an OpenCL object, held as the address of the object.
pub trait ClObject: Sized + Copy {
    /// The address that the handle holds.
    spec fn address_spec(&self) -> usize;

    /// Whether a handle with the address may be handed to OpenCL.
    spec fn usable(address: usize) -> bool;

    /// The handle for the given address, or the error that `check` reports for it.
    fn new(address: usize) -> (r: Result<Self, ClObjectError>)
        ensures
            r is Ok <==> Self::usable(address),
            r matches Ok(h) ==> h.address_spec() == address,
    ;

    /// Succeeds when the handle may be handed to OpenCL.
    fn check(&self) -> (r: Result<(), ClObjectError>)
        ensures
            r is Ok <==> Self::usable(self.address_spec()),
    ;

    /// The handle with the null address, which is never usable.
    fn null_ptr() -> (h: Self)
        ensures
            h.address_spec() == 0,
            !Self::usable(h.address_spec()),
    ;

    /// The name of the handle type.
    fn cl_type_name() -> &'static str;

    /// The address of the object.
    fn address(&self) -> (a: usize)
        ensures
            a == self.address_spec(),
    ;
}

/// A value that can tell whether it is a valid handle to an OpenCL object.
pub trait CheckValidClObject {
    fn check_valid_cl_object(&self) -> Result<(), ClObjectError>;
}

/// A handle to an OpenCL `cl_platform_id`, held as the object's address.
#[allow(non_camel_case_types)]
#[derive(Debug, Copy, Clone, PartialEq, Eq)]
pub struct cl_platform_id {
    address: usize,
}

impl View for cl_platform_id {
    type V = usize;

    closed spec fn view(&self) -> usize {
        self.address
    }
}

impl cl_platform_id {
    /// Whether a handle with the address may be handed to OpenCL: it is not null.
    pub open spec fn is_usable(address: usize) -> bool {
        address != 0
    }
}

impl ClObject for cl_platform_id {
    open spec fn address_spec(&self) -> usize {
        self@
    }

    open spec fn usable(address: usize) -> bool {
        cl_platform_id::is_usable(address)
    }

    fn new(address: usize) -> (r: Result<cl_platform_id, ClObjectError>)
        ensures
            address == 0 ==> (r matches Err(e) && is_null_pointer_error(e, "cl_platform_id"@)),
            cl_platform_id::is_usable(address) ==> (r matches Ok(h) && h@ == address),
    {
        let handle = cl_platform_id { address };
        match handle.check() {
            Ok(()) => Ok(handle),
            Err(e) => Err(e),
        }
    }

    fn check(&self) -> (r: Result<(), ClObjectError>)
        ensures
            self@ == 0 ==> (r matches Err(e) && is_null_pointer_error(e, "cl_platform_id"@)),
            cl_platform_id::is_usable(self@) ==> r is Ok,
    {
        proof {
            reveal_strlit("cl_platform_id");
        }
        if self.address == 0 {
            Err(ClObjectError::NullPointer("cl_platform_id"))
        } else {
            Ok(())
        }
    }

    fn null_ptr() -> (h: cl_platform_id)
        ensures
            h@ == 0,
    {
        cl_platform_id { address: 0 }
    }

    fn cl_type_name() -> (name: &'static str)
        ensures
            name@ == "cl_platform_id"@,
    {
        "cl_platform_id"
    }

    fn address(&self) -> (a: usize)
        ensures
            a == self@,
    {
        self.address
    }
}

impl CheckValidClObject for cl_platform_id {
    fn check_valid_cl_object(&self) -> (r: Result<(), ClObjectError>)
        ensures
            self@ == 0 ==> (r matches Err(e) && is_null_pointer_error(e, "cl_platform_id"@)),
            cl_platform_id::is_usable(self@) ==> r is Ok,
    {
        self.check()
    }
}

/// A handle to an OpenCL `cl_device_id`, held as the object's address.
#[allow(non_camel_case_types)]
#[derive(Debug, Copy, Clone, PartialEq, Eq)]
pub struct cl_device_id {
    address: usize,
}

impl View for cl_device_id {
    type V = usize;

    closed spec fn view(&self) -> usize {
        self.address
    }
}

/// Whether the device address is the one that OpenCL reports for an unusable device.
fn _is_unusable_device_ptr(address: usize) -> (b: bool)
    ensures
        b == (address == UNUSABLE_DEVICE_PTR),
{
    address == UNUSABLE_DEVICE_PTR
}

impl cl_device_id {
    /// Whether a handle with the address may be handed to OpenCL: it is neither null nor
    /// the unusable device address.
    pub open spec fn is_usable(address: usize) -> bool {
        address != 0 && address != UNUSABLE_DEVICE_PTR
    }
}

impl ClObject for cl_device_id {
    open spec fn address_spec(&self) -> usize {
        self@
    }

    open spec fn usable(address: usize) -> bool {
        cl_device_id::is_usable(address)
    }

    fn new(address: usize) -> (r: Result<cl_device_id, ClObjectError>)
        ensures
            address == 0 ==> (r matches Err(e) && is_null_pointer_error(e, "cl_device_id"@)),
            address == UNUSABLE_DEVICE_PTR ==> r == Err::<cl_device_id, ClObjectError>(
                ClObjectError::UnusableDeviceAddress,
            ),
            cl_device_id::is_usable(address) ==> (r matches Ok(h) && h@ == address),
    {
        let handle = cl_device_id { address };
        match handle.check() {
            Ok(()) => Ok(handle),
            Err(e) => Err(e),
        }
    }

    fn check(&self) -> (r: Result<(), ClObjectError>)
        ensures
            self@ == 0 ==> (r matches Err(e) && is_null_pointer_error(e, "cl_device_id"@)),
            self@ == UNUSABLE_DEVICE_PTR ==> r == Err::<(), ClObjectError>(
                ClObjectError::UnusableDeviceAddress,
            ),
            cl_device_id::is_usable(self@) ==> r is Ok,
    {
        proof {
            reveal_strlit("cl_device_id");
        }
        if self.address == 0 {
            Err(ClObjectError::NullPointer("cl_device_id"))
        } else if _is_unusable_device_ptr(self.address) {
            Err(ClObjectError::UnusableDeviceAddress)
        } else {
            Ok(())
        }
    }

    fn null_ptr() -> (h: cl_device_id)
        ensures
            h@ == 0,
    {
        cl_device_id { address: 0 }
    }

    fn cl_type_name() -> (name: &'static str)
        ensures
            name@ == "cl_device_id"@,
    {
        "cl_device_id"
    }

    fn address(&self) -> (a: usize)
        ensures
            a == self@,
    {
        self.address
    }
}

impl CheckValidClObject for cl_device_id {
    fn check_valid_cl_object(&self) -> (r: Result<(), ClObjectError>)
        ensures
            self@ == 0 ==> (r matches Err(e) && is_null_pointer_error(e, "cl_device_id"@)),
            self@ == UNUSABLE_DEVICE_PTR ==> r == Err::<(), ClObjectError>(
                ClObjectError::UnusableDeviceAddress,
            ),
            cl_device_id::is_usable(self@) ==> r is Ok,
    {
        self.check()
    }
}

/// A handle to an OpenCL `cl_context`, held as the object's address.
#[allow(non_camel_case_types)]
#[derive(Debug, Copy, Clone, PartialEq, Eq)]
pub struct cl_context {
    address: usize,
}

impl View for cl_context {
    type V = usize;

    closed spec fn view(&self) -> usize {
        self.address
    }
}

impl cl_context {
    /// Whether a handle with the address may be handed to OpenCL: it is not null.
    pub open spec fn is_usable(address: usize) -> bool {
        address != 0
    }
}

impl ClObject for cl_context {
    open spec fn address_spec(&self) -> usize {
        self@
    }

    open spec fn usable(address: usize) -> bool {
        cl_context::is_usable(address)
    }

    fn new(address: usize) -> (r: Result<cl_context, ClObjectError>)
        ensures
            address == 0 ==> (r matches Err(e) && is_null_pointer_error(e, "cl_context"@)),
            cl_context::is_usable(address) ==> (r matches Ok(h) && h@ == address),
    {
        let handle = cl_context { address };
        match handle.check() {
            Ok(()) => Ok(handle),
            Err(e) => Err(e),
        }
    }

    fn check(&self) -> (r: Result<(), ClObjectError>)
        ensures
            self@ == 0 ==> (r matches Err(e) && is_null_pointer_error(e, "cl_context"@)),
            cl_context::is_usable(self@) ==> r is Ok,
    {
        proof {
            reveal_strlit("cl_context");
        }
        if self.address == 0 {
            Err(ClObjectError::NullPointer("cl_context"))
        } else {
            Ok(())
        }
    }

    fn null_ptr() -> (h: cl_context)
        ensures
            h@ == 0,
    {
        cl_context { address: 0 }
    }

    fn cl_type_name() -> (name: &'static str)
        ensures
            name@ == "cl_context"@,
    {
        "cl_context"
    }

    fn address(&self) -> (a: usize)
        ensures
            a == self@,
    {
        self.address
    }
}

impl CheckValidClObject for cl_context {
    fn check_valid_cl_object(&self) -> (r: Result<(), ClObjectError>)
        ensures
            self@ == 0 ==> (r matches Err(e) && is_null_pointer_error(e, "cl_context"@)),
            cl_context::is_usable(self@) ==> r is Ok,
    {
        self.check()
    }
}

/// A handle to an OpenCL `cl_command_queue`, held as the object's address.
#[allow(non_camel_case_types)]
#[derive(Debug, Copy, Clone, PartialEq, Eq)]
pub struct cl_command_queue {
    address: usize,
}

impl View for cl_command_queue {
    type V = usize;

    closed spec fn view(&self) -> usize {
        self.address
    }
}

impl cl_command_queue {
    /// Whether a handle with the address may be handed to OpenCL: it is not null.
    pub open spec fn is_usable(address: usize) -> bool {
        address != 0
    }
}

impl ClObject for cl_command_queue {
    open spec fn address_spec(&self) -> usize {
        self@
    }

    open spec fn usable(address: usize) -> bool {
        cl_command_queue::is_usable(address)
    }

    fn new(address: usize) -> (r: Result<cl_command_queue, ClObjectError>)
        ensures
            address == 0 ==> (r matches Err(e) && is_null_pointer_error(e, "cl_command_queue"@)),
            cl_command_queue::is_usable(address) ==> (r matches Ok(h) && h@ == address),
    {
        let handle = cl_command_queue { address };
        match handle.check() {
            Ok(()) => Ok(handle),
            Err(e) => Err(e),
        }
    }

    fn check(&self) -> (r: Result<(), ClObjectError>)
        ensures
            self@ == 0 ==> (r matches Err(e) && is_null_pointer_error(e, "cl_command_queue"@)),
            cl_command_queue::is_usable(self@) ==> r is Ok,
    {
        proof {
            reveal_strlit("cl_command_queue");
        }
        if self.address == 0 {
            Err(ClObjectError::NullPointer("cl_command_queue"))
        } else {
            Ok(())
        }
    }

    fn null_ptr() -> (h: cl_command_queue)
        ensures
            h@ == 0,
    {
        cl_command_queue { address: 0 }
    }

    fn cl_type_name() -> (name: &'static str)
        ensures
            name@ == "cl_command_queue"@,
    {
        "cl_command_queue"
    }

    fn address(&self) -> (a: usize)
        ensures
            a == self@,
    {
        self.address
    }
}

impl CheckValidClObject for cl_command_queue {
    fn check_valid_cl_object(&self) -> (r: Result<(), ClObjectError>)
        ensures
            self@ == 0 ==> (r matches Err(e) && is_null_pointer_error(e, "cl_command_queue"@)),
            cl_command_queue::is_usable(self@) ==> r is Ok,
    {
        self.check()
    }
}

/// A handle to an OpenCL `cl_mem`, held as the object's address.
#[allow(non_camel_case_types)]
#[derive(Debug, Copy, Clone, PartialEq, Eq)]
pub struct cl_mem {
    address: usize,
}

impl View for cl_mem {
    type V = usize;

    closed spec fn view(&self) -> usize {
        self.address
    }
}

impl cl_mem {
    /// Whether a handle with the address may be handed to OpenCL: it is not null.
    pub open spec fn is_usable(address: usize) -> bool {
        address != 0
    }
}

impl ClObject for cl_mem {
    open spec fn address_spec(&self) -> usize {
        self@
    }

    open spec fn usable(address: usize) -> bool {
        cl_mem::is_usable(address)
    }

    fn new(address: usize) -> (r: Result<cl_mem, ClObjectError>)
        ensures
            address == 0 ==> (r matches Err(e) && is_null_pointer_error(e, "cl_mem"@)),
            cl_mem::is_usable(address) ==> (r matches Ok(h) && h@ == address),
    {
        let handle = cl_mem { address };
        match handle.check() {
            Ok(()) => Ok(handle),
            Err(e) => Err(e),
        }
    }

    fn check(&self) -> (r: Result<(), ClObjectError>)
        ensures
            self@ == 0 ==> (r matches Err(e) && is_null_pointer_error(e, "cl_mem"@)),
            cl_mem::is_usable(self@) ==> r is Ok,
    {
        proof {
            reveal_strlit("cl_mem");
        }
        if self.address == 0 {
            Err(ClObjectError::NullPointer("cl_mem"))
        } else {
            Ok(())
        }
    }

    fn null_ptr() -> (h: cl_mem)
        ensures
            h@ == 0,
    {
        cl_mem { address: 0 }
    }

    fn cl_type_name() -> (name: &'static str)
        ensures
            name@ == "cl_mem"@,
    {
        "cl_mem"
    }

    fn address(&self) -> (a: usize)
        ensures
            a == self@,
    {
        self.address
    }
}

impl CheckValidClObject for cl_mem {
    fn check_valid_cl_object(&self) -> (r: Result<(), ClObjectError>)
        ensures
            self@ == 0 ==> (r matches Err(e) && is_null_pointer_error(e, "cl_mem"@)),
            cl_mem::is_usable(self@) ==> r is Ok,
    {
        self.check()
    }
}

/// A handle to an OpenCL `cl_program`, held as the object's address.
#[allow(non_camel_case_types)]
#[derive(Debug, Copy, Clone, PartialEq, Eq)]
pub struct cl_program {
    address: usize,
}

impl View for cl_program {
    type V = usize;

    closed spec fn view(&self) -> usize {
        self.address
    }
}

impl cl_program {
    /// Whether a handle with the address may be handed to OpenCL: it is not null.
    pub open spec fn is_usable(address: usize) -> bool {
        address != 0
    }
}

impl ClObject for cl_program {
    open spec fn address_spec(&self) -> usize {
        self@
    }

    open spec fn usable(address: usize) -> bool {
        cl_program::is_usable(address)
    }

    fn new(address: usize) -> (r: Result<cl_program, ClObjectError>)
        ensures
            address == 0 ==> (r matches Err(e) && is_null_pointer_error(e, "cl_program"@)),
            cl_program::is_usable(address) ==> (r matches Ok(h) && h@ == address),
    {
        let handle = cl_program { address };
        match handle.check() {
            Ok(()) => Ok(handle),
            Err(e) => Err(e),
        }
    }

    fn check(&self) -> (r: Result<(), ClObjectError>)
        ensures
            self@ == 0 ==> (r matches Err(e) && is_null_pointer_error(e, "cl_program"@)),
            cl_program::is_usable(self@) ==> r is Ok,
    {
        proof {
            reveal_strlit("cl_program");
        }
        if self.address == 0 {
            Err(ClObjectError::NullPointer("cl_program"))
        } else {
            Ok(())
        }
    }

    fn null_ptr() -> (h: cl_program)
        ensures
            h@ == 0,
    {
        cl_program { address: 0 }
    }

    fn cl_type_name() -> (name: &'static str)
        ensures
            name@ == "cl_program"@,
    {
        "cl_program"
    }

    fn address(&self) -> (a: usize)
        ensures
            a == self@,
    {
        self.address
    }
}

impl CheckValidClObject for cl_program {
    fn check_valid_cl_object(&self) -> (r: Result<(), ClObjectError>)
        ensures
            self@ == 0 ==> (r matches Err(e) && is_null_pointer_error(e, "cl_program"@)),
            cl_program::is_usable(self@) ==> r is Ok,
    {
        self.check()
    }
}

/// A handle to an OpenCL `cl_kernel`, held as the object's address.
#[allow(non_camel_case_types)]
#[derive(Debug, Copy, Clone, PartialEq, Eq)]
pub struct cl_kernel {
    address: usize,
}

impl View for cl_kernel {
    type V = usize;

    closed spec fn view(&self) -> usize {
        self.address
    }
}

impl cl_kernel {
    /// Whether a handle with the address may be handed to OpenCL: it is not null.
    pub open spec fn is_usable(address: usize) -> bool {
        address != 0
    }
}

impl ClObject for cl_kernel {
    open spec fn address_spec(&self) -> usize {
        self@
    }

    open spec fn usable(address: usize) -> bool {
        cl_kernel::is_usable(address)
    }

    fn new(address: usize) -> (r: Result<cl_kernel, ClObjectError>)
        ensures
            address == 0 ==> (r matches Err(e) && is_null_pointer_error(e, "cl_kernel"@)),
            cl_kernel::is_usable(address) ==> (r matches Ok(h) && h@ == address),
    {
        let handle = cl_kernel { address };
        match handle.check() {
            Ok(()) => Ok(handle),
            Err(e) => Err(e),
        }
    }

    fn check(&self) -> (r: Result<(), ClObjectError>)
        ensures
            self@ == 0 ==> (r matches Err(e) && is_null_pointer_error(e, "cl_kernel"@)),
            cl_kernel::is_usable(self@) ==> r is Ok,
    {
        proof {
            reveal_strlit("cl_kernel");
        }
        if self.address == 0 {
            Err(ClObjectError::NullPointer("cl_kernel"))
        } else {
            Ok(())
        }
    }

    fn null_ptr() -> (h: cl_kernel)
        ensures
            h@ == 0,
    {
        cl_kernel { address: 0 }
    }

    fn cl_type_name() -> (name: &'static str)
        ensures
            name@ == "cl_kernel"@,
    {
        "cl_kernel"
    }

    fn address(&self) -> (a: usize)
        ensures
            a == self@,
    {
        self.address
    }
}

impl CheckValidClObject for cl_kernel {
    fn check_valid_cl_object(&self) -> (r: Result<(), ClObjectError>)
        ensures
            self@ == 0 ==> (r matches Err(e) && is_null_pointer_error(e, "cl_kernel"@)),
            cl_kernel::is_usable(self@) ==> r is Ok,
    {
        self.check()
    }
}

/// A handle to an OpenCL `cl_event`, held as the object's address.
#[allow(non_camel_case_types)]
#[derive(Debug, Copy, Clone, PartialEq, Eq)]
pub struct cl_event {
    address: usize,
}

impl View for cl_event {
    type V = usize;

    closed spec fn view(&self) -> usize {
        self.address
    }
}

impl cl_event {
    /// Whether a handle with the address may be handed to OpenCL: it is not null.
    pub open spec fn is_usable(address: usize) -> bool {
        address != 0
    }
}

impl ClObject for cl_event {
    open spec fn address_spec(&self) -> usize {
        self@
    }

    open spec fn usable(address: usize) -> bool {
        cl_event::is_usable(address)
    }

    fn new(address: usize) -> (r: Result<cl_event, ClObjectError>)
        ensures
            address == 0 ==> (r matches Err(e) && is_null_pointer_error(e, "cl_event"@)),
            cl_event::is_usable(address) ==> (r matches Ok(h) && h@ == address),
    {
        let handle = cl_event { address };
        match handle.check() {
            Ok(()) => Ok(handle),
            Err(e) => Err(e),
        }
    }

    fn check(&self) -> (r: Result<(), ClObjectError>)
        ensures
            self@ == 0 ==> (r matches Err(e) && is_null_pointer_error(e, "cl_event"@)),
            cl_event::is_usable(self@) ==> r is Ok,
    {
        proof {
            reveal_strlit("cl_event");
        }
        if self.address == 0 {
            Err(ClObjectError::NullPointer("cl_event"))
        } else {
            Ok(())
        }
    }

    fn null_ptr() -> (h: cl_event)
        ensures
            h@ == 0,
    {
        cl_event { address: 0 }
    }

    fn cl_type_name() -> (name: &'static str)
        ensures
            name@ == "cl_event"@,
    {
        "cl_event"
    }

    fn address(&self) -> (a: usize)
        ensures
            a == self@,
    {
        self.address
    }
}

impl CheckValidClObject for cl_event {
    fn check_valid_cl_object(&self) -> (r: Result<(), ClObjectError>)
        ensures
            self@ == 0 ==> (r matches Err(e) && is_null_pointer_error(e, "cl_event"@)),
            cl_event::is_usable(self@) ==> r is Ok,
    {
        self.check()
    }
}

/// A handle to an OpenCL `cl_sampler`, held as the object's address.
#[allow(non_camel_case_types)]
#[derive(Debug, Copy, Clone, PartialEq, Eq)]
pub struct cl_sampler {
    address: usize,
}

impl View for cl_sampler {
    type V = usize;

    closed spec fn view(&self) -> usize {
        self.address
    }
}

impl cl_sampler {
    /// Whether a handle with the address may be handed to OpenCL: it is not null.
    pub open spec fn is_usable(address: usize) -> bool {
        address != 0
    }
}

impl ClObject for cl_sampler {
    open spec fn address_spec(&self) -> usize {
        self@
    }

    open spec fn usable(address: usize) -> bool {
        cl_sampler::is_usable(address)
    }

    fn new(address: usize) -> (r: Result<cl_sampler, ClObjectError>)
        ensures
            address == 0 ==> (r matches Err(e) && is_null_pointer_error(e, "cl_sampler"@)),
            cl_sampler::is_usable(address) ==> (r matches Ok(h) && h@ == address),
    {
        let handle = cl_sampler { address };
        match handle.check() {
            Ok(()) => Ok(handle),
            Err(e) => Err(e),
        }
    }

    fn check(&self) -> (r: Result<(), ClObjectError>)
        ensures
            self@ == 0 ==> (r matches Err(e) && is_null_pointer_error(e, "cl_sampler"@)),
            cl_sampler::is_usable(self@) ==> r is Ok,
    {
        proof {
            reveal_strlit("cl_sampler");
        }
        if self.address == 0 {
            Err(ClObjectError::NullPointer("cl_sampler"))
        } else {
            Ok(())
        }
    }

    fn null_ptr() -> (h: cl_sampler)
        ensures
            h@ == 0,
    {
        cl_sampler { address: 0 }
    }

    fn cl_type_name() -> (name: &'static str)
        ensures
            name@ == "cl_sampler"@,
    {
        "cl_sampler"
    }

    fn address(&self) -> (a: usize)
        ensures
            a == self@,
    {
        self.address
    }
}

impl CheckValidClObject for cl_sampler {
    fn check_valid_cl_object(&self) -> (r: Result<(), ClObjectError>)
        ensures
            self@ == 0 ==> (r matches Err(e) && is_null_pointer_error(e, "cl_sampler"@)),
            cl_sampler::is_usable(self@) ==> r is Ok,
    {
        self.check()
    }
}

} // verus!
