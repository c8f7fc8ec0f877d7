use vstd::prelude::*;

use crate::cl_object::cl_device_id;
use crate::flags::{
    cl_device_affinity_domain, cl_device_exec_capabilities, cl_device_type, DeviceAffinityDomain,
    DeviceExecCapabilities, DeviceType,
};

verus! {

/// An error related to a device.
#[derive(Debug, PartialEq, Eq, Clone, Copy, Structural)]
pub enum DeviceError {
    /// The given platform had no default device.
    NoDefaultDevice,
    /// The given device had no parent device.
    NoParentDevice,
    /// Invalid device info value.
    InvalidInfoValue,
}

/// The device type that OpenCL reported; `InvalidInfoValue` when a bit names no type.
pub fn device_type_from_info(value: cl_device_type) -> (r: Result<DeviceType, DeviceError>)
    ensures
        value & !DeviceType::all_bits() == 0 ==> (r matches Ok(t) && t@ == value),
        value & !DeviceType::all_bits() != 0 ==> r == Err::<DeviceType, DeviceError>(
            DeviceError::InvalidInfoValue,
        ),
{
    match DeviceType::from_bits(value) {
        Some(f) => Ok(f),
        None => Err(DeviceError::InvalidInfoValue),
    }
}

/// The execution capabilities that OpenCL reported; `InvalidInfoValue` when a bit names no
/// capability.
pub fn exec_capabilities_from_info(value: cl_device_exec_capabilities) -> (r: Result<
    DeviceExecCapabilities,
    DeviceError,
>)
    ensures
        value & !DeviceExecCapabilities::all_bits() == 0 ==> (r matches Ok(c) && c@ == value),
        value & !DeviceExecCapabilities::all_bits() != 0 ==> r == Err::<
            DeviceExecCapabilities,
            DeviceError,
        >(DeviceError::InvalidInfoValue),
{
    match DeviceExecCapabilities::from_bits(value) {
        Some(f) => Ok(f),
        None => Err(DeviceError::InvalidInfoValue),
    }
}

/// The partition affinity domain that OpenCL reported; `InvalidInfoValue` when a bit names
/// no domain.
pub fn affinity_domain_from_info(value: cl_device_affinity_domain) -> (r: Result<
    DeviceAffinityDomain,
    DeviceError,
>)
    ensures
        value & !DeviceAffinityDomain::all_bits() == 0 ==> (r matches Ok(d) && d@ == value),
        value & !DeviceAffinityDomain::all_bits() != 0 ==> r == Err::<
            DeviceAffinityDomain,
            DeviceError,
        >(DeviceError::InvalidInfoValue),
{
    match DeviceAffinityDomain::from_bits(value) {
        Some(f) => Ok(f),
        None => Err(DeviceError::InvalidInfoValue),
    }
}

/// A value that refers to an OpenCL device.
pub trait DevicePtr {
    /// The device that the value refers to.
    spec fn device_ptr_spec(&self) -> cl_device_id;

    fn device_ptr(&self) -> (d: cl_device_id)
        ensures
            d == self.device_ptr_spec(),
    ;
}

impl DevicePtr for cl_device_id {
    open spec fn device_ptr_spec(&self) -> cl_device_id {
        *self
    }

    fn device_ptr(&self) -> (d: cl_device_id) {
        *self
    }
}

} // verus!
