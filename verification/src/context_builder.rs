use vstd::prelude::*;

use crate::flags::DeviceType;

verus! {

/// An error in the description of a context to build.
#[derive(Debug, PartialEq, Eq, Clone, Copy, Structural)]
pub enum ContextBuilderError {
    /// For context building devices and device type cannot both be specified.
    CannotSpecifyDevicesAndDeviceType,
    /// For context building devices and platforms cannot both be specified.
    CannotSpecifyDevicesAndPlatforms,
}

/// The description of a context to build: from given platforms, from given devices, from a
/// device type, or from the platforms' devices of a device type.
pub struct ContextBuilder<'a, P, D> {
    pub platforms: Option<&'a [P]>,
    pub device_type: Option<DeviceType>,
    pub devices: Option<&'a [D]>,
}

/// How a context is to be built.
pub enum ContextBuildPlan<'a, P, D> {
    /// Create the context from the devices of the given type on every platform, and keep
    /// the devices with it.
    AllPlatforms(DeviceType),
    /// Create the context from the devices of the given type on the given platforms, and
    /// keep the devices with it.
    Platforms(&'a [P], DeviceType),
    /// Create the context from exactly the given devices.
    Devices(&'a [D]),
}

impl<'a, P, D> ContextBuilder<'a, P, D> {
    /// The device type that stands in for one that was not given.
    pub open spec fn device_type_or_all(self) -> DeviceType {
        match self.device_type {
            Some(t) => t,
            None => DeviceType { bits: 0xFFFF_FFFF },
        }
    }

    /// The plan that the builder describes, or the error of a contradictory description.
    pub open spec fn plan_spec(self) -> Result<ContextBuildPlan<'a, P, D>, ContextBuilderError> {
        match (self.platforms, self.device_type, self.devices) {
            (_, Some(_), Some(_)) => Err(ContextBuilderError::CannotSpecifyDevicesAndDeviceType),
            (Some(_), None, Some(_)) => Err(ContextBuilderError::CannotSpecifyDevicesAndPlatforms),
            (None, None, Some(d)) => Ok(ContextBuildPlan::Devices(d)),
            (Some(p), _, None) => Ok(ContextBuildPlan::Platforms(p, self.device_type_or_all())),
            (None, _, None) => Ok(ContextBuildPlan::AllPlatforms(self.device_type_or_all())),
        }
    }

    /// A builder with nothing specified.
    pub fn new() -> (b: ContextBuilder<'a, P, D>)
        ensures
            b.platforms is None,
            b.device_type is None,
            b.devices is None,
    {
        ContextBuilder { platforms: None, device_type: None, devices: None }
    }

    pub fn with_platforms(self, platforms: &'a [P]) -> (b: ContextBuilder<'a, P, D>)
        ensures
            b.platforms == Some(platforms),
            b.device_type == self.device_type,
            b.devices == self.devices,
    {
        ContextBuilder { platforms: Some(platforms), device_type: self.device_type, devices: self.devices }
    }

    pub fn with_device_type(self, device_type: DeviceType) -> (b: ContextBuilder<'a, P, D>)
        ensures
            b.platforms == self.platforms,
            b.device_type == Some(device_type),
            b.devices == self.devices,
    {
        ContextBuilder { platforms: self.platforms, device_type: Some(device_type), devices: self.devices }
    }

    pub fn with_devices(self, devices: &'a [D]) -> (b: ContextBuilder<'a, P, D>)
        ensures
            b.platforms == self.platforms,
            b.device_type == self.device_type,
            b.devices == Some(devices),
    {
        ContextBuilder { platforms: self.platforms, device_type: self.device_type, devices: Some(devices) }
    }

    /// Decides how the context is to be built. Devices exclude both a device type and
    /// platforms; given platforms are searched for devices of the given type, all platforms
    /// when none are given; a missing device type stands for all device types.
    pub fn build_plan(self) -> (r: Result<ContextBuildPlan<'a, P, D>, ContextBuilderError>)
        ensures
            r == self.plan_spec(),
    {
        match (self.platforms, self.device_type, self.devices) {
            (_, Some(_), Some(_)) => Err(ContextBuilderError::CannotSpecifyDevicesAndDeviceType),
            (Some(_), None, Some(_)) => Err(ContextBuilderError::CannotSpecifyDevicesAndPlatforms),
            (None, None, Some(devices)) => Ok(ContextBuildPlan::Devices(devices)),
            (Some(platforms), device_type, None) => Ok(
                ContextBuildPlan::Platforms(platforms, device_type_or_all(device_type)),
            ),
            (None, device_type, None) => Ok(
                ContextBuildPlan::AllPlatforms(device_type_or_all(device_type)),
            ),
        }
    }
}

/// The given device type, or all device types when none is given.
fn device_type_or_all(device_type: Option<DeviceType>) -> (t: DeviceType)
    ensures
        t == (match device_type {
            Some(t) => t,
            None => DeviceType { bits: 0xFFFF_FFFF },
        }),
{
    match device_type {
        Some(t) => t,
        None => DeviceType::ALL(),
    }
}

/// The devices of a context built from platforms: the devices found on each platform, one
/// platform after the other, in the order of the platforms.
pub open spec fn devices_in_order<D>(per_platform: Seq<Vec<D>>) -> Seq<D> {
    per_platform.map_values(|v: Vec<D>| v@).flatten()
}

/// Joins the devices found on each platform, in the order of the platforms, into the list
/// that the context is created on.
pub fn join_platform_devices<D>(per_platform: Vec<Vec<D>>) -> (devices: Vec<D>)
    ensures
        devices@ == devices_in_order(per_platform@),
{
    let ghost lists = per_platform@.map_values(|v: Vec<D>| v@);
    let n = per_platform.len();
    let mut rest = per_platform;
    let mut devices: Vec<D> = Vec::new();
    let mut k: usize = 0;
    while k < n
        invariant
            k <= n,
            lists.len() == n,
            rest@.len() == n - k,
            forall|j: int| 0 <= j < rest@.len() ==> #[trigger] rest@[j]@ == lists[k + j],
            devices@ == lists.subrange(0, k as int).flatten(),
        decreases n - k,
    {
        let ghost before = rest@;
        let mut next = rest.remove(0);
        proof {
            assert(before[0]@ == lists[k + 0]);
            assert(next@ == lists[k as int]);
            assert(lists.subrange(0, k + 1) =~= lists.subrange(0, k as int).push(lists[k as int]));
            lists.subrange(0, k as int).lemma_flatten_push(lists[k as int]);
            assert forall|j: int| 0 <= j < rest@.len() implies #[trigger] rest@[j]@ == lists[k + 1 + j] by {
                assert(rest@[j] == before[j + 1]);
                assert(before[j + 1]@ == lists[k + (j + 1)]);
            }
        }
        devices.append(&mut next);
        k = k + 1;
    }
    proof {
        assert(lists.subrange(0, n as int) =~= lists);
    }
    devices
}

/// A builder is refused exactly when it names devices together with a device type or
/// with platforms; otherwise the plan builds from the devices when they are given and from
/// platforms otherwise.
pub proof fn lemma_build_plan_refusals<'a, P, D>(b: ContextBuilder<'a, P, D>)
    ensures
        b.plan_spec() is Err <==> (b.devices is Some && (b.device_type is Some
            || b.platforms is Some)),
        b.plan_spec() matches Ok(ContextBuildPlan::Devices(d)) ==> b.devices == Some(d),
        b.devices is None ==> !(b.plan_spec() matches Ok(ContextBuildPlan::Devices(_))),
{
}

/// What each description builds: devices together with a device type or with platforms
/// are refused; devices alone build from exactly those devices; otherwise the given
/// platforms, or all platforms when none are given, are searched for devices of the given
/// type, or of every type (`CL_DEVICE_TYPE_ALL`, `0xFFFF_FFFF`) when none is given.
pub proof fn lemma_build_plan_results<'a, P, D>(
    b: ContextBuilder<'a, P, D>,
    r: Result<ContextBuildPlan<'a, P, D>, ContextBuilderError>,
)
    requires
        call_ensures(ContextBuilder::<'a, P, D>::build_plan, (b,), r),
    ensures
        match (b.platforms, b.device_type, b.devices) {
            (_, Some(_), Some(_)) => r == Err::<ContextBuildPlan<'a, P, D>, ContextBuilderError>(
                ContextBuilderError::CannotSpecifyDevicesAndDeviceType,
            ),
            (Some(_), None, Some(_)) => r == Err::<ContextBuildPlan<'a, P, D>, ContextBuilderError>(
                ContextBuilderError::CannotSpecifyDevicesAndPlatforms,
            ),
            (None, None, Some(d)) => r == Ok::<ContextBuildPlan<'a, P, D>, ContextBuilderError>(
                ContextBuildPlan::Devices(d),
            ),
            (Some(p), Some(t), None) => r == Ok::<ContextBuildPlan<'a, P, D>, ContextBuilderError>(
                ContextBuildPlan::Platforms(p, t),
            ),
            (Some(p), None, None) => r == Ok::<ContextBuildPlan<'a, P, D>, ContextBuilderError>(
                ContextBuildPlan::Platforms(p, DeviceType { bits: 0xFFFF_FFFF }),
            ),
            (None, Some(t), None) => r == Ok::<ContextBuildPlan<'a, P, D>, ContextBuilderError>(
                ContextBuildPlan::AllPlatforms(t),
            ),
            (None, None, None) => r == Ok::<ContextBuildPlan<'a, P, D>, ContextBuilderError>(
                ContextBuildPlan::AllPlatforms(DeviceType { bits: 0xFFFF_FFFF }),
            ),
        },
{
}

} // verus!
