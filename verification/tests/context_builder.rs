use open_cl::context_builder::{
    join_platform_devices, ContextBuildPlan, ContextBuilder, ContextBuilderError,
};
use open_cl::flags::DeviceType;

type Builder<'a> = ContextBuilder<'a, u32, u64>;

#[test]
fn context_builder_defaults_to_all_platforms_and_all_types() {
    match Builder::new().build_plan() {
        Ok(ContextBuildPlan::AllPlatforms(t)) => assert_eq!(t, DeviceType::ALL()),
        _ => panic!("expected a plan over all platforms"),
    }
}

#[test]
fn context_builder_with_device_type_only() {
    match Builder::new().with_device_type(DeviceType::GPU()).build_plan() {
        Ok(ContextBuildPlan::AllPlatforms(t)) => assert_eq!(t, DeviceType::GPU()),
        _ => panic!("expected a plan over all platforms"),
    }
}

#[test]
fn context_builder_with_platforms() {
    let platforms = [1u32, 2u32];
    match Builder::new().with_platforms(&platforms[..]).build_plan() {
        Ok(ContextBuildPlan::Platforms(p, t)) => {
            assert_eq!(p, &platforms[..]);
            assert_eq!(t, DeviceType::ALL());
        }
        _ => panic!("expected a plan over the given platforms"),
    }
    match Builder::new()
        .with_platforms(&platforms[..])
        .with_device_type(DeviceType::CPU())
        .build_plan()
    {
        Ok(ContextBuildPlan::Platforms(_, t)) => assert_eq!(t, DeviceType::CPU()),
        _ => panic!("expected a plan over the given platforms"),
    }
}

#[test]
fn context_builder_with_devices() {
    let devices = [9u64];
    match Builder::new().with_devices(&devices[..]).build_plan() {
        Ok(ContextBuildPlan::Devices(d)) => assert_eq!(d, &devices[..]),
        _ => panic!("expected a plan over the given devices"),
    }
}

#[test]
fn context_builder_refuses_devices_with_device_type() {
    let devices = [9u64];
    let platforms = [1u32];
    let r = Builder::new()
        .with_devices(&devices[..])
        .with_device_type(DeviceType::CPU())
        .build_plan();
    assert!(matches!(r, Err(ContextBuilderError::CannotSpecifyDevicesAndDeviceType)));
    let r2 = Builder::new()
        .with_devices(&devices[..])
        .with_device_type(DeviceType::CPU())
        .with_platforms(&platforms[..])
        .build_plan();
    assert!(matches!(r2, Err(ContextBuilderError::CannotSpecifyDevicesAndDeviceType)));
}

#[test]
fn context_builder_refuses_devices_with_platforms() {
    let devices = [9u64];
    let platforms = [1u32];
    let r = Builder::new()
        .with_devices(&devices[..])
        .with_platforms(&platforms[..])
        .build_plan();
    assert!(matches!(r, Err(ContextBuilderError::CannotSpecifyDevicesAndPlatforms)));
}

#[test]
fn platform_devices_are_joined_in_platform_order() {
    let joined = join_platform_devices(vec![vec![1u8, 2], vec![], vec![3, 4, 5]]);
    assert_eq!(joined, vec![1, 2, 3, 4, 5]);
    let none: Vec<Vec<u8>> = vec![];
    assert!(join_platform_devices(none).is_empty());
}
