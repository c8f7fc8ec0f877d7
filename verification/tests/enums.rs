use open_cl::enums::{
    AddressingMode, BuildStatus, ChannelOrder, CommandExecutionStatus, ContextProperties,
    DeviceInfo, MapFlags, MemMigrationFlags, PlatformInfo, ProfilingInfo,
};

#[test]
fn enums_convert_to_their_cl_values() {
    assert_eq!(u32::from(AddressingMode::Repeat), 0x1133);
    assert_eq!(u32::from(&ChannelOrder::sRGBA), 0x10C1);
    assert_eq!(i32::from(BuildStatus::InProgress), -3);
    assert_eq!(u64::from(MapFlags::WriteInvalidateRegion), 4);
    assert_eq!(u64::from(MemMigrationFlags::ContentUndefined), 2);
    assert_eq!(isize::from(ContextProperties::Platform), 0x1084);
    assert_eq!(u32::from(DeviceInfo::DriverVersion), 0x102D);
}

#[test]
fn enums_convert_from_their_cl_values() {
    assert_eq!(PlatformInfo::from_cl_value(0x0902), PlatformInfo::Name);
    assert_eq!(BuildStatus::from_cl_value(-1), BuildStatus::NoneType);
    assert_eq!(CommandExecutionStatus::from_cl_value(0), CommandExecutionStatus::Complete);
    assert_eq!(ProfilingInfo::from_cl_value(0x1283), ProfilingInfo::End);
    assert_eq!(DeviceInfo::from_cl_value(0x1033), DeviceInfo::HalfFpConfig);
}

#[test]
fn enum_round_trip_examples() {
    for e in [ProfilingInfo::Queued, ProfilingInfo::Submit, ProfilingInfo::Start, ProfilingInfo::End, ProfilingInfo::Complete] {
        assert_eq!(ProfilingInfo::from_cl_value(u32::from(e)), e);
    }
}

#[test]
fn enums_refuse_values_that_name_no_variant() {
    assert_eq!(PlatformInfo::try_from_cl_value(0x0902), Some(PlatformInfo::Name));
    assert_eq!(BuildStatus::try_from_cl_value(-3), Some(BuildStatus::InProgress));
    assert_eq!(PlatformInfo::try_from_cl_value(0x0000), None);
    assert_eq!(CommandExecutionStatus::try_from_cl_value(4), None);
    assert_eq!(AddressingMode::try_from_cl_value(0x1135), None);
}
