use open_cl::flags::{cl_command_queue_properties, CommandQueueProperties};

#[test]
fn test_command_queue_properties_implements_default() {
    let q: CommandQueueProperties = Default::default();
    assert_eq!(q, CommandQueueProperties::PROFILING_ENABLE());
}

#[test]
fn test_command_queue_properties_can_be_assembled_from_bits() {
    let p: cl_command_queue_properties = CommandQueueProperties::PROFILING_ENABLE().bits();
    let q: CommandQueueProperties = CommandQueueProperties::from_bits(p).unwrap();
    assert_eq!(q, CommandQueueProperties::PROFILING_ENABLE());
}
