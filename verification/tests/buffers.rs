use open_cl::buffer_builder::{BufferBuilder, BufferCreator};
use open_cl::mem;
use open_cl::mem_config::{MemAllocation, MemConfig};
use open_cl::testing::src_buffer_plus_one;

#[test]
fn slices_build_buffers_from_data() {
    let data = [1u32, 2, 3];
    let b: &[u32] = &data[..];
    assert_eq!(BufferBuilder::buffer_len(&b), 3);
    assert_eq!(BufferBuilder::mem_config(&b), MemConfig::for_data());
    assert_eq!(BufferBuilder::mem_config(&b).mem_allocation(), MemAllocation::CopyToDevice);
}

#[test]
fn lengths_build_empty_buffers() {
    let n: usize = 10;
    assert_eq!(BufferBuilder::buffer_len(&n), 10);
    assert_eq!(BufferBuilder::mem_config(&n), MemConfig::for_size());
}

#[test]
fn buffer_creators_size_in_bytes() {
    let data = [1u64, 2];
    let b: &[u64] = &data[..];
    assert_eq!(BufferCreator::<u64>::buffer_byte_size(&b), 16);
    let n: usize = 10;
    assert_eq!(BufferCreator::<u32>::buffer_byte_size(&n), 40);
    assert!(matches!(BufferCreator::<u32>::mem_config(&n).mem_location, mem::MemLocation::AllocOnDevice));
    assert!(matches!(BufferCreator::<u64>::mem_config(&b).mem_location, mem::MemLocation::CopyToDevice));
}

#[test]
fn kernel_source_adds_one() {
    assert_eq!(src_buffer_plus_one(), "__kernel void test(__global int *i) { *i += 1; }");
}

#[test]
fn mutable_slices_build_buffers_from_data() {
    let mut data = [1i16, 2, 3, 4];
    let b: &mut [i16] = &mut data[..];
    assert_eq!(BufferBuilder::buffer_len(&b), 4);
    assert_eq!(BufferBuilder::mem_config(&b), MemConfig::for_data());
    assert_eq!(BufferCreator::<i16>::buffer_byte_size(&b), 8);
    assert!(matches!(BufferCreator::<i16>::mem_config(&b).mem_location, mem::MemLocation::CopyToDevice));
}
