use vstd::prelude::*;

verus! {

/// The OpenCL source of a kernel that adds one to the integer it is given.
pub fn src_buffer_plus_one() -> (src: &'static str)
    ensures
        src@ == "__kernel void test(__global int *i) { *i += 1; }"@,
{
    "__kernel void test(__global int *i) { *i += 1; }"
}

} // verus!
