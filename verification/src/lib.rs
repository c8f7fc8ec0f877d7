//! A safe library for interacting with OpenCL: the flags, enumerations, configurations,
//! work sizes and number types that OpenCL calls take, and the decisions made around those
//! calls.
pub mod buffer_builder;
pub mod cl_object;
pub mod command_queue;
pub mod context_builder;
pub mod device;
pub mod enums;
pub mod event;
pub mod flags;
pub mod kernel;
pub mod mem;
pub mod mem_config;
pub mod number;
pub mod number_type;
pub mod number_vector;
pub mod testing;
pub mod work;
