# open_cl

A safe library for working with OpenCL, in two parts.

`src/` is the verified library. It holds what the OpenCL calls take and what is decided
around them, each function with a contract that Verus proves:

- `flags`: the bitfields of OpenCL (command queue properties, memory flags and their
  groups, device types and capabilities), with exact `from_bits`/`bits` contracts.
- `enums`: the enumerations of OpenCL and their `cl_*` values, both ways.
- `mem_config`, `mem`: how a buffer is accessed and allocated, and the memory flags that a
  configuration stands for; a configuration can be read back from its flags.
- `number`, `number_type`, `number_vector`: the number types that kernels take (single
  numbers and vectors of 2, 3, 4, 8 or 16) and their sizes.
- `work`: the global size, offset and local size of a kernel launch.
- `command_queue`, `event`, `kernel`: waitlists, queue options, profiling durations, the
  one-time hand-out of a read buffer, and the description of a kernel operation.
- `context_builder`, `device`, `cl_object`, `buffer_builder`: how a context is to be
  built, the decoding of device information, the checks on object handles, and what a
  buffer is created from.

`app/` is the part that calls the OpenCL runtime through `cl-sys`: reference counting,
platforms, devices, contexts, programs, kernels, buffers, command queues and sessions. It
hands every decision to the library. It needs the OpenCL runtime library to link.
