use vstd::prelude::*;
use vstd::std_specs::convert::FromSpecImpl;

verus! {

/// The integer type of OpenCL's `cl_addressing_mode`.
#[allow(non_camel_case_types)]
pub type cl_addressing_mode = u32;

/// The integer type of OpenCL's `cl_buffer_create_type`.
#[allow(non_camel_case_types)]
pub type cl_buffer_create_type = u32;

/// The integer type of OpenCL's `cl_build_status`.
#[allow(non_camel_case_types)]
pub type cl_build_status = i32;

/// The integer type of OpenCL's `cl_channel_order`.
#[allow(non_camel_case_types)]
pub type cl_channel_order = u32;

/// The integer type of OpenCL's `cl_channel_type`.
#[allow(non_camel_case_types)]
pub type cl_channel_type = u32;

/// The integer type of OpenCL's `cl_command_queue_info`.
#[allow(non_camel_case_types)]
pub type cl_command_queue_info = u32;

/// The integer type of OpenCL's `cl_command_type`.
#[allow(non_camel_case_types)]
pub type cl_command_type = u32;

/// The integer type of OpenCL's `cl_context_info`.
#[allow(non_camel_case_types)]
pub type cl_context_info = u32;

/// The integer type of OpenCL's `cl_context_properties`.
#[allow(non_camel_case_types)]
pub type cl_context_properties = isize;

/// The integer type of OpenCL's `cl_device_info`.
#[allow(non_camel_case_types)]
pub type cl_device_info = u32;

/// The integer type of OpenCL's `cl_device_local_mem_type`.
#[allow(non_camel_case_types)]
pub type cl_device_local_mem_type = u32;

/// The integer type of OpenCL's `cl_device_mem_cache_type`.
#[allow(non_camel_case_types)]
pub type cl_device_mem_cache_type = u32;

/// The integer type of OpenCL's `cl_device_partition_property`.
#[allow(non_camel_case_types)]
pub type cl_device_partition_property = isize;

/// The integer type of OpenCL's `cl_event_info`.
#[allow(non_camel_case_types)]
pub type cl_event_info = u32;

/// The integer type of OpenCL's `cl_filter_mode`.
#[allow(non_camel_case_types)]
pub type cl_filter_mode = u32;

/// The integer type of OpenCL's `cl_image_info`.
#[allow(non_camel_case_types)]
pub type cl_image_info = u32;

/// The integer type of OpenCL's `cl_kernel_arg_access_qualifier`.
#[allow(non_camel_case_types)]
pub type cl_kernel_arg_access_qualifier = u32;

/// The integer type of OpenCL's `cl_kernel_arg_address_qualifier`.
#[allow(non_camel_case_types)]
pub type cl_kernel_arg_address_qualifier = u32;

/// The integer type of OpenCL's `cl_kernel_arg_info`.
#[allow(non_camel_case_types)]
pub type cl_kernel_arg_info = u32;

/// The integer type of OpenCL's `cl_kernel_arg_type_qualifier`.
#[allow(non_camel_case_types)]
pub type cl_kernel_arg_type_qualifier = u32;

/// The integer type of OpenCL's `cl_kernel_info`.
#[allow(non_camel_case_types)]
pub type cl_kernel_info = u32;

/// The integer type of OpenCL's `cl_kernel_work_group_info`.
#[allow(non_camel_case_types)]
pub type cl_kernel_work_group_info = u32;

/// The integer type of OpenCL's `cl_map_flags`.
#[allow(non_camel_case_types)]
pub type cl_map_flags = u64;

/// The integer type of OpenCL's `cl_mem_info`.
#[allow(non_camel_case_types)]
pub type cl_mem_info = u32;

/// The integer type of OpenCL's `cl_mem_migration_flags`.
#[allow(non_camel_case_types)]
pub type cl_mem_migration_flags = u64;

/// The integer type of OpenCL's `cl_mem_object_type`.
#[allow(non_camel_case_types)]
pub type cl_mem_object_type = u32;

/// The integer type of OpenCL's `cl_platform_info`.
#[allow(non_camel_case_types)]
pub type cl_platform_info = u32;

/// The integer type of OpenCL's `cl_profiling_info`.
#[allow(non_camel_case_types)]
pub type cl_profiling_info = u32;

/// The integer type of OpenCL's `cl_program_binary_type`.
#[allow(non_camel_case_types)]
pub type cl_program_binary_type = u32;

/// The integer type of OpenCL's `cl_program_build_info`.
#[allow(non_camel_case_types)]
pub type cl_program_build_info = u32;

/// The integer type of OpenCL's `cl_program_info`.
#[allow(non_camel_case_types)]
pub type cl_program_info = u32;

/// The integer type of OpenCL's `cl_sampler_info`.
#[allow(non_camel_case_types)]
pub type cl_sampler_info = u32;

/// The integer type of OpenCL's `cl_int`.
#[allow(non_camel_case_types)]
pub type cl_int = i32;

/// How a sampler addresses image coordinates outside the image.
#[allow(non_camel_case_types)]
#[derive(Debug, Clone, Copy, PartialEq, Eq, PartialOrd, Hash, Structural)]
pub enum AddressingMode {
    NoneType,
    ClampToEdge,
    Clamp,
    Repeat,
    MirroredRepeat,
}

impl AddressingMode {
    /// The `cl_addressing_mode` value that OpenCL uses for this variant.
    pub open spec fn cl_value(self) -> cl_addressing_mode {
        match self {
            AddressingMode::NoneType => 4400u32,
            AddressingMode::ClampToEdge => 4401u32,
            AddressingMode::Clamp => 4402u32,
            AddressingMode::Repeat => 4403u32,
            AddressingMode::MirroredRepeat => 4404u32,
        }
    }

    /// Whether OpenCL uses the value for one of the variants.
    pub open spec fn is_cl_value(value: cl_addressing_mode) -> bool {
        value == 4400u32 || value == 4401u32 || value == 4402u32 || value == 4403u32 || value == 4404u32
    }

    /// The variant for which OpenCL uses the value.
    pub open spec fn from_cl_value_spec(value: cl_addressing_mode) -> AddressingMode {
        if value == 4400u32 {
            AddressingMode::NoneType
        } else if value == 4401u32 {
            AddressingMode::ClampToEdge
        } else if value == 4402u32 {
            AddressingMode::Clamp
        } else if value == 4403u32 {
            AddressingMode::Repeat
        } else {
            AddressingMode::MirroredRepeat
        }
    }

    /// The variant for which OpenCL uses the value. Any other value stops the program.
    #[verifier::spinoff_prover]
    pub fn from_cl_value(value: cl_addressing_mode) -> (e: AddressingMode)
        requires
            AddressingMode::is_cl_value(value),
        ensures
            e.cl_value() == value,
            e == AddressingMode::from_cl_value_spec(value),
    {
        match value {
            4400u32 => AddressingMode::NoneType,
            4401u32 => AddressingMode::ClampToEdge,
            4402u32 => AddressingMode::Clamp,
            4403u32 => AddressingMode::Repeat,
            4404u32 => AddressingMode::MirroredRepeat,
            _ => {
                proof {
                    assert(false);
                }
                AddressingMode::NoneType
            },
        }
    }

    /// The variant for which OpenCL uses the value, or `None` when OpenCL uses the value
    /// for none of the variants.
    #[verifier::spinoff_prover]
    pub fn try_from_cl_value(value: cl_addressing_mode) -> (r: Option<AddressingMode>)
        ensures
            r is Some <==> AddressingMode::is_cl_value(value),
            r matches Some(e) ==> e == AddressingMode::from_cl_value_spec(value) && e.cl_value() == value,
    {
        match value {
            4400u32 => Some(AddressingMode::NoneType),
            4401u32 => Some(AddressingMode::ClampToEdge),
            4402u32 => Some(AddressingMode::Clamp),
            4403u32 => Some(AddressingMode::Repeat),
            4404u32 => Some(AddressingMode::MirroredRepeat),
            _ => None,
        }
    }
}

impl From<AddressingMode> for cl_addressing_mode {
    fn from(value: AddressingMode) -> (v: cl_addressing_mode)
        ensures
            v == value.cl_value(),
    {
        match value {
            AddressingMode::NoneType => 4400u32,
            AddressingMode::ClampToEdge => 4401u32,
            AddressingMode::Clamp => 4402u32,
            AddressingMode::Repeat => 4403u32,
            AddressingMode::MirroredRepeat => 4404u32,
        }
    }
}

impl FromSpecImpl<AddressingMode> for cl_addressing_mode {
    open spec fn obeys_from_spec() -> bool {
        true
    }

    open spec fn from_spec(v: AddressingMode) -> cl_addressing_mode {
        v.cl_value()
    }
}

impl From<&AddressingMode> for cl_addressing_mode {
    fn from(value: &AddressingMode) -> (v: cl_addressing_mode)
        ensures
            v == value.cl_value(),
    {
        cl_addressing_mode::from(*value)
    }
}

impl FromSpecImpl<&AddressingMode> for cl_addressing_mode {
    open spec fn obeys_from_spec() -> bool {
        true
    }

    open spec fn from_spec(v: &AddressingMode) -> cl_addressing_mode {
        v.cl_value()
    }
}

/// Every variant has its own OpenCL value, and reading that value back gives the variant.
pub proof fn lemma_addressing_mode_round_trip(e: AddressingMode)
    ensures
        AddressingMode::is_cl_value(e.cl_value()),
        AddressingMode::from_cl_value_spec(e.cl_value()) == e,
{
}

/// The order of the channels of an image format.
#[allow(non_camel_case_types)]
#[derive(Debug, Clone, Copy, PartialEq, Eq, PartialOrd, Hash, Structural)]
pub enum ChannelOrder {
    R,
    A,
    RG,
    RA,
    RGB,
    RGBA,
    BGRA,
    ARGB,
    Intensity,
    Luminance,
    Rx,
    RGx,
    RGBx,
    Depth,
    DepthStencil,
    sRGB,
    sRGBx,
    sRGBA,
    sBGRA,
    ABGR,
}

impl ChannelOrder {
    /// The `cl_channel_order` value that OpenCL uses for this variant.
    pub open spec fn cl_value(self) -> cl_channel_order {
        match self {
            ChannelOrder::R => 4272u32,
            ChannelOrder::A => 4273u32,
            ChannelOrder::RG => 4274u32,
            ChannelOrder::RA => 4275u32,
            ChannelOrder::RGB => 4276u32,
            ChannelOrder::RGBA => 4277u32,
            ChannelOrder::BGRA => 4278u32,
            ChannelOrder::ARGB => 4279u32,
            ChannelOrder::Intensity => 4280u32,
            ChannelOrder::Luminance => 4281u32,
            ChannelOrder::Rx => 4282u32,
            ChannelOrder::RGx => 4283u32,
            ChannelOrder::RGBx => 4284u32,
            ChannelOrder::Depth => 4285u32,
            ChannelOrder::DepthStencil => 4286u32,
            ChannelOrder::sRGB => 4287u32,
            ChannelOrder::sRGBx => 4288u32,
            ChannelOrder::sRGBA => 4289u32,
            ChannelOrder::sBGRA => 4290u32,
            ChannelOrder::ABGR => 4291u32,
        }
    }

    /// Whether OpenCL uses the value for one of the variants.
    pub open spec fn is_cl_value(value: cl_channel_order) -> bool {
        value == 4272u32 || value == 4273u32 || value == 4274u32 || value == 4275u32 || value == 4276u32 || value == 4277u32 || value == 4278u32 || value == 4279u32 || value == 4280u32 || value == 4281u32 || value == 4282u32 || value == 4283u32 || value == 4284u32 || value == 4285u32 || value == 4286u32 || value == 4287u32 || value == 4288u32 || value == 4289u32 || value == 4290u32 || value == 4291u32
    }

    /// The variant for which OpenCL uses the value.
    pub open spec fn from_cl_value_spec(value: cl_channel_order) -> ChannelOrder {
        if value == 4272u32 {
            ChannelOrder::R
        } else if value == 4273u32 {
            ChannelOrder::A
        } else if value == 4274u32 {
            ChannelOrder::RG
        } else if value == 4275u32 {
            ChannelOrder::RA
        } else if value == 4276u32 {
            ChannelOrder::RGB
        } else if value == 4277u32 {
            ChannelOrder::RGBA
        } else if value == 4278u32 {
            ChannelOrder::BGRA
        } else if value == 4279u32 {
            ChannelOrder::ARGB
        } else if value == 4280u32 {
            ChannelOrder::Intensity
        } else if value == 4281u32 {
            ChannelOrder::Luminance
        } else if value == 4282u32 {
            ChannelOrder::Rx
        } else if value == 4283u32 {
            ChannelOrder::RGx
        } else if value == 4284u32 {
            ChannelOrder::RGBx
        } else if value == 4285u32 {
            ChannelOrder::Depth
        } else if value == 4286u32 {
            ChannelOrder::DepthStencil
        } else if value == 4287u32 {
            ChannelOrder::sRGB
        } else if value == 4288u32 {
            ChannelOrder::sRGBx
        } else if value == 4289u32 {
            ChannelOrder::sRGBA
        } else if value == 4290u32 {
            ChannelOrder::sBGRA
        } else {
            ChannelOrder::ABGR
        }
    }

    /// The variant for which OpenCL uses the value. Any other value stops the program.
    #[verifier::spinoff_prover]
    pub fn from_cl_value(value: cl_channel_order) -> (e: ChannelOrder)
        requires
            ChannelOrder::is_cl_value(value),
        ensures
            e.cl_value() == value,
            e == ChannelOrder::from_cl_value_spec(value),
    {
        match value {
            4272u32 => ChannelOrder::R,
            4273u32 => ChannelOrder::A,
            4274u32 => ChannelOrder::RG,
            4275u32 => ChannelOrder::RA,
            4276u32 => ChannelOrder::RGB,
            4277u32 => ChannelOrder::RGBA,
            4278u32 => ChannelOrder::BGRA,
            4279u32 => ChannelOrder::ARGB,
            4280u32 => ChannelOrder::Intensity,
            4281u32 => ChannelOrder::Luminance,
            4282u32 => ChannelOrder::Rx,
            4283u32 => ChannelOrder::RGx,
            4284u32 => ChannelOrder::RGBx,
            4285u32 => ChannelOrder::Depth,
            4286u32 => ChannelOrder::DepthStencil,
            4287u32 => ChannelOrder::sRGB,
            4288u32 => ChannelOrder::sRGBx,
            4289u32 => ChannelOrder::sRGBA,
            4290u32 => ChannelOrder::sBGRA,
            4291u32 => ChannelOrder::ABGR,
            _ => {
                proof {
                    assert(false);
                }
                ChannelOrder::R
            },
        }
    }

    /// The variant for which OpenCL uses the value, or `None` when OpenCL uses the value
    /// for none of the variants.
    #[verifier::spinoff_prover]
    pub fn try_from_cl_value(value: cl_channel_order) -> (r: Option<ChannelOrder>)
        ensures
            r is Some <==> ChannelOrder::is_cl_value(value),
            r matches Some(e) ==> e == ChannelOrder::from_cl_value_spec(value) && e.cl_value() == value,
    {
        match value {
            4272u32 => Some(ChannelOrder::R),
            4273u32 => Some(ChannelOrder::A),
            4274u32 => Some(ChannelOrder::RG),
            4275u32 => Some(ChannelOrder::RA),
            4276u32 => Some(ChannelOrder::RGB),
            4277u32 => Some(ChannelOrder::RGBA),
            4278u32 => Some(ChannelOrder::BGRA),
            4279u32 => Some(ChannelOrder::ARGB),
            4280u32 => Some(ChannelOrder::Intensity),
            4281u32 => Some(ChannelOrder::Luminance),
            4282u32 => Some(ChannelOrder::Rx),
            4283u32 => Some(ChannelOrder::RGx),
            4284u32 => Some(ChannelOrder::RGBx),
            4285u32 => Some(ChannelOrder::Depth),
            4286u32 => Some(ChannelOrder::DepthStencil),
            4287u32 => Some(ChannelOrder::sRGB),
            4288u32 => Some(ChannelOrder::sRGBx),
            4289u32 => Some(ChannelOrder::sRGBA),
            4290u32 => Some(ChannelOrder::sBGRA),
            4291u32 => Some(ChannelOrder::ABGR),
            _ => None,
        }
    }
}

impl From<ChannelOrder> for cl_channel_order {
    fn from(value: ChannelOrder) -> (v: cl_channel_order)
        ensures
            v == value.cl_value(),
    {
        match value {
            ChannelOrder::R => 4272u32,
            ChannelOrder::A => 4273u32,
            ChannelOrder::RG => 4274u32,
            ChannelOrder::RA => 4275u32,
            ChannelOrder::RGB => 4276u32,
            ChannelOrder::RGBA => 4277u32,
            ChannelOrder::BGRA => 4278u32,
            ChannelOrder::ARGB => 4279u32,
            ChannelOrder::Intensity => 4280u32,
            ChannelOrder::Luminance => 4281u32,
            ChannelOrder::Rx => 4282u32,
            ChannelOrder::RGx => 4283u32,
            ChannelOrder::RGBx => 4284u32,
            ChannelOrder::Depth => 4285u32,
            ChannelOrder::DepthStencil => 4286u32,
            ChannelOrder::sRGB => 4287u32,
            ChannelOrder::sRGBx => 4288u32,
            ChannelOrder::sRGBA => 4289u32,
            ChannelOrder::sBGRA => 4290u32,
            ChannelOrder::ABGR => 4291u32,
        }
    }
}

impl FromSpecImpl<ChannelOrder> for cl_channel_order {
    open spec fn obeys_from_spec() -> bool {
        true
    }

    open spec fn from_spec(v: ChannelOrder) -> cl_channel_order {
        v.cl_value()
    }
}

impl From<&ChannelOrder> for cl_channel_order {
    fn from(value: &ChannelOrder) -> (v: cl_channel_order)
        ensures
            v == value.cl_value(),
    {
        cl_channel_order::from(*value)
    }
}

impl FromSpecImpl<&ChannelOrder> for cl_channel_order {
    open spec fn obeys_from_spec() -> bool {
        true
    }

    open spec fn from_spec(v: &ChannelOrder) -> cl_channel_order {
        v.cl_value()
    }
}

/// Every variant has its own OpenCL value, and reading that value back gives the variant.
pub proof fn lemma_channel_order_round_trip(e: ChannelOrder)
    ensures
        ChannelOrder::is_cl_value(e.cl_value()),
        ChannelOrder::from_cl_value_spec(e.cl_value()) == e,
{
}

/// The type of the channels of an image format.
#[allow(non_camel_case_types)]
#[derive(Debug, Clone, Copy, PartialEq, Eq, PartialOrd, Hash, Structural)]
pub enum ChannelType {
    SnormInt8,
    SnormInt16,
    UnormInt8,
    UnormInt16,
    UnormShort_565,
    UnormShort_555,
    UnormInt_101010,
    SignedInt8,
    SignedInt16,
    SignedInt32,
    UnsignedInt8,
    UnsignedInt16,
    UnsignedInt32,
    HalfFloat,
    Float,
    UnormInt24,
    UnormInt_101010_2,
}

impl ChannelType {
    /// The `cl_channel_type` value that OpenCL uses for this variant.
    pub open spec fn cl_value(self) -> cl_channel_type {
        match self {
            ChannelType::SnormInt8 => 4304u32,
            ChannelType::SnormInt16 => 4305u32,
            ChannelType::UnormInt8 => 4306u32,
            ChannelType::UnormInt16 => 4307u32,
            ChannelType::UnormShort_565 => 4308u32,
            ChannelType::UnormShort_555 => 4309u32,
            ChannelType::UnormInt_101010 => 4310u32,
            ChannelType::SignedInt8 => 4311u32,
            ChannelType::SignedInt16 => 4312u32,
            ChannelType::SignedInt32 => 4313u32,
            ChannelType::UnsignedInt8 => 4314u32,
            ChannelType::UnsignedInt16 => 4315u32,
            ChannelType::UnsignedInt32 => 4316u32,
            ChannelType::HalfFloat => 4317u32,
            ChannelType::Float => 4318u32,
            ChannelType::UnormInt24 => 4319u32,
            ChannelType::UnormInt_101010_2 => 4320u32,
        }
    }

    /// Whether OpenCL uses the value for one of the variants.
    pub open spec fn is_cl_value(value: cl_channel_type) -> bool {
        value == 4304u32 || value == 4305u32 || value == 4306u32 || value == 4307u32 || value == 4308u32 || value == 4309u32 || value == 4310u32 || value == 4311u32 || value == 4312u32 || value == 4313u32 || value == 4314u32 || value == 4315u32 || value == 4316u32 || value == 4317u32 || value == 4318u32 || value == 4319u32 || value == 4320u32
    }

    /// The variant for which OpenCL uses the value.
    pub open spec fn from_cl_value_spec(value: cl_channel_type) -> ChannelType {
        if value == 4304u32 {
            ChannelType::SnormInt8
        } else if value == 4305u32 {
            ChannelType::SnormInt16
        } else if value == 4306u32 {
            ChannelType::UnormInt8
        } else if value == 4307u32 {
            ChannelType::UnormInt16
        } else if value == 4308u32 {
            ChannelType::UnormShort_565
        } else if value == 4309u32 {
            ChannelType::UnormShort_555
        } else if value == 4310u32 {
            ChannelType::UnormInt_101010
        } else if value == 4311u32 {
            ChannelType::SignedInt8
        } else if value == 4312u32 {
            ChannelType::SignedInt16
        } else if value == 4313u32 {
            ChannelType::SignedInt32
        } else if value == 4314u32 {
            ChannelType::UnsignedInt8
        } else if value == 4315u32 {
            ChannelType::UnsignedInt16
        } else if value == 4316u32 {
            ChannelType::UnsignedInt32
        } else if value == 4317u32 {
            ChannelType::HalfFloat
        } else if value == 4318u32 {
            ChannelType::Float
        } else if value == 4319u32 {
            ChannelType::UnormInt24
        } else {
            ChannelType::UnormInt_101010_2
        }
    }

    /// The variant for which OpenCL uses the value. Any other value stops the program.
    #[verifier::spinoff_prover]
    pub fn from_cl_value(value: cl_channel_type) -> (e: ChannelType)
        requires
            ChannelType::is_cl_value(value),
        ensures
            e.cl_value() == value,
            e == ChannelType::from_cl_value_spec(value),
    {
        match value {
            4304u32 => ChannelType::SnormInt8,
            4305u32 => ChannelType::SnormInt16,
            4306u32 => ChannelType::UnormInt8,
            4307u32 => ChannelType::UnormInt16,
            4308u32 => ChannelType::UnormShort_565,
            4309u32 => ChannelType::UnormShort_555,
            4310u32 => ChannelType::UnormInt_101010,
            4311u32 => ChannelType::SignedInt8,
            4312u32 => ChannelType::SignedInt16,
            4313u32 => ChannelType::SignedInt32,
            4314u32 => ChannelType::UnsignedInt8,
            4315u32 => ChannelType::UnsignedInt16,
            4316u32 => ChannelType::UnsignedInt32,
            4317u32 => ChannelType::HalfFloat,
            4318u32 => ChannelType::Float,
            4319u32 => ChannelType::UnormInt24,
            4320u32 => ChannelType::UnormInt_101010_2,
            _ => {
                proof {
                    assert(false);
                }
                ChannelType::SnormInt8
            },
        }
    }

    /// The variant for which OpenCL uses the value, or `None` when OpenCL uses the value
    /// for none of the variants.
    #[verifier::spinoff_prover]
    pub fn try_from_cl_value(value: cl_channel_type) -> (r: Option<ChannelType>)
        ensures
            r is Some <==> ChannelType::is_cl_value(value),
            r matches Some(e) ==> e == ChannelType::from_cl_value_spec(value) && e.cl_value() == value,
    {
        match value {
            4304u32 => Some(ChannelType::SnormInt8),
            4305u32 => Some(ChannelType::SnormInt16),
            4306u32 => Some(ChannelType::UnormInt8),
            4307u32 => Some(ChannelType::UnormInt16),
            4308u32 => Some(ChannelType::UnormShort_565),
            4309u32 => Some(ChannelType::UnormShort_555),
            4310u32 => Some(ChannelType::UnormInt_101010),
            4311u32 => Some(ChannelType::SignedInt8),
            4312u32 => Some(ChannelType::SignedInt16),
            4313u32 => Some(ChannelType::SignedInt32),
            4314u32 => Some(ChannelType::UnsignedInt8),
            4315u32 => Some(ChannelType::UnsignedInt16),
            4316u32 => Some(ChannelType::UnsignedInt32),
            4317u32 => Some(ChannelType::HalfFloat),
            4318u32 => Some(ChannelType::Float),
            4319u32 => Some(ChannelType::UnormInt24),
            4320u32 => Some(ChannelType::UnormInt_101010_2),
            _ => None,
        }
    }
}

impl From<ChannelType> for cl_channel_type {
    fn from(value: ChannelType) -> (v: cl_channel_type)
        ensures
            v == value.cl_value(),
    {
        match value {
            ChannelType::SnormInt8 => 4304u32,
            ChannelType::SnormInt16 => 4305u32,
            ChannelType::UnormInt8 => 4306u32,
            ChannelType::UnormInt16 => 4307u32,
            ChannelType::UnormShort_565 => 4308u32,
            ChannelType::UnormShort_555 => 4309u32,
            ChannelType::UnormInt_101010 => 4310u32,
            ChannelType::SignedInt8 => 4311u32,
            ChannelType::SignedInt16 => 4312u32,
            ChannelType::SignedInt32 => 4313u32,
            ChannelType::UnsignedInt8 => 4314u32,
            ChannelType::UnsignedInt16 => 4315u32,
            ChannelType::UnsignedInt32 => 4316u32,
            ChannelType::HalfFloat => 4317u32,
            ChannelType::Float => 4318u32,
            ChannelType::UnormInt24 => 4319u32,
            ChannelType::UnormInt_101010_2 => 4320u32,
        }
    }
}

impl FromSpecImpl<ChannelType> for cl_channel_type {
    open spec fn obeys_from_spec() -> bool {
        true
    }

    open spec fn from_spec(v: ChannelType) -> cl_channel_type {
        v.cl_value()
    }
}

impl From<&ChannelType> for cl_channel_type {
    fn from(value: &ChannelType) -> (v: cl_channel_type)
        ensures
            v == value.cl_value(),
    {
        cl_channel_type::from(*value)
    }
}

impl FromSpecImpl<&ChannelType> for cl_channel_type {
    open spec fn obeys_from_spec() -> bool {
        true
    }

    open spec fn from_spec(v: &ChannelType) -> cl_channel_type {
        v.cl_value()
    }
}

/// Every variant has its own OpenCL value, and reading that value back gives the variant.
pub proof fn lemma_channel_type_round_trip(e: ChannelType)
    ensures
        ChannelType::is_cl_value(e.cl_value()),
        ChannelType::from_cl_value_spec(e.cl_value()) == e,
{
}

/// How a sampler filters an image.
#[allow(non_camel_case_types)]
#[derive(Debug, Clone, Copy, PartialEq, Eq, PartialOrd, Hash, Structural)]
pub enum FilterMode {
    Nearest,
    Linear,
}

impl FilterMode {
    /// The `cl_filter_mode` value that OpenCL uses for this variant.
    pub open spec fn cl_value(self) -> cl_filter_mode {
        match self {
            FilterMode::Nearest => 4416u32,
            FilterMode::Linear => 4417u32,
        }
    }

    /// Whether OpenCL uses the value for one of the variants.
    pub open spec fn is_cl_value(value: cl_filter_mode) -> bool {
        value == 4416u32 || value == 4417u32
    }

    /// The variant for which OpenCL uses the value.
    pub open spec fn from_cl_value_spec(value: cl_filter_mode) -> FilterMode {
        if value == 4416u32 {
            FilterMode::Nearest
        } else {
            FilterMode::Linear
        }
    }

    /// The variant for which OpenCL uses the value. Any other value stops the program.
    #[verifier::spinoff_prover]
    pub fn from_cl_value(value: cl_filter_mode) -> (e: FilterMode)
        requires
            FilterMode::is_cl_value(value),
        ensures
            e.cl_value() == value,
            e == FilterMode::from_cl_value_spec(value),
    {
        match value {
            4416u32 => FilterMode::Nearest,
            4417u32 => FilterMode::Linear,
            _ => {
                proof {
                    assert(false);
                }
                FilterMode::Nearest
            },
        }
    }

    /// The variant for which OpenCL uses the value, or `None` when OpenCL uses the value
    /// for none of the variants.
    #[verifier::spinoff_prover]
    pub fn try_from_cl_value(value: cl_filter_mode) -> (r: Option<FilterMode>)
        ensures
            r is Some <==> FilterMode::is_cl_value(value),
            r matches Some(e) ==> e == FilterMode::from_cl_value_spec(value) && e.cl_value() == value,
    {
        match value {
            4416u32 => Some(FilterMode::Nearest),
            4417u32 => Some(FilterMode::Linear),
            _ => None,
        }
    }
}

impl From<FilterMode> for cl_filter_mode {
    fn from(value: FilterMode) -> (v: cl_filter_mode)
        ensures
            v == value.cl_value(),
    {
        match value {
            FilterMode::Nearest => 4416u32,
            FilterMode::Linear => 4417u32,
        }
    }
}

impl FromSpecImpl<FilterMode> for cl_filter_mode {
    open spec fn obeys_from_spec() -> bool {
        true
    }

    open spec fn from_spec(v: FilterMode) -> cl_filter_mode {
        v.cl_value()
    }
}

impl From<&FilterMode> for cl_filter_mode {
    fn from(value: &FilterMode) -> (v: cl_filter_mode)
        ensures
            v == value.cl_value(),
    {
        cl_filter_mode::from(*value)
    }
}

impl FromSpecImpl<&FilterMode> for cl_filter_mode {
    open spec fn obeys_from_spec() -> bool {
        true
    }

    open spec fn from_spec(v: &FilterMode) -> cl_filter_mode {
        v.cl_value()
    }
}

/// Every variant has its own OpenCL value, and reading that value back gives the variant.
pub proof fn lemma_filter_mode_round_trip(e: FilterMode)
    ensures
        FilterMode::is_cl_value(e.cl_value()),
        FilterMode::from_cl_value_spec(e.cl_value()) == e,
{
}

/// The image information that OpenCL can be asked for.
#[allow(non_camel_case_types)]
#[derive(Debug, Clone, Copy, PartialEq, Eq, PartialOrd, Hash, Structural)]
pub enum ImageInfo {
    Format,
    ElementSize,
    RowPitch,
    SlicePitch,
    Width,
    Height,
    Depth,
    ArraySize,
    Buffer,
    NumMipLevels,
    NumSamples,
}

impl ImageInfo {
    /// The `cl_image_info` value that OpenCL uses for this variant.
    pub open spec fn cl_value(self) -> cl_image_info {
        match self {
            ImageInfo::Format => 4368u32,
            ImageInfo::ElementSize => 4369u32,
            ImageInfo::RowPitch => 4370u32,
            ImageInfo::SlicePitch => 4371u32,
            ImageInfo::Width => 4372u32,
            ImageInfo::Height => 4373u32,
            ImageInfo::Depth => 4374u32,
            ImageInfo::ArraySize => 4375u32,
            ImageInfo::Buffer => 4376u32,
            ImageInfo::NumMipLevels => 4377u32,
            ImageInfo::NumSamples => 4378u32,
        }
    }

    /// Whether OpenCL uses the value for one of the variants.
    pub open spec fn is_cl_value(value: cl_image_info) -> bool {
        value == 4368u32 || value == 4369u32 || value == 4370u32 || value == 4371u32 || value == 4372u32 || value == 4373u32 || value == 4374u32 || value == 4375u32 || value == 4376u32 || value == 4377u32 || value == 4378u32
    }

    /// The variant for which OpenCL uses the value.
    pub open spec fn from_cl_value_spec(value: cl_image_info) -> ImageInfo {
        if value == 4368u32 {
            ImageInfo::Format
        } else if value == 4369u32 {
            ImageInfo::ElementSize
        } else if value == 4370u32 {
            ImageInfo::RowPitch
        } else if value == 4371u32 {
            ImageInfo::SlicePitch
        } else if value == 4372u32 {
            ImageInfo::Width
        } else if value == 4373u32 {
            ImageInfo::Height
        } else if value == 4374u32 {
            ImageInfo::Depth
        } else if value == 4375u32 {
            ImageInfo::ArraySize
        } else if value == 4376u32 {
            ImageInfo::Buffer
        } else if value == 4377u32 {
            ImageInfo::NumMipLevels
        } else {
            ImageInfo::NumSamples
        }
    }

    /// The variant for which OpenCL uses the value. Any other value stops the program.
    #[verifier::spinoff_prover]
    pub fn from_cl_value(value: cl_image_info) -> (e: ImageInfo)
        requires
            ImageInfo::is_cl_value(value),
        ensures
            e.cl_value() == value,
            e == ImageInfo::from_cl_value_spec(value),
    {
        match value {
            4368u32 => ImageInfo::Format,
            4369u32 => ImageInfo::ElementSize,
            4370u32 => ImageInfo::RowPitch,
            4371u32 => ImageInfo::SlicePitch,
            4372u32 => ImageInfo::Width,
            4373u32 => ImageInfo::Height,
            4374u32 => ImageInfo::Depth,
            4375u32 => ImageInfo::ArraySize,
            4376u32 => ImageInfo::Buffer,
            4377u32 => ImageInfo::NumMipLevels,
            4378u32 => ImageInfo::NumSamples,
            _ => {
                proof {
                    assert(false);
                }
                ImageInfo::Format
            },
        }
    }

    /// The variant for which OpenCL uses the value, or `None` when OpenCL uses the value
    /// for none of the variants.
    #[verifier::spinoff_prover]
    pub fn try_from_cl_value(value: cl_image_info) -> (r: Option<ImageInfo>)
        ensures
            r is Some <==> ImageInfo::is_cl_value(value),
            r matches Some(e) ==> e == ImageInfo::from_cl_value_spec(value) && e.cl_value() == value,
    {
        match value {
            4368u32 => Some(ImageInfo::Format),
            4369u32 => Some(ImageInfo::ElementSize),
            4370u32 => Some(ImageInfo::RowPitch),
            4371u32 => Some(ImageInfo::SlicePitch),
            4372u32 => Some(ImageInfo::Width),
            4373u32 => Some(ImageInfo::Height),
            4374u32 => Some(ImageInfo::Depth),
            4375u32 => Some(ImageInfo::ArraySize),
            4376u32 => Some(ImageInfo::Buffer),
            4377u32 => Some(ImageInfo::NumMipLevels),
            4378u32 => Some(ImageInfo::NumSamples),
            _ => None,
        }
    }
}

impl From<ImageInfo> for cl_image_info {
    fn from(value: ImageInfo) -> (v: cl_image_info)
        ensures
            v == value.cl_value(),
    {
        match value {
            ImageInfo::Format => 4368u32,
            ImageInfo::ElementSize => 4369u32,
            ImageInfo::RowPitch => 4370u32,
            ImageInfo::SlicePitch => 4371u32,
            ImageInfo::Width => 4372u32,
            ImageInfo::Height => 4373u32,
            ImageInfo::Depth => 4374u32,
            ImageInfo::ArraySize => 4375u32,
            ImageInfo::Buffer => 4376u32,
            ImageInfo::NumMipLevels => 4377u32,
            ImageInfo::NumSamples => 4378u32,
        }
    }
}

impl FromSpecImpl<ImageInfo> for cl_image_info {
    open spec fn obeys_from_spec() -> bool {
        true
    }

    open spec fn from_spec(v: ImageInfo) -> cl_image_info {
        v.cl_value()
    }
}

impl From<&ImageInfo> for cl_image_info {
    fn from(value: &ImageInfo) -> (v: cl_image_info)
        ensures
            v == value.cl_value(),
    {
        cl_image_info::from(*value)
    }
}

impl FromSpecImpl<&ImageInfo> for cl_image_info {
    open spec fn obeys_from_spec() -> bool {
        true
    }

    open spec fn from_spec(v: &ImageInfo) -> cl_image_info {
        v.cl_value()
    }
}

/// Every variant has its own OpenCL value, and reading that value back gives the variant.
pub proof fn lemma_image_info_round_trip(e: ImageInfo)
    ensures
        ImageInfo::is_cl_value(e.cl_value()),
        ImageInfo::from_cl_value_spec(e.cl_value()) == e,
{
}

/// The sampler information that OpenCL can be asked for.
#[allow(non_camel_case_types)]
#[derive(Debug, Clone, Copy, PartialEq, Eq, PartialOrd, Hash, Structural)]
pub enum SamplerInfo {
    ReferenceCount,
    Context,
    NormalizedCoords,
    AddressingMode,
    FilterMode,
    MipFilterMode,
    LodMin,
    LodMax,
}

impl SamplerInfo {
    /// The `cl_sampler_info` value that OpenCL uses for this variant.
    pub open spec fn cl_value(self) -> cl_sampler_info {
        match self {
            SamplerInfo::ReferenceCount => 4432u32,
            SamplerInfo::Context => 4433u32,
            SamplerInfo::NormalizedCoords => 4434u32,
            SamplerInfo::AddressingMode => 4435u32,
            SamplerInfo::FilterMode => 4436u32,
            SamplerInfo::MipFilterMode => 4437u32,
            SamplerInfo::LodMin => 4438u32,
            SamplerInfo::LodMax => 4439u32,
        }
    }

    /// Whether OpenCL uses the value for one of the variants.
    pub open spec fn is_cl_value(value: cl_sampler_info) -> bool {
        value == 4432u32 || value == 4433u32 || value == 4434u32 || value == 4435u32 || value == 4436u32 || value == 4437u32 || value == 4438u32 || value == 4439u32
    }

    /// The variant for which OpenCL uses the value.
    pub open spec fn from_cl_value_spec(value: cl_sampler_info) -> SamplerInfo {
        if value == 4432u32 {
            SamplerInfo::ReferenceCount
        } else if value == 4433u32 {
            SamplerInfo::Context
        } else if value == 4434u32 {
            SamplerInfo::NormalizedCoords
        } else if value == 4435u32 {
            SamplerInfo::AddressingMode
        } else if value == 4436u32 {
            SamplerInfo::FilterMode
        } else if value == 4437u32 {
            SamplerInfo::MipFilterMode
        } else if value == 4438u32 {
            SamplerInfo::LodMin
        } else {
            SamplerInfo::LodMax
        }
    }

    /// The variant for which OpenCL uses the value. Any other value stops the program.
    #[verifier::spinoff_prover]
    pub fn from_cl_value(value: cl_sampler_info) -> (e: SamplerInfo)
        requires
            SamplerInfo::is_cl_value(value),
        ensures
            e.cl_value() == value,
            e == SamplerInfo::from_cl_value_spec(value),
    {
        match value {
            4432u32 => SamplerInfo::ReferenceCount,
            4433u32 => SamplerInfo::Context,
            4434u32 => SamplerInfo::NormalizedCoords,
            4435u32 => SamplerInfo::AddressingMode,
            4436u32 => SamplerInfo::FilterMode,
            4437u32 => SamplerInfo::MipFilterMode,
            4438u32 => SamplerInfo::LodMin,
            4439u32 => SamplerInfo::LodMax,
            _ => {
                proof {
                    assert(false);
                }
                SamplerInfo::ReferenceCount
            },
        }
    }

    /// The variant for which OpenCL uses the value, or `None` when OpenCL uses the value
    /// for none of the variants.
    #[verifier::spinoff_prover]
    pub fn try_from_cl_value(value: cl_sampler_info) -> (r: Option<SamplerInfo>)
        ensures
            r is Some <==> SamplerInfo::is_cl_value(value),
            r matches Some(e) ==> e == SamplerInfo::from_cl_value_spec(value) && e.cl_value() == value,
    {
        match value {
            4432u32 => Some(SamplerInfo::ReferenceCount),
            4433u32 => Some(SamplerInfo::Context),
            4434u32 => Some(SamplerInfo::NormalizedCoords),
            4435u32 => Some(SamplerInfo::AddressingMode),
            4436u32 => Some(SamplerInfo::FilterMode),
            4437u32 => Some(SamplerInfo::MipFilterMode),
            4438u32 => Some(SamplerInfo::LodMin),
            4439u32 => Some(SamplerInfo::LodMax),
            _ => None,
        }
    }
}

impl From<SamplerInfo> for cl_sampler_info {
    fn from(value: SamplerInfo) -> (v: cl_sampler_info)
        ensures
            v == value.cl_value(),
    {
        match value {
            SamplerInfo::ReferenceCount => 4432u32,
            SamplerInfo::Context => 4433u32,
            SamplerInfo::NormalizedCoords => 4434u32,
            SamplerInfo::AddressingMode => 4435u32,
            SamplerInfo::FilterMode => 4436u32,
            SamplerInfo::MipFilterMode => 4437u32,
            SamplerInfo::LodMin => 4438u32,
            SamplerInfo::LodMax => 4439u32,
        }
    }
}

impl FromSpecImpl<SamplerInfo> for cl_sampler_info {
    open spec fn obeys_from_spec() -> bool {
        true
    }

    open spec fn from_spec(v: SamplerInfo) -> cl_sampler_info {
        v.cl_value()
    }
}

impl From<&SamplerInfo> for cl_sampler_info {
    fn from(value: &SamplerInfo) -> (v: cl_sampler_info)
        ensures
            v == value.cl_value(),
    {
        cl_sampler_info::from(*value)
    }
}

impl FromSpecImpl<&SamplerInfo> for cl_sampler_info {
    open spec fn obeys_from_spec() -> bool {
        true
    }

    open spec fn from_spec(v: &SamplerInfo) -> cl_sampler_info {
        v.cl_value()
    }
}

/// Every variant has its own OpenCL value, and reading that value back gives the variant.
pub proof fn lemma_sampler_info_round_trip(e: SamplerInfo)
    ensures
        SamplerInfo::is_cl_value(e.cl_value()),
        SamplerInfo::from_cl_value_spec(e.cl_value()) == e,
{
}

/// How a buffer is mapped into host memory.
#[allow(non_camel_case_types)]
#[derive(Debug, Clone, Copy, PartialEq, Eq, PartialOrd, Hash, Structural)]
pub enum MapFlags {
    Read,
    Write,
    WriteInvalidateRegion,
}

impl MapFlags {
    /// The `cl_map_flags` value that OpenCL uses for this variant.
    pub open spec fn cl_value(self) -> cl_map_flags {
        match self {
            MapFlags::Read => 1u64,
            MapFlags::Write => 2u64,
            MapFlags::WriteInvalidateRegion => 4u64,
        }
    }

    /// Whether OpenCL uses the value for one of the variants.
    pub open spec fn is_cl_value(value: cl_map_flags) -> bool {
        value == 1u64 || value == 2u64 || value == 4u64
    }

    /// The variant for which OpenCL uses the value.
    pub open spec fn from_cl_value_spec(value: cl_map_flags) -> MapFlags {
        if value == 1u64 {
            MapFlags::Read
        } else if value == 2u64 {
            MapFlags::Write
        } else {
            MapFlags::WriteInvalidateRegion
        }
    }

    /// The variant for which OpenCL uses the value. Any other value stops the program.
    #[verifier::spinoff_prover]
    pub fn from_cl_value(value: cl_map_flags) -> (e: MapFlags)
        requires
            MapFlags::is_cl_value(value),
        ensures
            e.cl_value() == value,
            e == MapFlags::from_cl_value_spec(value),
    {
        match value {
            1u64 => MapFlags::Read,
            2u64 => MapFlags::Write,
            4u64 => MapFlags::WriteInvalidateRegion,
            _ => {
                proof {
                    assert(false);
                }
                MapFlags::Read
            },
        }
    }

    /// The variant for which OpenCL uses the value, or `None` when OpenCL uses the value
    /// for none of the variants.
    #[verifier::spinoff_prover]
    pub fn try_from_cl_value(value: cl_map_flags) -> (r: Option<MapFlags>)
        ensures
            r is Some <==> MapFlags::is_cl_value(value),
            r matches Some(e) ==> e == MapFlags::from_cl_value_spec(value) && e.cl_value() == value,
    {
        match value {
            1u64 => Some(MapFlags::Read),
            2u64 => Some(MapFlags::Write),
            4u64 => Some(MapFlags::WriteInvalidateRegion),
            _ => None,
        }
    }
}

impl From<MapFlags> for cl_map_flags {
    fn from(value: MapFlags) -> (v: cl_map_flags)
        ensures
            v == value.cl_value(),
    {
        match value {
            MapFlags::Read => 1u64,
            MapFlags::Write => 2u64,
            MapFlags::WriteInvalidateRegion => 4u64,
        }
    }
}

impl FromSpecImpl<MapFlags> for cl_map_flags {
    open spec fn obeys_from_spec() -> bool {
        true
    }

    open spec fn from_spec(v: MapFlags) -> cl_map_flags {
        v.cl_value()
    }
}

impl From<&MapFlags> for cl_map_flags {
    fn from(value: &MapFlags) -> (v: cl_map_flags)
        ensures
            v == value.cl_value(),
    {
        cl_map_flags::from(*value)
    }
}

impl FromSpecImpl<&MapFlags> for cl_map_flags {
    open spec fn obeys_from_spec() -> bool {
        true
    }

    open spec fn from_spec(v: &MapFlags) -> cl_map_flags {
        v.cl_value()
    }
}

/// Every variant has its own OpenCL value, and reading that value back gives the variant.
pub proof fn lemma_map_flags_round_trip(e: MapFlags)
    ensures
        MapFlags::is_cl_value(e.cl_value()),
        MapFlags::from_cl_value_spec(e.cl_value()) == e,
{
}

/// The platform information that OpenCL can be asked for.
#[allow(non_camel_case_types)]
#[derive(Debug, Clone, Copy, PartialEq, Eq, PartialOrd, Hash, Structural)]
pub enum PlatformInfo {
    Profile,
    Version,
    Name,
    Vendor,
    Extensions,
}

impl PlatformInfo {
    /// The `cl_platform_info` value that OpenCL uses for this variant.
    pub open spec fn cl_value(self) -> cl_platform_info {
        match self {
            PlatformInfo::Profile => 2304u32,
            PlatformInfo::Version => 2305u32,
            PlatformInfo::Name => 2306u32,
            PlatformInfo::Vendor => 2307u32,
            PlatformInfo::Extensions => 2308u32,
        }
    }

    /// Whether OpenCL uses the value for one of the variants.
    pub open spec fn is_cl_value(value: cl_platform_info) -> bool {
        value == 2304u32 || value == 2305u32 || value == 2306u32 || value == 2307u32 || value == 2308u32
    }

    /// The variant for which OpenCL uses the value.
    pub open spec fn from_cl_value_spec(value: cl_platform_info) -> PlatformInfo {
        if value == 2304u32 {
            PlatformInfo::Profile
        } else if value == 2305u32 {
            PlatformInfo::Version
        } else if value == 2306u32 {
            PlatformInfo::Name
        } else if value == 2307u32 {
            PlatformInfo::Vendor
        } else {
            PlatformInfo::Extensions
        }
    }

    /// The variant for which OpenCL uses the value. Any other value stops the program.
    #[verifier::spinoff_prover]
    pub fn from_cl_value(value: cl_platform_info) -> (e: PlatformInfo)
        requires
            PlatformInfo::is_cl_value(value),
        ensures
            e.cl_value() == value,
            e == PlatformInfo::from_cl_value_spec(value),
    {
        match value {
            2304u32 => PlatformInfo::Profile,
            2305u32 => PlatformInfo::Version,
            2306u32 => PlatformInfo::Name,
            2307u32 => PlatformInfo::Vendor,
            2308u32 => PlatformInfo::Extensions,
            _ => {
                proof {
                    assert(false);
                }
                PlatformInfo::Profile
            },
        }
    }

    /// The variant for which OpenCL uses the value, or `None` when OpenCL uses the value
    /// for none of the variants.
    #[verifier::spinoff_prover]
    pub fn try_from_cl_value(value: cl_platform_info) -> (r: Option<PlatformInfo>)
        ensures
            r is Some <==> PlatformInfo::is_cl_value(value),
            r matches Some(e) ==> e == PlatformInfo::from_cl_value_spec(value) && e.cl_value() == value,
    {
        match value {
            2304u32 => Some(PlatformInfo::Profile),
            2305u32 => Some(PlatformInfo::Version),
            2306u32 => Some(PlatformInfo::Name),
            2307u32 => Some(PlatformInfo::Vendor),
            2308u32 => Some(PlatformInfo::Extensions),
            _ => None,
        }
    }
}

impl From<PlatformInfo> for cl_platform_info {
    fn from(value: PlatformInfo) -> (v: cl_platform_info)
        ensures
            v == value.cl_value(),
    {
        match value {
            PlatformInfo::Profile => 2304u32,
            PlatformInfo::Version => 2305u32,
            PlatformInfo::Name => 2306u32,
            PlatformInfo::Vendor => 2307u32,
            PlatformInfo::Extensions => 2308u32,
        }
    }
}

impl FromSpecImpl<PlatformInfo> for cl_platform_info {
    open spec fn obeys_from_spec() -> bool {
        true
    }

    open spec fn from_spec(v: PlatformInfo) -> cl_platform_info {
        v.cl_value()
    }
}

impl From<&PlatformInfo> for cl_platform_info {
    fn from(value: &PlatformInfo) -> (v: cl_platform_info)
        ensures
            v == value.cl_value(),
    {
        cl_platform_info::from(*value)
    }
}

impl FromSpecImpl<&PlatformInfo> for cl_platform_info {
    open spec fn obeys_from_spec() -> bool {
        true
    }

    open spec fn from_spec(v: &PlatformInfo) -> cl_platform_info {
        v.cl_value()
    }
}

/// Every variant has its own OpenCL value, and reading that value back gives the variant.
pub proof fn lemma_platform_info_round_trip(e: PlatformInfo)
    ensures
        PlatformInfo::is_cl_value(e.cl_value()),
        PlatformInfo::from_cl_value_spec(e.cl_value()) == e,
{
}

/// The device information that OpenCL can be asked for.
#[allow(non_camel_case_types)]
#[derive(Debug, Clone, Copy, PartialEq, Eq, PartialOrd, Hash, Structural)]
pub enum DeviceInfo {
    Type,
    VendorId,
    MaxComputeUnits,
    MaxWorkItemDimensions,
    MaxWorkGroupSize,
    MaxWorkItemSizes,
    PreferredVectorWidthChar,
    PreferredVectorWidthShort,
    PreferredVectorWidthInt,
    PreferredVectorWidthLong,
    PreferredVectorWidthFloat,
    PreferredVectorWidthDouble,
    PreferredVectorWidthHalf,
    MaxClockFrequency,
    AddressBits,
    MaxReadImageArgs,
    MaxWriteImageArgs,
    MaxMemAllocSize,
    Image2DMaxWidth,
    Image2DMaxHeight,
    Image3DMaxWidth,
    Image3DMaxHeight,
    Image3DMaxDepth,
    ImageSupport,
    MaxParameterSize,
    MaxSamplers,
    MemBaseAddrAlign,
    MinDataTypeAlignSize,
    SingleFpConfig,
    GlobalMemCacheType,
    GlobalMemCachelineSize,
    GlobalMemCacheSize,
    GlobalMemSize,
    MaxConstantBufferSize,
    MaxConstantArgs,
    LocalMemType,
    LocalMemSize,
    ErrorCorrectionSupport,
    ProfilingTimerResolution,
    EndianLittle,
    Available,
    CompilerAvailable,
    ExecutionCapabilities,
    QueueOnHostProperties,
    Name,
    Vendor,
    Profile,
    Version,
    Extensions,
    Platform,
    DoubleFpConfig,
    HostUnifiedMemory,
    NativeVectorWidthChar,
    NativeVectorWidthShort,
    NativeVectorWidthInt,
    NativeVectorWidthLong,
    NativeVectorWidthFloat,
    NativeVectorWidthDouble,
    NativeVectorWidthHalf,
    OpenclCVersion,
    LinkerAvailable,
    BuiltInKernels,
    ImageMaxBufferSize,
    ImageMaxArraySize,
    ParentDevice,
    PartitionMaxSubDevices,
    PartitionProperties,
    PartitionAffinityDomain,
    PartitionType,
    ReferenceCount,
    PreferredInteropUserSync,
    PrintfBufferSize,
    ImagePitchAlignment,
    ImageBaseAddressAlignment,
    MaxReadWriteImageArgs,
    MaxGlobalVariableSize,
    QueueOnDeviceProperties,
    QueueOnDevicePreferredSize,
    QueueOnDeviceMaxSize,
    MaxOnDeviceQueues,
    MaxOnDeviceEvents,
    SvmCapabilities,
    GlobalVariablePreferredTotalSize,
    MaxPipeArgs,
    PipeMaxActiveReservations,
    PipeMaxPacketSize,
    PreferredPlatformAtomicAlignment,
    PreferredGlobalAtomicAlignment,
    PreferredLocalAtomicAlignment,
    IlVersion,
    MaxNumSubGroups,
    SubGroupIndependentForwardProgress,
    HalfFpConfig,
    DriverVersion,
}

impl DeviceInfo {
    /// The `cl_device_info` value that OpenCL uses for this variant.
    pub open spec fn cl_value(self) -> cl_device_info {
        match self {
            DeviceInfo::Type => 4096u32,
            DeviceInfo::VendorId => 4097u32,
            DeviceInfo::MaxComputeUnits => 4098u32,
            DeviceInfo::MaxWorkItemDimensions => 4099u32,
            DeviceInfo::MaxWorkGroupSize => 4100u32,
            DeviceInfo::MaxWorkItemSizes => 4101u32,
            DeviceInfo::PreferredVectorWidthChar => 4102u32,
            DeviceInfo::PreferredVectorWidthShort => 4103u32,
            DeviceInfo::PreferredVectorWidthInt => 4104u32,
            DeviceInfo::PreferredVectorWidthLong => 4105u32,
            DeviceInfo::PreferredVectorWidthFloat => 4106u32,
            DeviceInfo::PreferredVectorWidthDouble => 4107u32,
            DeviceInfo::PreferredVectorWidthHalf => 4148u32,
            DeviceInfo::MaxClockFrequency => 4108u32,
            DeviceInfo::AddressBits => 4109u32,
            DeviceInfo::MaxReadImageArgs => 4110u32,
            DeviceInfo::MaxWriteImageArgs => 4111u32,
            DeviceInfo::MaxMemAllocSize => 4112u32,
            DeviceInfo::Image2DMaxWidth => 4113u32,
            DeviceInfo::Image2DMaxHeight => 4114u32,
            DeviceInfo::Image3DMaxWidth => 4115u32,
            DeviceInfo::Image3DMaxHeight => 4116u32,
            DeviceInfo::Image3DMaxDepth => 4117u32,
            DeviceInfo::ImageSupport => 4118u32,
            DeviceInfo::MaxParameterSize => 4119u32,
            DeviceInfo::MaxSamplers => 4120u32,
            DeviceInfo::MemBaseAddrAlign => 4121u32,
            DeviceInfo::MinDataTypeAlignSize => 4122u32,
            DeviceInfo::SingleFpConfig => 4123u32,
            DeviceInfo::GlobalMemCacheType => 4124u32,
            DeviceInfo::GlobalMemCachelineSize => 4125u32,
            DeviceInfo::GlobalMemCacheSize => 4126u32,
            DeviceInfo::GlobalMemSize => 4127u32,
            DeviceInfo::MaxConstantBufferSize => 4128u32,
            DeviceInfo::MaxConstantArgs => 4129u32,
            DeviceInfo::LocalMemType => 4130u32,
            DeviceInfo::LocalMemSize => 4131u32,
            DeviceInfo::ErrorCorrectionSupport => 4132u32,
            DeviceInfo::ProfilingTimerResolution => 4133u32,
            DeviceInfo::EndianLittle => 4134u32,
            DeviceInfo::Available => 4135u32,
            DeviceInfo::CompilerAvailable => 4136u32,
            DeviceInfo::ExecutionCapabilities => 4137u32,
            DeviceInfo::QueueOnHostProperties => 4138u32,
            DeviceInfo::Name => 4139u32,
            DeviceInfo::Vendor => 4140u32,
            DeviceInfo::Profile => 4142u32,
            DeviceInfo::Version => 4143u32,
            DeviceInfo::Extensions => 4144u32,
            DeviceInfo::Platform => 4145u32,
            DeviceInfo::DoubleFpConfig => 4146u32,
            DeviceInfo::HostUnifiedMemory => 4149u32,
            DeviceInfo::NativeVectorWidthChar => 4150u32,
            DeviceInfo::NativeVectorWidthShort => 4151u32,
            DeviceInfo::NativeVectorWidthInt => 4152u32,
            DeviceInfo::NativeVectorWidthLong => 4153u32,
            DeviceInfo::NativeVectorWidthFloat => 4154u32,
            DeviceInfo::NativeVectorWidthDouble => 4155u32,
            DeviceInfo::NativeVectorWidthHalf => 4156u32,
            DeviceInfo::OpenclCVersion => 4157u32,
            DeviceInfo::LinkerAvailable => 4158u32,
            DeviceInfo::BuiltInKernels => 4159u32,
            DeviceInfo::ImageMaxBufferSize => 4160u32,
            DeviceInfo::ImageMaxArraySize => 4161u32,
            DeviceInfo::ParentDevice => 4162u32,
            DeviceInfo::PartitionMaxSubDevices => 4163u32,
            DeviceInfo::PartitionProperties => 4164u32,
            DeviceInfo::PartitionAffinityDomain => 4165u32,
            DeviceInfo::PartitionType => 4166u32,
            DeviceInfo::ReferenceCount => 4167u32,
            DeviceInfo::PreferredInteropUserSync => 4168u32,
            DeviceInfo::PrintfBufferSize => 4169u32,
            DeviceInfo::ImagePitchAlignment => 4170u32,
            DeviceInfo::ImageBaseAddressAlignment => 4171u32,
            DeviceInfo::MaxReadWriteImageArgs => 4172u32,
            DeviceInfo::MaxGlobalVariableSize => 4173u32,
            DeviceInfo::QueueOnDeviceProperties => 4174u32,
            DeviceInfo::QueueOnDevicePreferredSize => 4175u32,
            DeviceInfo::QueueOnDeviceMaxSize => 4176u32,
            DeviceInfo::MaxOnDeviceQueues => 4177u32,
            DeviceInfo::MaxOnDeviceEvents => 4178u32,
            DeviceInfo::SvmCapabilities => 4179u32,
            DeviceInfo::GlobalVariablePreferredTotalSize => 4180u32,
            DeviceInfo::MaxPipeArgs => 4181u32,
            DeviceInfo::PipeMaxActiveReservations => 4182u32,
            DeviceInfo::PipeMaxPacketSize => 4183u32,
            DeviceInfo::PreferredPlatformAtomicAlignment => 4184u32,
            DeviceInfo::PreferredGlobalAtomicAlignment => 4185u32,
            DeviceInfo::PreferredLocalAtomicAlignment => 4186u32,
            DeviceInfo::IlVersion => 4187u32,
            DeviceInfo::MaxNumSubGroups => 4188u32,
            DeviceInfo::SubGroupIndependentForwardProgress => 4189u32,
            DeviceInfo::HalfFpConfig => 4147u32,
            DeviceInfo::DriverVersion => 4141u32,
        }
    }

    /// Whether OpenCL uses the value for one of the variants.
    pub open spec fn is_cl_value(value: cl_device_info) -> bool {
        value == 4096u32 || value == 4097u32 || value == 4098u32 || value == 4099u32 || value == 4100u32 || value == 4101u32 || value == 4102u32 || value == 4103u32 || value == 4104u32 || value == 4105u32 || value == 4106u32 || value == 4107u32 || value == 4148u32 || value == 4108u32 || value == 4109u32 || value == 4110u32 || value == 4111u32 || value == 4112u32 || value == 4113u32 || value == 4114u32 || value == 4115u32 || value == 4116u32 || value == 4117u32 || value == 4118u32 || value == 4119u32 || value == 4120u32 || value == 4121u32 || value == 4122u32 || value == 4123u32 || value == 4124u32 || value == 4125u32 || value == 4126u32 || value == 4127u32 || value == 4128u32 || value == 4129u32 || value == 4130u32 || value == 4131u32 || value == 4132u32 || value == 4133u32 || value == 4134u32 || value == 4135u32 || value == 4136u32 || value == 4137u32 || value == 4138u32 || value == 4139u32 || value == 4140u32 || value == 4142u32 || value == 4143u32 || value == 4144u32 || value == 4145u32 || value == 4146u32 || value == 4149u32 || value == 4150u32 || value == 4151u32 || value == 4152u32 || value == 4153u32 || value == 4154u32 || value == 4155u32 || value == 4156u32 || value == 4157u32 || value == 4158u32 || value == 4159u32 || value == 4160u32 || value == 4161u32 || value == 4162u32 || value == 4163u32 || value == 4164u32 || value == 4165u32 || value == 4166u32 || value == 4167u32 || value == 4168u32 || value == 4169u32 || value == 4170u32 || value == 4171u32 || value == 4172u32 || value == 4173u32 || value == 4174u32 || value == 4175u32 || value == 4176u32 || value == 4177u32 || value == 4178u32 || value == 4179u32 || value == 4180u32 || value == 4181u32 || value == 4182u32 || value == 4183u32 || value == 4184u32 || value == 4185u32 || value == 4186u32 || value == 4187u32 || value == 4188u32 || value == 4189u32 || value == 4147u32 || value == 4141u32
    }

    /// The variant for which OpenCL uses the value.
    pub open spec fn from_cl_value_spec(value: cl_device_info) -> DeviceInfo {
        if value == 4096u32 {
            DeviceInfo::Type
        } else if value == 4097u32 {
            DeviceInfo::VendorId
        } else if value == 4098u32 {
            DeviceInfo::MaxComputeUnits
        } else if value == 4099u32 {
            DeviceInfo::MaxWorkItemDimensions
        } else if value == 4100u32 {
            DeviceInfo::MaxWorkGroupSize
        } else if value == 4101u32 {
            DeviceInfo::MaxWorkItemSizes
        } else if value == 4102u32 {
            DeviceInfo::PreferredVectorWidthChar
        } else if value == 4103u32 {
            DeviceInfo::PreferredVectorWidthShort
        } else if value == 4104u32 {
            DeviceInfo::PreferredVectorWidthInt
        } else if value == 4105u32 {
            DeviceInfo::PreferredVectorWidthLong
        } else if value == 4106u32 {
            DeviceInfo::PreferredVectorWidthFloat
        } else if value == 4107u32 {
            DeviceInfo::PreferredVectorWidthDouble
        } else if value == 4148u32 {
            DeviceInfo::PreferredVectorWidthHalf
        } else if value == 4108u32 {
            DeviceInfo::MaxClockFrequency
        } else if value == 4109u32 {
            DeviceInfo::AddressBits
        } else if value == 4110u32 {
            DeviceInfo::MaxReadImageArgs
        } else if value == 4111u32 {
            DeviceInfo::MaxWriteImageArgs
        } else if value == 4112u32 {
            DeviceInfo::MaxMemAllocSize
        } else if value == 4113u32 {
            DeviceInfo::Image2DMaxWidth
        } else if value == 4114u32 {
            DeviceInfo::Image2DMaxHeight
        } else if value == 4115u32 {
            DeviceInfo::Image3DMaxWidth
        } else if value == 4116u32 {
            DeviceInfo::Image3DMaxHeight
        } else if value == 4117u32 {
            DeviceInfo::Image3DMaxDepth
        } else if value == 4118u32 {
            DeviceInfo::ImageSupport
        } else if value == 4119u32 {
            DeviceInfo::MaxParameterSize
        } else if value == 4120u32 {
            DeviceInfo::MaxSamplers
        } else if value == 4121u32 {
            DeviceInfo::MemBaseAddrAlign
        } else if value == 4122u32 {
            DeviceInfo::MinDataTypeAlignSize
        } else if value == 4123u32 {
            DeviceInfo::SingleFpConfig
        } else if value == 4124u32 {
            DeviceInfo::GlobalMemCacheType
        } else if value == 4125u32 {
            DeviceInfo::GlobalMemCachelineSize
        } else if value == 4126u32 {
            DeviceInfo::GlobalMemCacheSize
        } else if value == 4127u32 {
            DeviceInfo::GlobalMemSize
        } else if value == 4128u32 {
            DeviceInfo::MaxConstantBufferSize
        } else if value == 4129u32 {
            DeviceInfo::MaxConstantArgs
        } else if value == 4130u32 {
            DeviceInfo::LocalMemType
        } else if value == 4131u32 {
            DeviceInfo::LocalMemSize
        } else if value == 4132u32 {
            DeviceInfo::ErrorCorrectionSupport
        } else if value == 4133u32 {
            DeviceInfo::ProfilingTimerResolution
        } else if value == 4134u32 {
            DeviceInfo::EndianLittle
        } else if value == 4135u32 {
            DeviceInfo::Available
        } else if value == 4136u32 {
            DeviceInfo::CompilerAvailable
        } else if value == 4137u32 {
            DeviceInfo::ExecutionCapabilities
        } else if value == 4138u32 {
            DeviceInfo::QueueOnHostProperties
        } else if value == 4139u32 {
            DeviceInfo::Name
        } else if value == 4140u32 {
            DeviceInfo::Vendor
        } else if value == 4142u32 {
            DeviceInfo::Profile
        } else if value == 4143u32 {
            DeviceInfo::Version
        } else if value == 4144u32 {
            DeviceInfo::Extensions
        } else if value == 4145u32 {
            DeviceInfo::Platform
        } else if value == 4146u32 {
            DeviceInfo::DoubleFpConfig
        } else if value == 4149u32 {
            DeviceInfo::HostUnifiedMemory
        } else if value == 4150u32 {
            DeviceInfo::NativeVectorWidthChar
        } else if value == 4151u32 {
            DeviceInfo::NativeVectorWidthShort
        } else if value == 4152u32 {
            DeviceInfo::NativeVectorWidthInt
        } else if value == 4153u32 {
            DeviceInfo::NativeVectorWidthLong
        } else if value == 4154u32 {
            DeviceInfo::NativeVectorWidthFloat
        } else if value == 4155u32 {
            DeviceInfo::NativeVectorWidthDouble
        } else if value == 4156u32 {
            DeviceInfo::NativeVectorWidthHalf
        } else if value == 4157u32 {
            DeviceInfo::OpenclCVersion
        } else if value == 4158u32 {
            DeviceInfo::LinkerAvailable
        } else if value == 4159u32 {
            DeviceInfo::BuiltInKernels
        } else if value == 4160u32 {
            DeviceInfo::ImageMaxBufferSize
        } else if value == 4161u32 {
            DeviceInfo::ImageMaxArraySize
        } else if value == 4162u32 {
            DeviceInfo::ParentDevice
        } else if value == 4163u32 {
            DeviceInfo::PartitionMaxSubDevices
        } else if value == 4164u32 {
            DeviceInfo::PartitionProperties
        } else if value == 4165u32 {
            DeviceInfo::PartitionAffinityDomain
        } else if value == 4166u32 {
            DeviceInfo::PartitionType
        } else if value == 4167u32 {
            DeviceInfo::ReferenceCount
        } else if value == 4168u32 {
            DeviceInfo::PreferredInteropUserSync
        } else if value == 4169u32 {
            DeviceInfo::PrintfBufferSize
        } else if value == 4170u32 {
            DeviceInfo::ImagePitchAlignment
        } else if value == 4171u32 {
            DeviceInfo::ImageBaseAddressAlignment
        } else if value == 4172u32 {
            DeviceInfo::MaxReadWriteImageArgs
        } else if value == 4173u32 {
            DeviceInfo::MaxGlobalVariableSize
        } else if value == 4174u32 {
            DeviceInfo::QueueOnDeviceProperties
        } else if value == 4175u32 {
            DeviceInfo::QueueOnDevicePreferredSize
        } else if value == 4176u32 {
            DeviceInfo::QueueOnDeviceMaxSize
        } else if value == 4177u32 {
            DeviceInfo::MaxOnDeviceQueues
        } else if value == 4178u32 {
            DeviceInfo::MaxOnDeviceEvents
        } else if value == 4179u32 {
            DeviceInfo::SvmCapabilities
        } else if value == 4180u32 {
            DeviceInfo::GlobalVariablePreferredTotalSize
        } else if value == 4181u32 {
            DeviceInfo::MaxPipeArgs
        } else if value == 4182u32 {
            DeviceInfo::PipeMaxActiveReservations
        } else if value == 4183u32 {
            DeviceInfo::PipeMaxPacketSize
        } else if value == 4184u32 {
            DeviceInfo::PreferredPlatformAtomicAlignment
        } else if value == 4185u32 {
            DeviceInfo::PreferredGlobalAtomicAlignment
        } else if value == 4186u32 {
            DeviceInfo::PreferredLocalAtomicAlignment
        } else if value == 4187u32 {
            DeviceInfo::IlVersion
        } else if value == 4188u32 {
            DeviceInfo::MaxNumSubGroups
        } else if value == 4189u32 {
            DeviceInfo::SubGroupIndependentForwardProgress
        } else if value == 4147u32 {
            DeviceInfo::HalfFpConfig
        } else {
            DeviceInfo::DriverVersion
        }
    }

    /// The variant for which OpenCL uses the value. Any other value stops the program.
    #[verifier::spinoff_prover]
    pub fn from_cl_value(value: cl_device_info) -> (e: DeviceInfo)
        requires
            DeviceInfo::is_cl_value(value),
        ensures
            e.cl_value() == value,
            e == DeviceInfo::from_cl_value_spec(value),
    {
        match value {
            4096u32 => DeviceInfo::Type,
            4097u32 => DeviceInfo::VendorId,
            4098u32 => DeviceInfo::MaxComputeUnits,
            4099u32 => DeviceInfo::MaxWorkItemDimensions,
            4100u32 => DeviceInfo::MaxWorkGroupSize,
            4101u32 => DeviceInfo::MaxWorkItemSizes,
            4102u32 => DeviceInfo::PreferredVectorWidthChar,
            4103u32 => DeviceInfo::PreferredVectorWidthShort,
            4104u32 => DeviceInfo::PreferredVectorWidthInt,
            4105u32 => DeviceInfo::PreferredVectorWidthLong,
            4106u32 => DeviceInfo::PreferredVectorWidthFloat,
            4107u32 => DeviceInfo::PreferredVectorWidthDouble,
            4148u32 => DeviceInfo::PreferredVectorWidthHalf,
            4108u32 => DeviceInfo::MaxClockFrequency,
            4109u32 => DeviceInfo::AddressBits,
            4110u32 => DeviceInfo::MaxReadImageArgs,
            4111u32 => DeviceInfo::MaxWriteImageArgs,
            4112u32 => DeviceInfo::MaxMemAllocSize,
            4113u32 => DeviceInfo::Image2DMaxWidth,
            4114u32 => DeviceInfo::Image2DMaxHeight,
            4115u32 => DeviceInfo::Image3DMaxWidth,
            4116u32 => DeviceInfo::Image3DMaxHeight,
            4117u32 => DeviceInfo::Image3DMaxDepth,
            4118u32 => DeviceInfo::ImageSupport,
            4119u32 => DeviceInfo::MaxParameterSize,
            4120u32 => DeviceInfo::MaxSamplers,
            4121u32 => DeviceInfo::MemBaseAddrAlign,
            4122u32 => DeviceInfo::MinDataTypeAlignSize,
            4123u32 => DeviceInfo::SingleFpConfig,
            4124u32 => DeviceInfo::GlobalMemCacheType,
            4125u32 => DeviceInfo::GlobalMemCachelineSize,
            4126u32 => DeviceInfo::GlobalMemCacheSize,
            4127u32 => DeviceInfo::GlobalMemSize,
            4128u32 => DeviceInfo::MaxConstantBufferSize,
            4129u32 => DeviceInfo::MaxConstantArgs,
            4130u32 => DeviceInfo::LocalMemType,
            4131u32 => DeviceInfo::LocalMemSize,
            4132u32 => DeviceInfo::ErrorCorrectionSupport,
            4133u32 => DeviceInfo::ProfilingTimerResolution,
            4134u32 => DeviceInfo::EndianLittle,
            4135u32 => DeviceInfo::Available,
            4136u32 => DeviceInfo::CompilerAvailable,
            4137u32 => DeviceInfo::ExecutionCapabilities,
            4138u32 => DeviceInfo::QueueOnHostProperties,
            4139u32 => DeviceInfo::Name,
            4140u32 => DeviceInfo::Vendor,
            4142u32 => DeviceInfo::Profile,
            4143u32 => DeviceInfo::Version,
            4144u32 => DeviceInfo::Extensions,
            4145u32 => DeviceInfo::Platform,
            4146u32 => DeviceInfo::DoubleFpConfig,
            4149u32 => DeviceInfo::HostUnifiedMemory,
            4150u32 => DeviceInfo::NativeVectorWidthChar,
            4151u32 => DeviceInfo::NativeVectorWidthShort,
            4152u32 => DeviceInfo::NativeVectorWidthInt,
            4153u32 => DeviceInfo::NativeVectorWidthLong,
            4154u32 => DeviceInfo::NativeVectorWidthFloat,
            4155u32 => DeviceInfo::NativeVectorWidthDouble,
            4156u32 => DeviceInfo::NativeVectorWidthHalf,
            4157u32 => DeviceInfo::OpenclCVersion,
            4158u32 => DeviceInfo::LinkerAvailable,
            4159u32 => DeviceInfo::BuiltInKernels,
            4160u32 => DeviceInfo::ImageMaxBufferSize,
            4161u32 => DeviceInfo::ImageMaxArraySize,
            4162u32 => DeviceInfo::ParentDevice,
            4163u32 => DeviceInfo::PartitionMaxSubDevices,
            4164u32 => DeviceInfo::PartitionProperties,
            4165u32 => DeviceInfo::PartitionAffinityDomain,
            4166u32 => DeviceInfo::PartitionType,
            4167u32 => DeviceInfo::ReferenceCount,
            4168u32 => DeviceInfo::PreferredInteropUserSync,
            4169u32 => DeviceInfo::PrintfBufferSize,
            4170u32 => DeviceInfo::ImagePitchAlignment,
            4171u32 => DeviceInfo::ImageBaseAddressAlignment,
            4172u32 => DeviceInfo::MaxReadWriteImageArgs,
            4173u32 => DeviceInfo::MaxGlobalVariableSize,
            4174u32 => DeviceInfo::QueueOnDeviceProperties,
            4175u32 => DeviceInfo::QueueOnDevicePreferredSize,
            4176u32 => DeviceInfo::QueueOnDeviceMaxSize,
            4177u32 => DeviceInfo::MaxOnDeviceQueues,
            4178u32 => DeviceInfo::MaxOnDeviceEvents,
            4179u32 => DeviceInfo::SvmCapabilities,
            4180u32 => DeviceInfo::GlobalVariablePreferredTotalSize,
            4181u32 => DeviceInfo::MaxPipeArgs,
            4182u32 => DeviceInfo::PipeMaxActiveReservations,
            4183u32 => DeviceInfo::PipeMaxPacketSize,
            4184u32 => DeviceInfo::PreferredPlatformAtomicAlignment,
            4185u32 => DeviceInfo::PreferredGlobalAtomicAlignment,
            4186u32 => DeviceInfo::PreferredLocalAtomicAlignment,
            4187u32 => DeviceInfo::IlVersion,
            4188u32 => DeviceInfo::MaxNumSubGroups,
            4189u32 => DeviceInfo::SubGroupIndependentForwardProgress,
            4147u32 => DeviceInfo::HalfFpConfig,
            4141u32 => DeviceInfo::DriverVersion,
            _ => {
                proof {
                    assert(false);
                }
                DeviceInfo::Type
            },
        }
    }

    /// The variant for which OpenCL uses the value, or `None` when OpenCL uses the value
    /// for none of the variants.
    #[verifier::spinoff_prover]
    pub fn try_from_cl_value(value: cl_device_info) -> (r: Option<DeviceInfo>)
        ensures
            r is Some <==> DeviceInfo::is_cl_value(value),
            r matches Some(e) ==> e == DeviceInfo::from_cl_value_spec(value) && e.cl_value() == value,
    {
        match value {
            4096u32 => Some(DeviceInfo::Type),
            4097u32 => Some(DeviceInfo::VendorId),
            4098u32 => Some(DeviceInfo::MaxComputeUnits),
            4099u32 => Some(DeviceInfo::MaxWorkItemDimensions),
            4100u32 => Some(DeviceInfo::MaxWorkGroupSize),
            4101u32 => Some(DeviceInfo::MaxWorkItemSizes),
            4102u32 => Some(DeviceInfo::PreferredVectorWidthChar),
            4103u32 => Some(DeviceInfo::PreferredVectorWidthShort),
            4104u32 => Some(DeviceInfo::PreferredVectorWidthInt),
            4105u32 => Some(DeviceInfo::PreferredVectorWidthLong),
            4106u32 => Some(DeviceInfo::PreferredVectorWidthFloat),
            4107u32 => Some(DeviceInfo::PreferredVectorWidthDouble),
            4148u32 => Some(DeviceInfo::PreferredVectorWidthHalf),
            4108u32 => Some(DeviceInfo::MaxClockFrequency),
            4109u32 => Some(DeviceInfo::AddressBits),
            4110u32 => Some(DeviceInfo::MaxReadImageArgs),
            4111u32 => Some(DeviceInfo::MaxWriteImageArgs),
            4112u32 => Some(DeviceInfo::MaxMemAllocSize),
            4113u32 => Some(DeviceInfo::Image2DMaxWidth),
            4114u32 => Some(DeviceInfo::Image2DMaxHeight),
            4115u32 => Some(DeviceInfo::Image3DMaxWidth),
            4116u32 => Some(DeviceInfo::Image3DMaxHeight),
            4117u32 => Some(DeviceInfo::Image3DMaxDepth),
            4118u32 => Some(DeviceInfo::ImageSupport),
            4119u32 => Some(DeviceInfo::MaxParameterSize),
            4120u32 => Some(DeviceInfo::MaxSamplers),
            4121u32 => Some(DeviceInfo::MemBaseAddrAlign),
            4122u32 => Some(DeviceInfo::MinDataTypeAlignSize),
            4123u32 => Some(DeviceInfo::SingleFpConfig),
            4124u32 => Some(DeviceInfo::GlobalMemCacheType),
            4125u32 => Some(DeviceInfo::GlobalMemCachelineSize),
            4126u32 => Some(DeviceInfo::GlobalMemCacheSize),
            4127u32 => Some(DeviceInfo::GlobalMemSize),
            4128u32 => Some(DeviceInfo::MaxConstantBufferSize),
            4129u32 => Some(DeviceInfo::MaxConstantArgs),
            4130u32 => Some(DeviceInfo::LocalMemType),
            4131u32 => Some(DeviceInfo::LocalMemSize),
            4132u32 => Some(DeviceInfo::ErrorCorrectionSupport),
            4133u32 => Some(DeviceInfo::ProfilingTimerResolution),
            4134u32 => Some(DeviceInfo::EndianLittle),
            4135u32 => Some(DeviceInfo::Available),
            4136u32 => Some(DeviceInfo::CompilerAvailable),
            4137u32 => Some(DeviceInfo::ExecutionCapabilities),
            4138u32 => Some(DeviceInfo::QueueOnHostProperties),
            4139u32 => Some(DeviceInfo::Name),
            4140u32 => Some(DeviceInfo::Vendor),
            4142u32 => Some(DeviceInfo::Profile),
            4143u32 => Some(DeviceInfo::Version),
            4144u32 => Some(DeviceInfo::Extensions),
            4145u32 => Some(DeviceInfo::Platform),
            4146u32 => Some(DeviceInfo::DoubleFpConfig),
            4149u32 => Some(DeviceInfo::HostUnifiedMemory),
            4150u32 => Some(DeviceInfo::NativeVectorWidthChar),
            4151u32 => Some(DeviceInfo::NativeVectorWidthShort),
            4152u32 => Some(DeviceInfo::NativeVectorWidthInt),
            4153u32 => Some(DeviceInfo::NativeVectorWidthLong),
            4154u32 => Some(DeviceInfo::NativeVectorWidthFloat),
            4155u32 => Some(DeviceInfo::NativeVectorWidthDouble),
            4156u32 => Some(DeviceInfo::NativeVectorWidthHalf),
            4157u32 => Some(DeviceInfo::OpenclCVersion),
            4158u32 => Some(DeviceInfo::LinkerAvailable),
            4159u32 => Some(DeviceInfo::BuiltInKernels),
            4160u32 => Some(DeviceInfo::ImageMaxBufferSize),
            4161u32 => Some(DeviceInfo::ImageMaxArraySize),
            4162u32 => Some(DeviceInfo::ParentDevice),
            4163u32 => Some(DeviceInfo::PartitionMaxSubDevices),
            4164u32 => Some(DeviceInfo::PartitionProperties),
            4165u32 => Some(DeviceInfo::PartitionAffinityDomain),
            4166u32 => Some(DeviceInfo::PartitionType),
            4167u32 => Some(DeviceInfo::ReferenceCount),
            4168u32 => Some(DeviceInfo::PreferredInteropUserSync),
            4169u32 => Some(DeviceInfo::PrintfBufferSize),
            4170u32 => Some(DeviceInfo::ImagePitchAlignment),
            4171u32 => Some(DeviceInfo::ImageBaseAddressAlignment),
            4172u32 => Some(DeviceInfo::MaxReadWriteImageArgs),
            4173u32 => Some(DeviceInfo::MaxGlobalVariableSize),
            4174u32 => Some(DeviceInfo::QueueOnDeviceProperties),
            4175u32 => Some(DeviceInfo::QueueOnDevicePreferredSize),
            4176u32 => Some(DeviceInfo::QueueOnDeviceMaxSize),
            4177u32 => Some(DeviceInfo::MaxOnDeviceQueues),
            4178u32 => Some(DeviceInfo::MaxOnDeviceEvents),
            4179u32 => Some(DeviceInfo::SvmCapabilities),
            4180u32 => Some(DeviceInfo::GlobalVariablePreferredTotalSize),
            4181u32 => Some(DeviceInfo::MaxPipeArgs),
            4182u32 => Some(DeviceInfo::PipeMaxActiveReservations),
            4183u32 => Some(DeviceInfo::PipeMaxPacketSize),
            4184u32 => Some(DeviceInfo::PreferredPlatformAtomicAlignment),
            4185u32 => Some(DeviceInfo::PreferredGlobalAtomicAlignment),
            4186u32 => Some(DeviceInfo::PreferredLocalAtomicAlignment),
            4187u32 => Some(DeviceInfo::IlVersion),
            4188u32 => Some(DeviceInfo::MaxNumSubGroups),
            4189u32 => Some(DeviceInfo::SubGroupIndependentForwardProgress),
            4147u32 => Some(DeviceInfo::HalfFpConfig),
            4141u32 => Some(DeviceInfo::DriverVersion),
            _ => None,
        }
    }
}

impl From<DeviceInfo> for cl_device_info {
    fn from(value: DeviceInfo) -> (v: cl_device_info)
        ensures
            v == value.cl_value(),
    {
        match value {
            DeviceInfo::Type => 4096u32,
            DeviceInfo::VendorId => 4097u32,
            DeviceInfo::MaxComputeUnits => 4098u32,
            DeviceInfo::MaxWorkItemDimensions => 4099u32,
            DeviceInfo::MaxWorkGroupSize => 4100u32,
            DeviceInfo::MaxWorkItemSizes => 4101u32,
            DeviceInfo::PreferredVectorWidthChar => 4102u32,
            DeviceInfo::PreferredVectorWidthShort => 4103u32,
            DeviceInfo::PreferredVectorWidthInt => 4104u32,
            DeviceInfo::PreferredVectorWidthLong => 4105u32,
            DeviceInfo::PreferredVectorWidthFloat => 4106u32,
            DeviceInfo::PreferredVectorWidthDouble => 4107u32,
            DeviceInfo::PreferredVectorWidthHalf => 4148u32,
            DeviceInfo::MaxClockFrequency => 4108u32,
            DeviceInfo::AddressBits => 4109u32,
            DeviceInfo::MaxReadImageArgs => 4110u32,
            DeviceInfo::MaxWriteImageArgs => 4111u32,
            DeviceInfo::MaxMemAllocSize => 4112u32,
            DeviceInfo::Image2DMaxWidth => 4113u32,
            DeviceInfo::Image2DMaxHeight => 4114u32,
            DeviceInfo::Image3DMaxWidth => 4115u32,
            DeviceInfo::Image3DMaxHeight => 4116u32,
            DeviceInfo::Image3DMaxDepth => 4117u32,
            DeviceInfo::ImageSupport => 4118u32,
            DeviceInfo::MaxParameterSize => 4119u32,
            DeviceInfo::MaxSamplers => 4120u32,
            DeviceInfo::MemBaseAddrAlign => 4121u32,
            DeviceInfo::MinDataTypeAlignSize => 4122u32,
            DeviceInfo::SingleFpConfig => 4123u32,
            DeviceInfo::GlobalMemCacheType => 4124u32,
            DeviceInfo::GlobalMemCachelineSize => 4125u32,
            DeviceInfo::GlobalMemCacheSize => 4126u32,
            DeviceInfo::GlobalMemSize => 4127u32,
            DeviceInfo::MaxConstantBufferSize => 4128u32,
            DeviceInfo::MaxConstantArgs => 4129u32,
            DeviceInfo::LocalMemType => 4130u32,
            DeviceInfo::LocalMemSize => 4131u32,
            DeviceInfo::ErrorCorrectionSupport => 4132u32,
            DeviceInfo::ProfilingTimerResolution => 4133u32,
            DeviceInfo::EndianLittle => 4134u32,
            DeviceInfo::Available => 4135u32,
            DeviceInfo::CompilerAvailable => 4136u32,
            DeviceInfo::ExecutionCapabilities => 4137u32,
            DeviceInfo::QueueOnHostProperties => 4138u32,
            DeviceInfo::Name => 4139u32,
            DeviceInfo::Vendor => 4140u32,
            DeviceInfo::Profile => 4142u32,
            DeviceInfo::Version => 4143u32,
            DeviceInfo::Extensions => 4144u32,
            DeviceInfo::Platform => 4145u32,
            DeviceInfo::DoubleFpConfig => 4146u32,
            DeviceInfo::HostUnifiedMemory => 4149u32,
            DeviceInfo::NativeVectorWidthChar => 4150u32,
            DeviceInfo::NativeVectorWidthShort => 4151u32,
            DeviceInfo::NativeVectorWidthInt => 4152u32,
            DeviceInfo::NativeVectorWidthLong => 4153u32,
            DeviceInfo::NativeVectorWidthFloat => 4154u32,
            DeviceInfo::NativeVectorWidthDouble => 4155u32,
            DeviceInfo::NativeVectorWidthHalf => 4156u32,
            DeviceInfo::OpenclCVersion => 4157u32,
            DeviceInfo::LinkerAvailable => 4158u32,
            DeviceInfo::BuiltInKernels => 4159u32,
            DeviceInfo::ImageMaxBufferSize => 4160u32,
            DeviceInfo::ImageMaxArraySize => 4161u32,
            DeviceInfo::ParentDevice => 4162u32,
            DeviceInfo::PartitionMaxSubDevices => 4163u32,
            DeviceInfo::PartitionProperties => 4164u32,
            DeviceInfo::PartitionAffinityDomain => 4165u32,
            DeviceInfo::PartitionType => 4166u32,
            DeviceInfo::ReferenceCount => 4167u32,
            DeviceInfo::PreferredInteropUserSync => 4168u32,
            DeviceInfo::PrintfBufferSize => 4169u32,
            DeviceInfo::ImagePitchAlignment => 4170u32,
            DeviceInfo::ImageBaseAddressAlignment => 4171u32,
            DeviceInfo::MaxReadWriteImageArgs => 4172u32,
            DeviceInfo::MaxGlobalVariableSize => 4173u32,
            DeviceInfo::QueueOnDeviceProperties => 4174u32,
            DeviceInfo::QueueOnDevicePreferredSize => 4175u32,
            DeviceInfo::QueueOnDeviceMaxSize => 4176u32,
            DeviceInfo::MaxOnDeviceQueues => 4177u32,
            DeviceInfo::MaxOnDeviceEvents => 4178u32,
            DeviceInfo::SvmCapabilities => 4179u32,
            DeviceInfo::GlobalVariablePreferredTotalSize => 4180u32,
            DeviceInfo::MaxPipeArgs => 4181u32,
            DeviceInfo::PipeMaxActiveReservations => 4182u32,
            DeviceInfo::PipeMaxPacketSize => 4183u32,
            DeviceInfo::PreferredPlatformAtomicAlignment => 4184u32,
            DeviceInfo::PreferredGlobalAtomicAlignment => 4185u32,
            DeviceInfo::PreferredLocalAtomicAlignment => 4186u32,
            DeviceInfo::IlVersion => 4187u32,
            DeviceInfo::MaxNumSubGroups => 4188u32,
            DeviceInfo::SubGroupIndependentForwardProgress => 4189u32,
            DeviceInfo::HalfFpConfig => 4147u32,
            DeviceInfo::DriverVersion => 4141u32,
        }
    }
}

impl FromSpecImpl<DeviceInfo> for cl_device_info {
    open spec fn obeys_from_spec() -> bool {
        true
    }

    open spec fn from_spec(v: DeviceInfo) -> cl_device_info {
        v.cl_value()
    }
}

impl From<&DeviceInfo> for cl_device_info {
    fn from(value: &DeviceInfo) -> (v: cl_device_info)
        ensures
            v == value.cl_value(),
    {
        cl_device_info::from(*value)
    }
}

impl FromSpecImpl<&DeviceInfo> for cl_device_info {
    open spec fn obeys_from_spec() -> bool {
        true
    }

    open spec fn from_spec(v: &DeviceInfo) -> cl_device_info {
        v.cl_value()
    }
}

/// Every variant has its own OpenCL value, and reading that value back gives the variant.
pub proof fn lemma_device_info_round_trip(e: DeviceInfo)
    ensures
        DeviceInfo::is_cl_value(e.cl_value()),
        DeviceInfo::from_cl_value_spec(e.cl_value()) == e,
{
}

/// The type of a device's local memory.
#[allow(non_camel_case_types)]
#[derive(Debug, Clone, Copy, PartialEq, Eq, PartialOrd, Hash, Structural)]
pub enum DeviceLocalMemType {
    Local,
    Global,
}

impl DeviceLocalMemType {
    /// The `cl_device_local_mem_type` value that OpenCL uses for this variant.
    pub open spec fn cl_value(self) -> cl_device_local_mem_type {
        match self {
            DeviceLocalMemType::Local => 1u32,
            DeviceLocalMemType::Global => 2u32,
        }
    }

    /// Whether OpenCL uses the value for one of the variants.
    pub open spec fn is_cl_value(value: cl_device_local_mem_type) -> bool {
        value == 1u32 || value == 2u32
    }

    /// The variant for which OpenCL uses the value.
    pub open spec fn from_cl_value_spec(value: cl_device_local_mem_type) -> DeviceLocalMemType {
        if value == 1u32 {
            DeviceLocalMemType::Local
        } else {
            DeviceLocalMemType::Global
        }
    }

    /// The variant for which OpenCL uses the value. Any other value stops the program.
    #[verifier::spinoff_prover]
    pub fn from_cl_value(value: cl_device_local_mem_type) -> (e: DeviceLocalMemType)
        requires
            DeviceLocalMemType::is_cl_value(value),
        ensures
            e.cl_value() == value,
            e == DeviceLocalMemType::from_cl_value_spec(value),
    {
        match value {
            1u32 => DeviceLocalMemType::Local,
            2u32 => DeviceLocalMemType::Global,
            _ => {
                proof {
                    assert(false);
                }
                DeviceLocalMemType::Local
            },
        }
    }

    /// The variant for which OpenCL uses the value, or `None` when OpenCL uses the value
    /// for none of the variants.
    #[verifier::spinoff_prover]
    pub fn try_from_cl_value(value: cl_device_local_mem_type) -> (r: Option<DeviceLocalMemType>)
        ensures
            r is Some <==> DeviceLocalMemType::is_cl_value(value),
            r matches Some(e) ==> e == DeviceLocalMemType::from_cl_value_spec(value) && e.cl_value() == value,
    {
        match value {
            1u32 => Some(DeviceLocalMemType::Local),
            2u32 => Some(DeviceLocalMemType::Global),
            _ => None,
        }
    }
}

impl From<DeviceLocalMemType> for cl_device_local_mem_type {
    fn from(value: DeviceLocalMemType) -> (v: cl_device_local_mem_type)
        ensures
            v == value.cl_value(),
    {
        match value {
            DeviceLocalMemType::Local => 1u32,
            DeviceLocalMemType::Global => 2u32,
        }
    }
}

impl FromSpecImpl<DeviceLocalMemType> for cl_device_local_mem_type {
    open spec fn obeys_from_spec() -> bool {
        true
    }

    open spec fn from_spec(v: DeviceLocalMemType) -> cl_device_local_mem_type {
        v.cl_value()
    }
}

impl From<&DeviceLocalMemType> for cl_device_local_mem_type {
    fn from(value: &DeviceLocalMemType) -> (v: cl_device_local_mem_type)
        ensures
            v == value.cl_value(),
    {
        cl_device_local_mem_type::from(*value)
    }
}

impl FromSpecImpl<&DeviceLocalMemType> for cl_device_local_mem_type {
    open spec fn obeys_from_spec() -> bool {
        true
    }

    open spec fn from_spec(v: &DeviceLocalMemType) -> cl_device_local_mem_type {
        v.cl_value()
    }
}

/// Every variant has its own OpenCL value, and reading that value back gives the variant.
pub proof fn lemma_device_local_mem_type_round_trip(e: DeviceLocalMemType)
    ensures
        DeviceLocalMemType::is_cl_value(e.cl_value()),
        DeviceLocalMemType::from_cl_value_spec(e.cl_value()) == e,
{
}

/// The type of a device's global memory cache.
#[allow(non_camel_case_types)]
#[derive(Debug, Clone, Copy, PartialEq, Eq, PartialOrd, Hash, Structural)]
pub enum DeviceMemCacheType {
    NoneType,
    ReadOnlyCache,
    ReadWriteCache,
}

impl DeviceMemCacheType {
    /// The `cl_device_mem_cache_type` value that OpenCL uses for this variant.
    pub open spec fn cl_value(self) -> cl_device_mem_cache_type {
        match self {
            DeviceMemCacheType::NoneType => 0u32,
            DeviceMemCacheType::ReadOnlyCache => 1u32,
            DeviceMemCacheType::ReadWriteCache => 2u32,
        }
    }

    /// Whether OpenCL uses the value for one of the variants.
    pub open spec fn is_cl_value(value: cl_device_mem_cache_type) -> bool {
        value == 0u32 || value == 1u32 || value == 2u32
    }

    /// The variant for which OpenCL uses the value.
    pub open spec fn from_cl_value_spec(value: cl_device_mem_cache_type) -> DeviceMemCacheType {
        if value == 0u32 {
            DeviceMemCacheType::NoneType
        } else if value == 1u32 {
            DeviceMemCacheType::ReadOnlyCache
        } else {
            DeviceMemCacheType::ReadWriteCache
        }
    }

    /// The variant for which OpenCL uses the value. Any other value stops the program.
    #[verifier::spinoff_prover]
    pub fn from_cl_value(value: cl_device_mem_cache_type) -> (e: DeviceMemCacheType)
        requires
            DeviceMemCacheType::is_cl_value(value),
        ensures
            e.cl_value() == value,
            e == DeviceMemCacheType::from_cl_value_spec(value),
    {
        match value {
            0u32 => DeviceMemCacheType::NoneType,
            1u32 => DeviceMemCacheType::ReadOnlyCache,
            2u32 => DeviceMemCacheType::ReadWriteCache,
            _ => {
                proof {
                    assert(false);
                }
                DeviceMemCacheType::NoneType
            },
        }
    }

    /// The variant for which OpenCL uses the value, or `None` when OpenCL uses the value
    /// for none of the variants.
    #[verifier::spinoff_prover]
    pub fn try_from_cl_value(value: cl_device_mem_cache_type) -> (r: Option<DeviceMemCacheType>)
        ensures
            r is Some <==> DeviceMemCacheType::is_cl_value(value),
            r matches Some(e) ==> e == DeviceMemCacheType::from_cl_value_spec(value) && e.cl_value() == value,
    {
        match value {
            0u32 => Some(DeviceMemCacheType::NoneType),
            1u32 => Some(DeviceMemCacheType::ReadOnlyCache),
            2u32 => Some(DeviceMemCacheType::ReadWriteCache),
            _ => None,
        }
    }
}

impl From<DeviceMemCacheType> for cl_device_mem_cache_type {
    fn from(value: DeviceMemCacheType) -> (v: cl_device_mem_cache_type)
        ensures
            v == value.cl_value(),
    {
        match value {
            DeviceMemCacheType::NoneType => 0u32,
            DeviceMemCacheType::ReadOnlyCache => 1u32,
            DeviceMemCacheType::ReadWriteCache => 2u32,
        }
    }
}

impl FromSpecImpl<DeviceMemCacheType> for cl_device_mem_cache_type {
    open spec fn obeys_from_spec() -> bool {
        true
    }

    open spec fn from_spec(v: DeviceMemCacheType) -> cl_device_mem_cache_type {
        v.cl_value()
    }
}

impl From<&DeviceMemCacheType> for cl_device_mem_cache_type {
    fn from(value: &DeviceMemCacheType) -> (v: cl_device_mem_cache_type)
        ensures
            v == value.cl_value(),
    {
        cl_device_mem_cache_type::from(*value)
    }
}

impl FromSpecImpl<&DeviceMemCacheType> for cl_device_mem_cache_type {
    open spec fn obeys_from_spec() -> bool {
        true
    }

    open spec fn from_spec(v: &DeviceMemCacheType) -> cl_device_mem_cache_type {
        v.cl_value()
    }
}

/// Every variant has its own OpenCL value, and reading that value back gives the variant.
pub proof fn lemma_device_mem_cache_type_round_trip(e: DeviceMemCacheType)
    ensures
        DeviceMemCacheType::is_cl_value(e.cl_value()),
        DeviceMemCacheType::from_cl_value_spec(e.cl_value()) == e,
{
}

/// The ways in which a device can be partitioned.
#[allow(non_camel_case_types)]
#[derive(Debug, Clone, Copy, PartialEq, Eq, PartialOrd, Hash, Structural)]
pub enum DevicePartitionProperty {
    Equally,
    ByCounts,
    ByAffinityDomain,
}

impl DevicePartitionProperty {
    /// The `cl_device_partition_property` value that OpenCL uses for this variant.
    pub open spec fn cl_value(self) -> cl_device_partition_property {
        match self {
            DevicePartitionProperty::Equally => 4230isize,
            DevicePartitionProperty::ByCounts => 4231isize,
            DevicePartitionProperty::ByAffinityDomain => 4232isize,
        }
    }

    /// Whether OpenCL uses the value for one of the variants.
    pub open spec fn is_cl_value(value: cl_device_partition_property) -> bool {
        value == 4230isize || value == 4231isize || value == 4232isize
    }

    /// The variant for which OpenCL uses the value.
    pub open spec fn from_cl_value_spec(value: cl_device_partition_property) -> DevicePartitionProperty {
        if value == 4230isize {
            DevicePartitionProperty::Equally
        } else if value == 4231isize {
            DevicePartitionProperty::ByCounts
        } else {
            DevicePartitionProperty::ByAffinityDomain
        }
    }

    /// The variant for which OpenCL uses the value. Any other value stops the program.
    #[verifier::spinoff_prover]
    pub fn from_cl_value(value: cl_device_partition_property) -> (e: DevicePartitionProperty)
        requires
            DevicePartitionProperty::is_cl_value(value),
        ensures
            e.cl_value() == value,
            e == DevicePartitionProperty::from_cl_value_spec(value),
    {
        match value {
            4230isize => DevicePartitionProperty::Equally,
            4231isize => DevicePartitionProperty::ByCounts,
            4232isize => DevicePartitionProperty::ByAffinityDomain,
            _ => {
                proof {
                    assert(false);
                }
                DevicePartitionProperty::Equally
            },
        }
    }

    /// The variant for which OpenCL uses the value, or `None` when OpenCL uses the value
    /// for none of the variants.
    #[verifier::spinoff_prover]
    pub fn try_from_cl_value(value: cl_device_partition_property) -> (r: Option<DevicePartitionProperty>)
        ensures
            r is Some <==> DevicePartitionProperty::is_cl_value(value),
            r matches Some(e) ==> e == DevicePartitionProperty::from_cl_value_spec(value) && e.cl_value() == value,
    {
        match value {
            4230isize => Some(DevicePartitionProperty::Equally),
            4231isize => Some(DevicePartitionProperty::ByCounts),
            4232isize => Some(DevicePartitionProperty::ByAffinityDomain),
            _ => None,
        }
    }
}

impl From<DevicePartitionProperty> for cl_device_partition_property {
    fn from(value: DevicePartitionProperty) -> (v: cl_device_partition_property)
        ensures
            v == value.cl_value(),
    {
        match value {
            DevicePartitionProperty::Equally => 4230isize,
            DevicePartitionProperty::ByCounts => 4231isize,
            DevicePartitionProperty::ByAffinityDomain => 4232isize,
        }
    }
}

impl FromSpecImpl<DevicePartitionProperty> for cl_device_partition_property {
    open spec fn obeys_from_spec() -> bool {
        true
    }

    open spec fn from_spec(v: DevicePartitionProperty) -> cl_device_partition_property {
        v.cl_value()
    }
}

impl From<&DevicePartitionProperty> for cl_device_partition_property {
    fn from(value: &DevicePartitionProperty) -> (v: cl_device_partition_property)
        ensures
            v == value.cl_value(),
    {
        cl_device_partition_property::from(*value)
    }
}

impl FromSpecImpl<&DevicePartitionProperty> for cl_device_partition_property {
    open spec fn obeys_from_spec() -> bool {
        true
    }

    open spec fn from_spec(v: &DevicePartitionProperty) -> cl_device_partition_property {
        v.cl_value()
    }
}

/// Every variant has its own OpenCL value, and reading that value back gives the variant.
pub proof fn lemma_device_partition_property_round_trip(e: DevicePartitionProperty)
    ensures
        DevicePartitionProperty::is_cl_value(e.cl_value()),
        DevicePartitionProperty::from_cl_value_spec(e.cl_value()) == e,
{
}

/// The context information that OpenCL can be asked for.
#[allow(non_camel_case_types)]
#[derive(Debug, Clone, Copy, PartialEq, Eq, PartialOrd, Hash, Structural)]
pub enum ContextInfo {
    ReferenceCount,
    Devices,
    Properties,
    NumDevices,
}

impl ContextInfo {
    /// The `cl_context_info` value that OpenCL uses for this variant.
    pub open spec fn cl_value(self) -> cl_context_info {
        match self {
            ContextInfo::ReferenceCount => 4224u32,
            ContextInfo::Devices => 4225u32,
            ContextInfo::Properties => 4226u32,
            ContextInfo::NumDevices => 4227u32,
        }
    }

    /// Whether OpenCL uses the value for one of the variants.
    pub open spec fn is_cl_value(value: cl_context_info) -> bool {
        value == 4224u32 || value == 4225u32 || value == 4226u32 || value == 4227u32
    }

    /// The variant for which OpenCL uses the value.
    pub open spec fn from_cl_value_spec(value: cl_context_info) -> ContextInfo {
        if value == 4224u32 {
            ContextInfo::ReferenceCount
        } else if value == 4225u32 {
            ContextInfo::Devices
        } else if value == 4226u32 {
            ContextInfo::Properties
        } else {
            ContextInfo::NumDevices
        }
    }

    /// The variant for which OpenCL uses the value. Any other value stops the program.
    #[verifier::spinoff_prover]
    pub fn from_cl_value(value: cl_context_info) -> (e: ContextInfo)
        requires
            ContextInfo::is_cl_value(value),
        ensures
            e.cl_value() == value,
            e == ContextInfo::from_cl_value_spec(value),
    {
        match value {
            4224u32 => ContextInfo::ReferenceCount,
            4225u32 => ContextInfo::Devices,
            4226u32 => ContextInfo::Properties,
            4227u32 => ContextInfo::NumDevices,
            _ => {
                proof {
                    assert(false);
                }
                ContextInfo::ReferenceCount
            },
        }
    }

    /// The variant for which OpenCL uses the value, or `None` when OpenCL uses the value
    /// for none of the variants.
    #[verifier::spinoff_prover]
    pub fn try_from_cl_value(value: cl_context_info) -> (r: Option<ContextInfo>)
        ensures
            r is Some <==> ContextInfo::is_cl_value(value),
            r matches Some(e) ==> e == ContextInfo::from_cl_value_spec(value) && e.cl_value() == value,
    {
        match value {
            4224u32 => Some(ContextInfo::ReferenceCount),
            4225u32 => Some(ContextInfo::Devices),
            4226u32 => Some(ContextInfo::Properties),
            4227u32 => Some(ContextInfo::NumDevices),
            _ => None,
        }
    }
}

impl From<ContextInfo> for cl_context_info {
    fn from(value: ContextInfo) -> (v: cl_context_info)
        ensures
            v == value.cl_value(),
    {
        match value {
            ContextInfo::ReferenceCount => 4224u32,
            ContextInfo::Devices => 4225u32,
            ContextInfo::Properties => 4226u32,
            ContextInfo::NumDevices => 4227u32,
        }
    }
}

impl FromSpecImpl<ContextInfo> for cl_context_info {
    open spec fn obeys_from_spec() -> bool {
        true
    }

    open spec fn from_spec(v: ContextInfo) -> cl_context_info {
        v.cl_value()
    }
}

impl From<&ContextInfo> for cl_context_info {
    fn from(value: &ContextInfo) -> (v: cl_context_info)
        ensures
            v == value.cl_value(),
    {
        cl_context_info::from(*value)
    }
}

impl FromSpecImpl<&ContextInfo> for cl_context_info {
    open spec fn obeys_from_spec() -> bool {
        true
    }

    open spec fn from_spec(v: &ContextInfo) -> cl_context_info {
        v.cl_value()
    }
}

/// Every variant has its own OpenCL value, and reading that value back gives the variant.
pub proof fn lemma_context_info_round_trip(e: ContextInfo)
    ensures
        ContextInfo::is_cl_value(e.cl_value()),
        ContextInfo::from_cl_value_spec(e.cl_value()) == e,
{
}

/// The properties that a context can be created with.
#[allow(non_camel_case_types)]
#[derive(Debug, Clone, Copy, PartialEq, Eq, PartialOrd, Hash, Structural)]
pub enum ContextProperties {
    Platform,
    InteropUserSync,
}

impl ContextProperties {
    /// The `cl_context_properties` value that OpenCL uses for this variant.
    pub open spec fn cl_value(self) -> cl_context_properties {
        match self {
            ContextProperties::Platform => 4228isize,
            ContextProperties::InteropUserSync => 4229isize,
        }
    }

    /// Whether OpenCL uses the value for one of the variants.
    pub open spec fn is_cl_value(value: cl_context_properties) -> bool {
        value == 4228isize || value == 4229isize
    }

    /// The variant for which OpenCL uses the value.
    pub open spec fn from_cl_value_spec(value: cl_context_properties) -> ContextProperties {
        if value == 4228isize {
            ContextProperties::Platform
        } else {
            ContextProperties::InteropUserSync
        }
    }

    /// The variant for which OpenCL uses the value. Any other value stops the program.
    #[verifier::spinoff_prover]
    pub fn from_cl_value(value: cl_context_properties) -> (e: ContextProperties)
        requires
            ContextProperties::is_cl_value(value),
        ensures
            e.cl_value() == value,
            e == ContextProperties::from_cl_value_spec(value),
    {
        match value {
            4228isize => ContextProperties::Platform,
            4229isize => ContextProperties::InteropUserSync,
            _ => {
                proof {
                    assert(false);
                }
                ContextProperties::Platform
            },
        }
    }

    /// The variant for which OpenCL uses the value, or `None` when OpenCL uses the value
    /// for none of the variants.
    #[verifier::spinoff_prover]
    pub fn try_from_cl_value(value: cl_context_properties) -> (r: Option<ContextProperties>)
        ensures
            r is Some <==> ContextProperties::is_cl_value(value),
            r matches Some(e) ==> e == ContextProperties::from_cl_value_spec(value) && e.cl_value() == value,
    {
        match value {
            4228isize => Some(ContextProperties::Platform),
            4229isize => Some(ContextProperties::InteropUserSync),
            _ => None,
        }
    }
}

impl From<ContextProperties> for cl_context_properties {
    fn from(value: ContextProperties) -> (v: cl_context_properties)
        ensures
            v == value.cl_value(),
    {
        match value {
            ContextProperties::Platform => 4228isize,
            ContextProperties::InteropUserSync => 4229isize,
        }
    }
}

impl FromSpecImpl<ContextProperties> for cl_context_properties {
    open spec fn obeys_from_spec() -> bool {
        true
    }

    open spec fn from_spec(v: ContextProperties) -> cl_context_properties {
        v.cl_value()
    }
}

impl From<&ContextProperties> for cl_context_properties {
    fn from(value: &ContextProperties) -> (v: cl_context_properties)
        ensures
            v == value.cl_value(),
    {
        cl_context_properties::from(*value)
    }
}

impl FromSpecImpl<&ContextProperties> for cl_context_properties {
    open spec fn obeys_from_spec() -> bool {
        true
    }

    open spec fn from_spec(v: &ContextProperties) -> cl_context_properties {
        v.cl_value()
    }
}

/// Every variant has its own OpenCL value, and reading that value back gives the variant.
pub proof fn lemma_context_properties_round_trip(e: ContextProperties)
    ensures
        ContextProperties::is_cl_value(e.cl_value()),
        ContextProperties::from_cl_value_spec(e.cl_value()) == e,
{
}

/// The program build information that OpenCL can be asked for.
#[allow(non_camel_case_types)]
#[derive(Debug, Clone, Copy, PartialEq, Eq, PartialOrd, Hash, Structural)]
pub enum ProgramBuildInfo {
    Status,
    Options,
    Log,
    GlobalVariableTotalSize,
}

impl ProgramBuildInfo {
    /// The `cl_program_build_info` value that OpenCL uses for this variant.
    pub open spec fn cl_value(self) -> cl_program_build_info {
        match self {
            ProgramBuildInfo::Status => 4481u32,
            ProgramBuildInfo::Options => 4482u32,
            ProgramBuildInfo::Log => 4483u32,
            ProgramBuildInfo::GlobalVariableTotalSize => 4485u32,
        }
    }

    /// Whether OpenCL uses the value for one of the variants.
    pub open spec fn is_cl_value(value: cl_program_build_info) -> bool {
        value == 4481u32 || value == 4482u32 || value == 4483u32 || value == 4485u32
    }

    /// The variant for which OpenCL uses the value.
    pub open spec fn from_cl_value_spec(value: cl_program_build_info) -> ProgramBuildInfo {
        if value == 4481u32 {
            ProgramBuildInfo::Status
        } else if value == 4482u32 {
            ProgramBuildInfo::Options
        } else if value == 4483u32 {
            ProgramBuildInfo::Log
        } else {
            ProgramBuildInfo::GlobalVariableTotalSize
        }
    }

    /// The variant for which OpenCL uses the value. Any other value stops the program.
    #[verifier::spinoff_prover]
    pub fn from_cl_value(value: cl_program_build_info) -> (e: ProgramBuildInfo)
        requires
            ProgramBuildInfo::is_cl_value(value),
        ensures
            e.cl_value() == value,
            e == ProgramBuildInfo::from_cl_value_spec(value),
    {
        match value {
            4481u32 => ProgramBuildInfo::Status,
            4482u32 => ProgramBuildInfo::Options,
            4483u32 => ProgramBuildInfo::Log,
            4485u32 => ProgramBuildInfo::GlobalVariableTotalSize,
            _ => {
                proof {
                    assert(false);
                }
                ProgramBuildInfo::Status
            },
        }
    }

    /// The variant for which OpenCL uses the value, or `None` when OpenCL uses the value
    /// for none of the variants.
    #[verifier::spinoff_prover]
    pub fn try_from_cl_value(value: cl_program_build_info) -> (r: Option<ProgramBuildInfo>)
        ensures
            r is Some <==> ProgramBuildInfo::is_cl_value(value),
            r matches Some(e) ==> e == ProgramBuildInfo::from_cl_value_spec(value) && e.cl_value() == value,
    {
        match value {
            4481u32 => Some(ProgramBuildInfo::Status),
            4482u32 => Some(ProgramBuildInfo::Options),
            4483u32 => Some(ProgramBuildInfo::Log),
            4485u32 => Some(ProgramBuildInfo::GlobalVariableTotalSize),
            _ => None,
        }
    }
}

impl From<ProgramBuildInfo> for cl_program_build_info {
    fn from(value: ProgramBuildInfo) -> (v: cl_program_build_info)
        ensures
            v == value.cl_value(),
    {
        match value {
            ProgramBuildInfo::Status => 4481u32,
            ProgramBuildInfo::Options => 4482u32,
            ProgramBuildInfo::Log => 4483u32,
            ProgramBuildInfo::GlobalVariableTotalSize => 4485u32,
        }
    }
}

impl FromSpecImpl<ProgramBuildInfo> for cl_program_build_info {
    open spec fn obeys_from_spec() -> bool {
        true
    }

    open spec fn from_spec(v: ProgramBuildInfo) -> cl_program_build_info {
        v.cl_value()
    }
}

impl From<&ProgramBuildInfo> for cl_program_build_info {
    fn from(value: &ProgramBuildInfo) -> (v: cl_program_build_info)
        ensures
            v == value.cl_value(),
    {
        cl_program_build_info::from(*value)
    }
}

impl FromSpecImpl<&ProgramBuildInfo> for cl_program_build_info {
    open spec fn obeys_from_spec() -> bool {
        true
    }

    open spec fn from_spec(v: &ProgramBuildInfo) -> cl_program_build_info {
        v.cl_value()
    }
}

/// Every variant has its own OpenCL value, and reading that value back gives the variant.
pub proof fn lemma_program_build_info_round_trip(e: ProgramBuildInfo)
    ensures
        ProgramBuildInfo::is_cl_value(e.cl_value()),
        ProgramBuildInfo::from_cl_value_spec(e.cl_value()) == e,
{
}

/// The program information that OpenCL can be asked for.
#[allow(non_camel_case_types)]
#[derive(Debug, Clone, Copy, PartialEq, Eq, PartialOrd, Hash, Structural)]
pub enum ProgramInfo {
    ReferenceCount,
    Context,
    NumDevices,
    Devices,
    Source,
    BinarySizes,
    Binaries,
    NumKernels,
    KernelNames,
}

impl ProgramInfo {
    /// The `cl_program_info` value that OpenCL uses for this variant.
    pub open spec fn cl_value(self) -> cl_program_info {
        match self {
            ProgramInfo::ReferenceCount => 4448u32,
            ProgramInfo::Context => 4449u32,
            ProgramInfo::NumDevices => 4450u32,
            ProgramInfo::Devices => 4451u32,
            ProgramInfo::Source => 4452u32,
            ProgramInfo::BinarySizes => 4453u32,
            ProgramInfo::Binaries => 4454u32,
            ProgramInfo::NumKernels => 4455u32,
            ProgramInfo::KernelNames => 4456u32,
        }
    }

    /// Whether OpenCL uses the value for one of the variants.
    pub open spec fn is_cl_value(value: cl_program_info) -> bool {
        value == 4448u32 || value == 4449u32 || value == 4450u32 || value == 4451u32 || value == 4452u32 || value == 4453u32 || value == 4454u32 || value == 4455u32 || value == 4456u32
    }

    /// The variant for which OpenCL uses the value.
    pub open spec fn from_cl_value_spec(value: cl_program_info) -> ProgramInfo {
        if value == 4448u32 {
            ProgramInfo::ReferenceCount
        } else if value == 4449u32 {
            ProgramInfo::Context
        } else if value == 4450u32 {
            ProgramInfo::NumDevices
        } else if value == 4451u32 {
            ProgramInfo::Devices
        } else if value == 4452u32 {
            ProgramInfo::Source
        } else if value == 4453u32 {
            ProgramInfo::BinarySizes
        } else if value == 4454u32 {
            ProgramInfo::Binaries
        } else if value == 4455u32 {
            ProgramInfo::NumKernels
        } else {
            ProgramInfo::KernelNames
        }
    }

    /// The variant for which OpenCL uses the value. Any other value stops the program.
    #[verifier::spinoff_prover]
    pub fn from_cl_value(value: cl_program_info) -> (e: ProgramInfo)
        requires
            ProgramInfo::is_cl_value(value),
        ensures
            e.cl_value() == value,
            e == ProgramInfo::from_cl_value_spec(value),
    {
        match value {
            4448u32 => ProgramInfo::ReferenceCount,
            4449u32 => ProgramInfo::Context,
            4450u32 => ProgramInfo::NumDevices,
            4451u32 => ProgramInfo::Devices,
            4452u32 => ProgramInfo::Source,
            4453u32 => ProgramInfo::BinarySizes,
            4454u32 => ProgramInfo::Binaries,
            4455u32 => ProgramInfo::NumKernels,
            4456u32 => ProgramInfo::KernelNames,
            _ => {
                proof {
                    assert(false);
                }
                ProgramInfo::ReferenceCount
            },
        }
    }

    /// The variant for which OpenCL uses the value, or `None` when OpenCL uses the value
    /// for none of the variants.
    #[verifier::spinoff_prover]
    pub fn try_from_cl_value(value: cl_program_info) -> (r: Option<ProgramInfo>)
        ensures
            r is Some <==> ProgramInfo::is_cl_value(value),
            r matches Some(e) ==> e == ProgramInfo::from_cl_value_spec(value) && e.cl_value() == value,
    {
        match value {
            4448u32 => Some(ProgramInfo::ReferenceCount),
            4449u32 => Some(ProgramInfo::Context),
            4450u32 => Some(ProgramInfo::NumDevices),
            4451u32 => Some(ProgramInfo::Devices),
            4452u32 => Some(ProgramInfo::Source),
            4453u32 => Some(ProgramInfo::BinarySizes),
            4454u32 => Some(ProgramInfo::Binaries),
            4455u32 => Some(ProgramInfo::NumKernels),
            4456u32 => Some(ProgramInfo::KernelNames),
            _ => None,
        }
    }
}

impl From<ProgramInfo> for cl_program_info {
    fn from(value: ProgramInfo) -> (v: cl_program_info)
        ensures
            v == value.cl_value(),
    {
        match value {
            ProgramInfo::ReferenceCount => 4448u32,
            ProgramInfo::Context => 4449u32,
            ProgramInfo::NumDevices => 4450u32,
            ProgramInfo::Devices => 4451u32,
            ProgramInfo::Source => 4452u32,
            ProgramInfo::BinarySizes => 4453u32,
            ProgramInfo::Binaries => 4454u32,
            ProgramInfo::NumKernels => 4455u32,
            ProgramInfo::KernelNames => 4456u32,
        }
    }
}

impl FromSpecImpl<ProgramInfo> for cl_program_info {
    open spec fn obeys_from_spec() -> bool {
        true
    }

    open spec fn from_spec(v: ProgramInfo) -> cl_program_info {
        v.cl_value()
    }
}

impl From<&ProgramInfo> for cl_program_info {
    fn from(value: &ProgramInfo) -> (v: cl_program_info)
        ensures
            v == value.cl_value(),
    {
        cl_program_info::from(*value)
    }
}

impl FromSpecImpl<&ProgramInfo> for cl_program_info {
    open spec fn obeys_from_spec() -> bool {
        true
    }

    open spec fn from_spec(v: &ProgramInfo) -> cl_program_info {
        v.cl_value()
    }
}

/// Every variant has its own OpenCL value, and reading that value back gives the variant.
pub proof fn lemma_program_info_round_trip(e: ProgramInfo)
    ensures
        ProgramInfo::is_cl_value(e.cl_value()),
        ProgramInfo::from_cl_value_spec(e.cl_value()) == e,
{
}

/// The status of a program build.
#[allow(non_camel_case_types)]
#[derive(Debug, Clone, Copy, PartialEq, Eq, PartialOrd, Hash, Structural)]
pub enum BuildStatus {
    Success,
    NoneType,
    Error,
    InProgress,
}

impl BuildStatus {
    /// The `cl_build_status` value that OpenCL uses for this variant.
    pub open spec fn cl_value(self) -> cl_build_status {
        match self {
            BuildStatus::Success => 0i32,
            BuildStatus::NoneType => -1i32,
            BuildStatus::Error => -2i32,
            BuildStatus::InProgress => -3i32,
        }
    }

    /// Whether OpenCL uses the value for one of the variants.
    pub open spec fn is_cl_value(value: cl_build_status) -> bool {
        value == 0i32 || value == -1i32 || value == -2i32 || value == -3i32
    }

    /// The variant for which OpenCL uses the value.
    pub open spec fn from_cl_value_spec(value: cl_build_status) -> BuildStatus {
        if value == 0i32 {
            BuildStatus::Success
        } else if value == -1i32 {
            BuildStatus::NoneType
        } else if value == -2i32 {
            BuildStatus::Error
        } else {
            BuildStatus::InProgress
        }
    }

    /// The variant for which OpenCL uses the value. Any other value stops the program.
    #[verifier::spinoff_prover]
    pub fn from_cl_value(value: cl_build_status) -> (e: BuildStatus)
        requires
            BuildStatus::is_cl_value(value),
        ensures
            e.cl_value() == value,
            e == BuildStatus::from_cl_value_spec(value),
    {
        match value {
            0i32 => BuildStatus::Success,
            -1i32 => BuildStatus::NoneType,
            -2i32 => BuildStatus::Error,
            -3i32 => BuildStatus::InProgress,
            _ => {
                proof {
                    assert(false);
                }
                BuildStatus::Success
            },
        }
    }

    /// The variant for which OpenCL uses the value, or `None` when OpenCL uses the value
    /// for none of the variants.
    #[verifier::spinoff_prover]
    pub fn try_from_cl_value(value: cl_build_status) -> (r: Option<BuildStatus>)
        ensures
            r is Some <==> BuildStatus::is_cl_value(value),
            r matches Some(e) ==> e == BuildStatus::from_cl_value_spec(value) && e.cl_value() == value,
    {
        match value {
            0i32 => Some(BuildStatus::Success),
            -1i32 => Some(BuildStatus::NoneType),
            -2i32 => Some(BuildStatus::Error),
            -3i32 => Some(BuildStatus::InProgress),
            _ => None,
        }
    }
}

impl From<BuildStatus> for cl_build_status {
    fn from(value: BuildStatus) -> (v: cl_build_status)
        ensures
            v == value.cl_value(),
    {
        match value {
            BuildStatus::Success => 0i32,
            BuildStatus::NoneType => -1i32,
            BuildStatus::Error => -2i32,
            BuildStatus::InProgress => -3i32,
        }
    }
}

impl FromSpecImpl<BuildStatus> for cl_build_status {
    open spec fn obeys_from_spec() -> bool {
        true
    }

    open spec fn from_spec(v: BuildStatus) -> cl_build_status {
        v.cl_value()
    }
}

impl From<&BuildStatus> for cl_build_status {
    fn from(value: &BuildStatus) -> (v: cl_build_status)
        ensures
            v == value.cl_value(),
    {
        cl_build_status::from(*value)
    }
}

impl FromSpecImpl<&BuildStatus> for cl_build_status {
    open spec fn obeys_from_spec() -> bool {
        true
    }

    open spec fn from_spec(v: &BuildStatus) -> cl_build_status {
        v.cl_value()
    }
}

/// Every variant has its own OpenCL value, and reading that value back gives the variant.
pub proof fn lemma_build_status_round_trip(e: BuildStatus)
    ensures
        BuildStatus::is_cl_value(e.cl_value()),
        BuildStatus::from_cl_value_spec(e.cl_value()) == e,
{
}

/// The type of a program binary.
#[allow(non_camel_case_types)]
#[derive(Debug, Clone, Copy, PartialEq, Eq, PartialOrd, Hash, Structural)]
pub enum ProgramBinaryType {
    NoneType,
    CompiledObject,
    Library,
    Executable,
}

impl ProgramBinaryType {
    /// The `cl_program_binary_type` value that OpenCL uses for this variant.
    pub open spec fn cl_value(self) -> cl_program_binary_type {
        match self {
            ProgramBinaryType::NoneType => 0u32,
            ProgramBinaryType::CompiledObject => 1u32,
            ProgramBinaryType::Library => 2u32,
            ProgramBinaryType::Executable => 4u32,
        }
    }

    /// Whether OpenCL uses the value for one of the variants.
    pub open spec fn is_cl_value(value: cl_program_binary_type) -> bool {
        value == 0u32 || value == 1u32 || value == 2u32 || value == 4u32
    }

    /// The variant for which OpenCL uses the value.
    pub open spec fn from_cl_value_spec(value: cl_program_binary_type) -> ProgramBinaryType {
        if value == 0u32 {
            ProgramBinaryType::NoneType
        } else if value == 1u32 {
            ProgramBinaryType::CompiledObject
        } else if value == 2u32 {
            ProgramBinaryType::Library
        } else {
            ProgramBinaryType::Executable
        }
    }

    /// The variant for which OpenCL uses the value. Any other value stops the program.
    #[verifier::spinoff_prover]
    pub fn from_cl_value(value: cl_program_binary_type) -> (e: ProgramBinaryType)
        requires
            ProgramBinaryType::is_cl_value(value),
        ensures
            e.cl_value() == value,
            e == ProgramBinaryType::from_cl_value_spec(value),
    {
        match value {
            0u32 => ProgramBinaryType::NoneType,
            1u32 => ProgramBinaryType::CompiledObject,
            2u32 => ProgramBinaryType::Library,
            4u32 => ProgramBinaryType::Executable,
            _ => {
                proof {
                    assert(false);
                }
                ProgramBinaryType::NoneType
            },
        }
    }

    /// The variant for which OpenCL uses the value, or `None` when OpenCL uses the value
    /// for none of the variants.
    #[verifier::spinoff_prover]
    pub fn try_from_cl_value(value: cl_program_binary_type) -> (r: Option<ProgramBinaryType>)
        ensures
            r is Some <==> ProgramBinaryType::is_cl_value(value),
            r matches Some(e) ==> e == ProgramBinaryType::from_cl_value_spec(value) && e.cl_value() == value,
    {
        match value {
            0u32 => Some(ProgramBinaryType::NoneType),
            1u32 => Some(ProgramBinaryType::CompiledObject),
            2u32 => Some(ProgramBinaryType::Library),
            4u32 => Some(ProgramBinaryType::Executable),
            _ => None,
        }
    }
}

impl From<ProgramBinaryType> for cl_program_binary_type {
    fn from(value: ProgramBinaryType) -> (v: cl_program_binary_type)
        ensures
            v == value.cl_value(),
    {
        match value {
            ProgramBinaryType::NoneType => 0u32,
            ProgramBinaryType::CompiledObject => 1u32,
            ProgramBinaryType::Library => 2u32,
            ProgramBinaryType::Executable => 4u32,
        }
    }
}

impl FromSpecImpl<ProgramBinaryType> for cl_program_binary_type {
    open spec fn obeys_from_spec() -> bool {
        true
    }

    open spec fn from_spec(v: ProgramBinaryType) -> cl_program_binary_type {
        v.cl_value()
    }
}

impl From<&ProgramBinaryType> for cl_program_binary_type {
    fn from(value: &ProgramBinaryType) -> (v: cl_program_binary_type)
        ensures
            v == value.cl_value(),
    {
        cl_program_binary_type::from(*value)
    }
}

impl FromSpecImpl<&ProgramBinaryType> for cl_program_binary_type {
    open spec fn obeys_from_spec() -> bool {
        true
    }

    open spec fn from_spec(v: &ProgramBinaryType) -> cl_program_binary_type {
        v.cl_value()
    }
}

/// Every variant has its own OpenCL value, and reading that value back gives the variant.
pub proof fn lemma_program_binary_type_round_trip(e: ProgramBinaryType)
    ensures
        ProgramBinaryType::is_cl_value(e.cl_value()),
        ProgramBinaryType::from_cl_value_spec(e.cl_value()) == e,
{
}

/// How memory objects are migrated.
#[allow(non_camel_case_types)]
#[derive(Debug, Clone, Copy, PartialEq, Eq, PartialOrd, Hash, Structural)]
pub enum MemMigrationFlags {
    Host,
    ContentUndefined,
}

impl MemMigrationFlags {
    /// The `cl_mem_migration_flags` value that OpenCL uses for this variant.
    pub open spec fn cl_value(self) -> cl_mem_migration_flags {
        match self {
            MemMigrationFlags::Host => 1u64,
            MemMigrationFlags::ContentUndefined => 2u64,
        }
    }

    /// Whether OpenCL uses the value for one of the variants.
    pub open spec fn is_cl_value(value: cl_mem_migration_flags) -> bool {
        value == 1u64 || value == 2u64
    }

    /// The variant for which OpenCL uses the value.
    pub open spec fn from_cl_value_spec(value: cl_mem_migration_flags) -> MemMigrationFlags {
        if value == 1u64 {
            MemMigrationFlags::Host
        } else {
            MemMigrationFlags::ContentUndefined
        }
    }

    /// The variant for which OpenCL uses the value. Any other value stops the program.
    #[verifier::spinoff_prover]
    pub fn from_cl_value(value: cl_mem_migration_flags) -> (e: MemMigrationFlags)
        requires
            MemMigrationFlags::is_cl_value(value),
        ensures
            e.cl_value() == value,
            e == MemMigrationFlags::from_cl_value_spec(value),
    {
        match value {
            1u64 => MemMigrationFlags::Host,
            2u64 => MemMigrationFlags::ContentUndefined,
            _ => {
                proof {
                    assert(false);
                }
                MemMigrationFlags::Host
            },
        }
    }

    /// The variant for which OpenCL uses the value, or `None` when OpenCL uses the value
    /// for none of the variants.
    #[verifier::spinoff_prover]
    pub fn try_from_cl_value(value: cl_mem_migration_flags) -> (r: Option<MemMigrationFlags>)
        ensures
            r is Some <==> MemMigrationFlags::is_cl_value(value),
            r matches Some(e) ==> e == MemMigrationFlags::from_cl_value_spec(value) && e.cl_value() == value,
    {
        match value {
            1u64 => Some(MemMigrationFlags::Host),
            2u64 => Some(MemMigrationFlags::ContentUndefined),
            _ => None,
        }
    }
}

impl From<MemMigrationFlags> for cl_mem_migration_flags {
    fn from(value: MemMigrationFlags) -> (v: cl_mem_migration_flags)
        ensures
            v == value.cl_value(),
    {
        match value {
            MemMigrationFlags::Host => 1u64,
            MemMigrationFlags::ContentUndefined => 2u64,
        }
    }
}

impl FromSpecImpl<MemMigrationFlags> for cl_mem_migration_flags {
    open spec fn obeys_from_spec() -> bool {
        true
    }

    open spec fn from_spec(v: MemMigrationFlags) -> cl_mem_migration_flags {
        v.cl_value()
    }
}

impl From<&MemMigrationFlags> for cl_mem_migration_flags {
    fn from(value: &MemMigrationFlags) -> (v: cl_mem_migration_flags)
        ensures
            v == value.cl_value(),
    {
        cl_mem_migration_flags::from(*value)
    }
}

impl FromSpecImpl<&MemMigrationFlags> for cl_mem_migration_flags {
    open spec fn obeys_from_spec() -> bool {
        true
    }

    open spec fn from_spec(v: &MemMigrationFlags) -> cl_mem_migration_flags {
        v.cl_value()
    }
}

/// Every variant has its own OpenCL value, and reading that value back gives the variant.
pub proof fn lemma_mem_migration_flags_round_trip(e: MemMigrationFlags)
    ensures
        MemMigrationFlags::is_cl_value(e.cl_value()),
        MemMigrationFlags::from_cl_value_spec(e.cl_value()) == e,
{
}

/// The type of a memory object.
#[allow(non_camel_case_types)]
#[derive(Debug, Clone, Copy, PartialEq, Eq, PartialOrd, Hash, Structural)]
pub enum MemObjectType {
    Buffer,
    Image2D,
    Image3D,
    Image2DArray,
    Image1D,
    Image1DArray,
    Image1DBuffer,
    Pipe,
}

impl MemObjectType {
    /// The `cl_mem_object_type` value that OpenCL uses for this variant.
    pub open spec fn cl_value(self) -> cl_mem_object_type {
        match self {
            MemObjectType::Buffer => 4336u32,
            MemObjectType::Image2D => 4337u32,
            MemObjectType::Image3D => 4338u32,
            MemObjectType::Image2DArray => 4339u32,
            MemObjectType::Image1D => 4340u32,
            MemObjectType::Image1DArray => 4341u32,
            MemObjectType::Image1DBuffer => 4342u32,
            MemObjectType::Pipe => 4343u32,
        }
    }

    /// Whether OpenCL uses the value for one of the variants.
    pub open spec fn is_cl_value(value: cl_mem_object_type) -> bool {
        value == 4336u32 || value == 4337u32 || value == 4338u32 || value == 4339u32 || value == 4340u32 || value == 4341u32 || value == 4342u32 || value == 4343u32
    }

    /// The variant for which OpenCL uses the value.
    pub open spec fn from_cl_value_spec(value: cl_mem_object_type) -> MemObjectType {
        if value == 4336u32 {
            MemObjectType::Buffer
        } else if value == 4337u32 {
            MemObjectType::Image2D
        } else if value == 4338u32 {
            MemObjectType::Image3D
        } else if value == 4339u32 {
            MemObjectType::Image2DArray
        } else if value == 4340u32 {
            MemObjectType::Image1D
        } else if value == 4341u32 {
            MemObjectType::Image1DArray
        } else if value == 4342u32 {
            MemObjectType::Image1DBuffer
        } else {
            MemObjectType::Pipe
        }
    }

    /// The variant for which OpenCL uses the value. Any other value stops the program.
    #[verifier::spinoff_prover]
    pub fn from_cl_value(value: cl_mem_object_type) -> (e: MemObjectType)
        requires
            MemObjectType::is_cl_value(value),
        ensures
            e.cl_value() == value,
            e == MemObjectType::from_cl_value_spec(value),
    {
        match value {
            4336u32 => MemObjectType::Buffer,
            4337u32 => MemObjectType::Image2D,
            4338u32 => MemObjectType::Image3D,
            4339u32 => MemObjectType::Image2DArray,
            4340u32 => MemObjectType::Image1D,
            4341u32 => MemObjectType::Image1DArray,
            4342u32 => MemObjectType::Image1DBuffer,
            4343u32 => MemObjectType::Pipe,
            _ => {
                proof {
                    assert(false);
                }
                MemObjectType::Buffer
            },
        }
    }

    /// The variant for which OpenCL uses the value, or `None` when OpenCL uses the value
    /// for none of the variants.
    #[verifier::spinoff_prover]
    pub fn try_from_cl_value(value: cl_mem_object_type) -> (r: Option<MemObjectType>)
        ensures
            r is Some <==> MemObjectType::is_cl_value(value),
            r matches Some(e) ==> e == MemObjectType::from_cl_value_spec(value) && e.cl_value() == value,
    {
        match value {
            4336u32 => Some(MemObjectType::Buffer),
            4337u32 => Some(MemObjectType::Image2D),
            4338u32 => Some(MemObjectType::Image3D),
            4339u32 => Some(MemObjectType::Image2DArray),
            4340u32 => Some(MemObjectType::Image1D),
            4341u32 => Some(MemObjectType::Image1DArray),
            4342u32 => Some(MemObjectType::Image1DBuffer),
            4343u32 => Some(MemObjectType::Pipe),
            _ => None,
        }
    }
}

impl From<MemObjectType> for cl_mem_object_type {
    fn from(value: MemObjectType) -> (v: cl_mem_object_type)
        ensures
            v == value.cl_value(),
    {
        match value {
            MemObjectType::Buffer => 4336u32,
            MemObjectType::Image2D => 4337u32,
            MemObjectType::Image3D => 4338u32,
            MemObjectType::Image2DArray => 4339u32,
            MemObjectType::Image1D => 4340u32,
            MemObjectType::Image1DArray => 4341u32,
            MemObjectType::Image1DBuffer => 4342u32,
            MemObjectType::Pipe => 4343u32,
        }
    }
}

impl FromSpecImpl<MemObjectType> for cl_mem_object_type {
    open spec fn obeys_from_spec() -> bool {
        true
    }

    open spec fn from_spec(v: MemObjectType) -> cl_mem_object_type {
        v.cl_value()
    }
}

impl From<&MemObjectType> for cl_mem_object_type {
    fn from(value: &MemObjectType) -> (v: cl_mem_object_type)
        ensures
            v == value.cl_value(),
    {
        cl_mem_object_type::from(*value)
    }
}

impl FromSpecImpl<&MemObjectType> for cl_mem_object_type {
    open spec fn obeys_from_spec() -> bool {
        true
    }

    open spec fn from_spec(v: &MemObjectType) -> cl_mem_object_type {
        v.cl_value()
    }
}

/// Every variant has its own OpenCL value, and reading that value back gives the variant.
pub proof fn lemma_mem_object_type_round_trip(e: MemObjectType)
    ensures
        MemObjectType::is_cl_value(e.cl_value()),
        MemObjectType::from_cl_value_spec(e.cl_value()) == e,
{
}

/// The memory object information that OpenCL can be asked for.
#[allow(non_camel_case_types)]
#[derive(Debug, Clone, Copy, PartialEq, Eq, PartialOrd, Hash, Structural)]
pub enum MemInfo {
    Type,
    Flags,
    Size,
    HostPtr,
    MapCount,
    ReferenceCount,
    Context,
    AssociatedMemobject,
    Offset,
}

impl MemInfo {
    /// The `cl_mem_info` value that OpenCL uses for this variant.
    pub open spec fn cl_value(self) -> cl_mem_info {
        match self {
            MemInfo::Type => 4352u32,
            MemInfo::Flags => 4353u32,
            MemInfo::Size => 4354u32,
            MemInfo::HostPtr => 4355u32,
            MemInfo::MapCount => 4356u32,
            MemInfo::ReferenceCount => 4357u32,
            MemInfo::Context => 4358u32,
            MemInfo::AssociatedMemobject => 4359u32,
            MemInfo::Offset => 4360u32,
        }
    }

    /// Whether OpenCL uses the value for one of the variants.
    pub open spec fn is_cl_value(value: cl_mem_info) -> bool {
        value == 4352u32 || value == 4353u32 || value == 4354u32 || value == 4355u32 || value == 4356u32 || value == 4357u32 || value == 4358u32 || value == 4359u32 || value == 4360u32
    }

    /// The variant for which OpenCL uses the value.
    pub open spec fn from_cl_value_spec(value: cl_mem_info) -> MemInfo {
        if value == 4352u32 {
            MemInfo::Type
        } else if value == 4353u32 {
            MemInfo::Flags
        } else if value == 4354u32 {
            MemInfo::Size
        } else if value == 4355u32 {
            MemInfo::HostPtr
        } else if value == 4356u32 {
            MemInfo::MapCount
        } else if value == 4357u32 {
            MemInfo::ReferenceCount
        } else if value == 4358u32 {
            MemInfo::Context
        } else if value == 4359u32 {
            MemInfo::AssociatedMemobject
        } else {
            MemInfo::Offset
        }
    }

    /// The variant for which OpenCL uses the value. Any other value stops the program.
    #[verifier::spinoff_prover]
    pub fn from_cl_value(value: cl_mem_info) -> (e: MemInfo)
        requires
            MemInfo::is_cl_value(value),
        ensures
            e.cl_value() == value,
            e == MemInfo::from_cl_value_spec(value),
    {
        match value {
            4352u32 => MemInfo::Type,
            4353u32 => MemInfo::Flags,
            4354u32 => MemInfo::Size,
            4355u32 => MemInfo::HostPtr,
            4356u32 => MemInfo::MapCount,
            4357u32 => MemInfo::ReferenceCount,
            4358u32 => MemInfo::Context,
            4359u32 => MemInfo::AssociatedMemobject,
            4360u32 => MemInfo::Offset,
            _ => {
                proof {
                    assert(false);
                }
                MemInfo::Type
            },
        }
    }

    /// The variant for which OpenCL uses the value, or `None` when OpenCL uses the value
    /// for none of the variants.
    #[verifier::spinoff_prover]
    pub fn try_from_cl_value(value: cl_mem_info) -> (r: Option<MemInfo>)
        ensures
            r is Some <==> MemInfo::is_cl_value(value),
            r matches Some(e) ==> e == MemInfo::from_cl_value_spec(value) && e.cl_value() == value,
    {
        match value {
            4352u32 => Some(MemInfo::Type),
            4353u32 => Some(MemInfo::Flags),
            4354u32 => Some(MemInfo::Size),
            4355u32 => Some(MemInfo::HostPtr),
            4356u32 => Some(MemInfo::MapCount),
            4357u32 => Some(MemInfo::ReferenceCount),
            4358u32 => Some(MemInfo::Context),
            4359u32 => Some(MemInfo::AssociatedMemobject),
            4360u32 => Some(MemInfo::Offset),
            _ => None,
        }
    }
}

impl From<MemInfo> for cl_mem_info {
    fn from(value: MemInfo) -> (v: cl_mem_info)
        ensures
            v == value.cl_value(),
    {
        match value {
            MemInfo::Type => 4352u32,
            MemInfo::Flags => 4353u32,
            MemInfo::Size => 4354u32,
            MemInfo::HostPtr => 4355u32,
            MemInfo::MapCount => 4356u32,
            MemInfo::ReferenceCount => 4357u32,
            MemInfo::Context => 4358u32,
            MemInfo::AssociatedMemobject => 4359u32,
            MemInfo::Offset => 4360u32,
        }
    }
}

impl FromSpecImpl<MemInfo> for cl_mem_info {
    open spec fn obeys_from_spec() -> bool {
        true
    }

    open spec fn from_spec(v: MemInfo) -> cl_mem_info {
        v.cl_value()
    }
}

impl From<&MemInfo> for cl_mem_info {
    fn from(value: &MemInfo) -> (v: cl_mem_info)
        ensures
            v == value.cl_value(),
    {
        cl_mem_info::from(*value)
    }
}

impl FromSpecImpl<&MemInfo> for cl_mem_info {
    open spec fn obeys_from_spec() -> bool {
        true
    }

    open spec fn from_spec(v: &MemInfo) -> cl_mem_info {
        v.cl_value()
    }
}

/// Every variant has its own OpenCL value, and reading that value back gives the variant.
pub proof fn lemma_mem_info_round_trip(e: MemInfo)
    ensures
        MemInfo::is_cl_value(e.cl_value()),
        MemInfo::from_cl_value_spec(e.cl_value()) == e,
{
}

/// How a sub-buffer is created.
#[allow(non_camel_case_types)]
#[derive(Debug, Clone, Copy, PartialEq, Eq, PartialOrd, Hash, Structural)]
pub enum BufferCreateType {
    CreateTypeRegion,
}

impl BufferCreateType {
    /// The `cl_buffer_create_type` value that OpenCL uses for this variant.
    pub open spec fn cl_value(self) -> cl_buffer_create_type {
        match self {
            BufferCreateType::CreateTypeRegion => 4640u32,
        }
    }

    /// Whether OpenCL uses the value for one of the variants.
    pub open spec fn is_cl_value(value: cl_buffer_create_type) -> bool {
        value == 4640u32
    }

    /// The variant for which OpenCL uses the value.
    pub open spec fn from_cl_value_spec(value: cl_buffer_create_type) -> BufferCreateType {
        BufferCreateType::CreateTypeRegion
    }

    /// The variant for which OpenCL uses the value. Any other value stops the program.
    #[verifier::spinoff_prover]
    pub fn from_cl_value(value: cl_buffer_create_type) -> (e: BufferCreateType)
        requires
            BufferCreateType::is_cl_value(value),
        ensures
            e.cl_value() == value,
            e == BufferCreateType::from_cl_value_spec(value),
    {
        match value {
            4640u32 => BufferCreateType::CreateTypeRegion,
            _ => {
                proof {
                    assert(false);
                }
                BufferCreateType::CreateTypeRegion
            },
        }
    }

    /// The variant for which OpenCL uses the value, or `None` when OpenCL uses the value
    /// for none of the variants.
    #[verifier::spinoff_prover]
    pub fn try_from_cl_value(value: cl_buffer_create_type) -> (r: Option<BufferCreateType>)
        ensures
            r is Some <==> BufferCreateType::is_cl_value(value),
            r matches Some(e) ==> e == BufferCreateType::from_cl_value_spec(value) && e.cl_value() == value,
    {
        match value {
            4640u32 => Some(BufferCreateType::CreateTypeRegion),
            _ => None,
        }
    }
}

impl From<BufferCreateType> for cl_buffer_create_type {
    fn from(value: BufferCreateType) -> (v: cl_buffer_create_type)
        ensures
            v == value.cl_value(),
    {
        match value {
            BufferCreateType::CreateTypeRegion => 4640u32,
        }
    }
}

impl FromSpecImpl<BufferCreateType> for cl_buffer_create_type {
    open spec fn obeys_from_spec() -> bool {
        true
    }

    open spec fn from_spec(v: BufferCreateType) -> cl_buffer_create_type {
        v.cl_value()
    }
}

impl From<&BufferCreateType> for cl_buffer_create_type {
    fn from(value: &BufferCreateType) -> (v: cl_buffer_create_type)
        ensures
            v == value.cl_value(),
    {
        cl_buffer_create_type::from(*value)
    }
}

impl FromSpecImpl<&BufferCreateType> for cl_buffer_create_type {
    open spec fn obeys_from_spec() -> bool {
        true
    }

    open spec fn from_spec(v: &BufferCreateType) -> cl_buffer_create_type {
        v.cl_value()
    }
}

/// Every variant has its own OpenCL value, and reading that value back gives the variant.
pub proof fn lemma_buffer_create_type_round_trip(e: BufferCreateType)
    ensures
        BufferCreateType::is_cl_value(e.cl_value()),
        BufferCreateType::from_cl_value_spec(e.cl_value()) == e,
{
}

/// The kernel information that OpenCL can be asked for.
#[allow(non_camel_case_types)]
#[derive(Debug, Clone, Copy, PartialEq, Eq, PartialOrd, Hash, Structural)]
pub enum KernelInfo {
    FunctionName,
    NumArgs,
    ReferenceCount,
    Context,
    Program,
    Attributes,
}

impl KernelInfo {
    /// The `cl_kernel_info` value that OpenCL uses for this variant.
    pub open spec fn cl_value(self) -> cl_kernel_info {
        match self {
            KernelInfo::FunctionName => 4496u32,
            KernelInfo::NumArgs => 4497u32,
            KernelInfo::ReferenceCount => 4498u32,
            KernelInfo::Context => 4499u32,
            KernelInfo::Program => 4500u32,
            KernelInfo::Attributes => 4501u32,
        }
    }

    /// Whether OpenCL uses the value for one of the variants.
    pub open spec fn is_cl_value(value: cl_kernel_info) -> bool {
        value == 4496u32 || value == 4497u32 || value == 4498u32 || value == 4499u32 || value == 4500u32 || value == 4501u32
    }

    /// The variant for which OpenCL uses the value.
    pub open spec fn from_cl_value_spec(value: cl_kernel_info) -> KernelInfo {
        if value == 4496u32 {
            KernelInfo::FunctionName
        } else if value == 4497u32 {
            KernelInfo::NumArgs
        } else if value == 4498u32 {
            KernelInfo::ReferenceCount
        } else if value == 4499u32 {
            KernelInfo::Context
        } else if value == 4500u32 {
            KernelInfo::Program
        } else {
            KernelInfo::Attributes
        }
    }

    /// The variant for which OpenCL uses the value. Any other value stops the program.
    #[verifier::spinoff_prover]
    pub fn from_cl_value(value: cl_kernel_info) -> (e: KernelInfo)
        requires
            KernelInfo::is_cl_value(value),
        ensures
            e.cl_value() == value,
            e == KernelInfo::from_cl_value_spec(value),
    {
        match value {
            4496u32 => KernelInfo::FunctionName,
            4497u32 => KernelInfo::NumArgs,
            4498u32 => KernelInfo::ReferenceCount,
            4499u32 => KernelInfo::Context,
            4500u32 => KernelInfo::Program,
            4501u32 => KernelInfo::Attributes,
            _ => {
                proof {
                    assert(false);
                }
                KernelInfo::FunctionName
            },
        }
    }

    /// The variant for which OpenCL uses the value, or `None` when OpenCL uses the value
    /// for none of the variants.
    #[verifier::spinoff_prover]
    pub fn try_from_cl_value(value: cl_kernel_info) -> (r: Option<KernelInfo>)
        ensures
            r is Some <==> KernelInfo::is_cl_value(value),
            r matches Some(e) ==> e == KernelInfo::from_cl_value_spec(value) && e.cl_value() == value,
    {
        match value {
            4496u32 => Some(KernelInfo::FunctionName),
            4497u32 => Some(KernelInfo::NumArgs),
            4498u32 => Some(KernelInfo::ReferenceCount),
            4499u32 => Some(KernelInfo::Context),
            4500u32 => Some(KernelInfo::Program),
            4501u32 => Some(KernelInfo::Attributes),
            _ => None,
        }
    }
}

impl From<KernelInfo> for cl_kernel_info {
    fn from(value: KernelInfo) -> (v: cl_kernel_info)
        ensures
            v == value.cl_value(),
    {
        match value {
            KernelInfo::FunctionName => 4496u32,
            KernelInfo::NumArgs => 4497u32,
            KernelInfo::ReferenceCount => 4498u32,
            KernelInfo::Context => 4499u32,
            KernelInfo::Program => 4500u32,
            KernelInfo::Attributes => 4501u32,
        }
    }
}

impl FromSpecImpl<KernelInfo> for cl_kernel_info {
    open spec fn obeys_from_spec() -> bool {
        true
    }

    open spec fn from_spec(v: KernelInfo) -> cl_kernel_info {
        v.cl_value()
    }
}

impl From<&KernelInfo> for cl_kernel_info {
    fn from(value: &KernelInfo) -> (v: cl_kernel_info)
        ensures
            v == value.cl_value(),
    {
        cl_kernel_info::from(*value)
    }
}

impl FromSpecImpl<&KernelInfo> for cl_kernel_info {
    open spec fn obeys_from_spec() -> bool {
        true
    }

    open spec fn from_spec(v: &KernelInfo) -> cl_kernel_info {
        v.cl_value()
    }
}

/// Every variant has its own OpenCL value, and reading that value back gives the variant.
pub proof fn lemma_kernel_info_round_trip(e: KernelInfo)
    ensures
        KernelInfo::is_cl_value(e.cl_value()),
        KernelInfo::from_cl_value_spec(e.cl_value()) == e,
{
}

/// The kernel work group information that OpenCL can be asked for.
#[allow(non_camel_case_types)]
#[derive(Debug, Clone, Copy, PartialEq, Eq, PartialOrd, Hash, Structural)]
pub enum KernelWorkGroupInfo {
    WorkGroupSize,
    CompileWorkGroupSize,
    LocalMemSize,
    PreferredWorkGroupSizeMultiple,
    PrivateMemSize,
    GlobalWorkSize,
}

impl KernelWorkGroupInfo {
    /// The `cl_kernel_work_group_info` value that OpenCL uses for this variant.
    pub open spec fn cl_value(self) -> cl_kernel_work_group_info {
        match self {
            KernelWorkGroupInfo::WorkGroupSize => 4528u32,
            KernelWorkGroupInfo::CompileWorkGroupSize => 4529u32,
            KernelWorkGroupInfo::LocalMemSize => 4530u32,
            KernelWorkGroupInfo::PreferredWorkGroupSizeMultiple => 4531u32,
            KernelWorkGroupInfo::PrivateMemSize => 4532u32,
            KernelWorkGroupInfo::GlobalWorkSize => 4533u32,
        }
    }

    /// Whether OpenCL uses the value for one of the variants.
    pub open spec fn is_cl_value(value: cl_kernel_work_group_info) -> bool {
        value == 4528u32 || value == 4529u32 || value == 4530u32 || value == 4531u32 || value == 4532u32 || value == 4533u32
    }

    /// The variant for which OpenCL uses the value.
    pub open spec fn from_cl_value_spec(value: cl_kernel_work_group_info) -> KernelWorkGroupInfo {
        if value == 4528u32 {
            KernelWorkGroupInfo::WorkGroupSize
        } else if value == 4529u32 {
            KernelWorkGroupInfo::CompileWorkGroupSize
        } else if value == 4530u32 {
            KernelWorkGroupInfo::LocalMemSize
        } else if value == 4531u32 {
            KernelWorkGroupInfo::PreferredWorkGroupSizeMultiple
        } else if value == 4532u32 {
            KernelWorkGroupInfo::PrivateMemSize
        } else {
            KernelWorkGroupInfo::GlobalWorkSize
        }
    }

    /// The variant for which OpenCL uses the value. Any other value stops the program.
    #[verifier::spinoff_prover]
    pub fn from_cl_value(value: cl_kernel_work_group_info) -> (e: KernelWorkGroupInfo)
        requires
            KernelWorkGroupInfo::is_cl_value(value),
        ensures
            e.cl_value() == value,
            e == KernelWorkGroupInfo::from_cl_value_spec(value),
    {
        match value {
            4528u32 => KernelWorkGroupInfo::WorkGroupSize,
            4529u32 => KernelWorkGroupInfo::CompileWorkGroupSize,
            4530u32 => KernelWorkGroupInfo::LocalMemSize,
            4531u32 => KernelWorkGroupInfo::PreferredWorkGroupSizeMultiple,
            4532u32 => KernelWorkGroupInfo::PrivateMemSize,
            4533u32 => KernelWorkGroupInfo::GlobalWorkSize,
            _ => {
                proof {
                    assert(false);
                }
                KernelWorkGroupInfo::WorkGroupSize
            },
        }
    }

    /// The variant for which OpenCL uses the value, or `None` when OpenCL uses the value
    /// for none of the variants.
    #[verifier::spinoff_prover]
    pub fn try_from_cl_value(value: cl_kernel_work_group_info) -> (r: Option<KernelWorkGroupInfo>)
        ensures
            r is Some <==> KernelWorkGroupInfo::is_cl_value(value),
            r matches Some(e) ==> e == KernelWorkGroupInfo::from_cl_value_spec(value) && e.cl_value() == value,
    {
        match value {
            4528u32 => Some(KernelWorkGroupInfo::WorkGroupSize),
            4529u32 => Some(KernelWorkGroupInfo::CompileWorkGroupSize),
            4530u32 => Some(KernelWorkGroupInfo::LocalMemSize),
            4531u32 => Some(KernelWorkGroupInfo::PreferredWorkGroupSizeMultiple),
            4532u32 => Some(KernelWorkGroupInfo::PrivateMemSize),
            4533u32 => Some(KernelWorkGroupInfo::GlobalWorkSize),
            _ => None,
        }
    }
}

impl From<KernelWorkGroupInfo> for cl_kernel_work_group_info {
    fn from(value: KernelWorkGroupInfo) -> (v: cl_kernel_work_group_info)
        ensures
            v == value.cl_value(),
    {
        match value {
            KernelWorkGroupInfo::WorkGroupSize => 4528u32,
            KernelWorkGroupInfo::CompileWorkGroupSize => 4529u32,
            KernelWorkGroupInfo::LocalMemSize => 4530u32,
            KernelWorkGroupInfo::PreferredWorkGroupSizeMultiple => 4531u32,
            KernelWorkGroupInfo::PrivateMemSize => 4532u32,
            KernelWorkGroupInfo::GlobalWorkSize => 4533u32,
        }
    }
}

impl FromSpecImpl<KernelWorkGroupInfo> for cl_kernel_work_group_info {
    open spec fn obeys_from_spec() -> bool {
        true
    }

    open spec fn from_spec(v: KernelWorkGroupInfo) -> cl_kernel_work_group_info {
        v.cl_value()
    }
}

impl From<&KernelWorkGroupInfo> for cl_kernel_work_group_info {
    fn from(value: &KernelWorkGroupInfo) -> (v: cl_kernel_work_group_info)
        ensures
            v == value.cl_value(),
    {
        cl_kernel_work_group_info::from(*value)
    }
}

impl FromSpecImpl<&KernelWorkGroupInfo> for cl_kernel_work_group_info {
    open spec fn obeys_from_spec() -> bool {
        true
    }

    open spec fn from_spec(v: &KernelWorkGroupInfo) -> cl_kernel_work_group_info {
        v.cl_value()
    }
}

/// Every variant has its own OpenCL value, and reading that value back gives the variant.
pub proof fn lemma_kernel_work_group_info_round_trip(e: KernelWorkGroupInfo)
    ensures
        KernelWorkGroupInfo::is_cl_value(e.cl_value()),
        KernelWorkGroupInfo::from_cl_value_spec(e.cl_value()) == e,
{
}

/// The access qualifier of a kernel argument.
#[allow(non_camel_case_types)]
#[derive(Debug, Clone, Copy, PartialEq, Eq, PartialOrd, Hash, Structural)]
pub enum KernelArgAccessQualifier {
    ReadOnly,
    WriteOnly,
    ReadWrite,
    NoneType,
}

impl KernelArgAccessQualifier {
    /// The `cl_kernel_arg_access_qualifier` value that OpenCL uses for this variant.
    pub open spec fn cl_value(self) -> cl_kernel_arg_access_qualifier {
        match self {
            KernelArgAccessQualifier::ReadOnly => 4512u32,
            KernelArgAccessQualifier::WriteOnly => 4513u32,
            KernelArgAccessQualifier::ReadWrite => 4514u32,
            KernelArgAccessQualifier::NoneType => 4515u32,
        }
    }

    /// Whether OpenCL uses the value for one of the variants.
    pub open spec fn is_cl_value(value: cl_kernel_arg_access_qualifier) -> bool {
        value == 4512u32 || value == 4513u32 || value == 4514u32 || value == 4515u32
    }

    /// The variant for which OpenCL uses the value.
    pub open spec fn from_cl_value_spec(value: cl_kernel_arg_access_qualifier) -> KernelArgAccessQualifier {
        if value == 4512u32 {
            KernelArgAccessQualifier::ReadOnly
        } else if value == 4513u32 {
            KernelArgAccessQualifier::WriteOnly
        } else if value == 4514u32 {
            KernelArgAccessQualifier::ReadWrite
        } else {
            KernelArgAccessQualifier::NoneType
        }
    }

    /// The variant for which OpenCL uses the value. Any other value stops the program.
    #[verifier::spinoff_prover]
    pub fn from_cl_value(value: cl_kernel_arg_access_qualifier) -> (e: KernelArgAccessQualifier)
        requires
            KernelArgAccessQualifier::is_cl_value(value),
        ensures
            e.cl_value() == value,
            e == KernelArgAccessQualifier::from_cl_value_spec(value),
    {
        match value {
            4512u32 => KernelArgAccessQualifier::ReadOnly,
            4513u32 => KernelArgAccessQualifier::WriteOnly,
            4514u32 => KernelArgAccessQualifier::ReadWrite,
            4515u32 => KernelArgAccessQualifier::NoneType,
            _ => {
                proof {
                    assert(false);
                }
                KernelArgAccessQualifier::ReadOnly
            },
        }
    }

    /// The variant for which OpenCL uses the value, or `None` when OpenCL uses the value
    /// for none of the variants.
    #[verifier::spinoff_prover]
    pub fn try_from_cl_value(value: cl_kernel_arg_access_qualifier) -> (r: Option<KernelArgAccessQualifier>)
        ensures
            r is Some <==> KernelArgAccessQualifier::is_cl_value(value),
            r matches Some(e) ==> e == KernelArgAccessQualifier::from_cl_value_spec(value) && e.cl_value() == value,
    {
        match value {
            4512u32 => Some(KernelArgAccessQualifier::ReadOnly),
            4513u32 => Some(KernelArgAccessQualifier::WriteOnly),
            4514u32 => Some(KernelArgAccessQualifier::ReadWrite),
            4515u32 => Some(KernelArgAccessQualifier::NoneType),
            _ => None,
        }
    }
}

impl From<KernelArgAccessQualifier> for cl_kernel_arg_access_qualifier {
    fn from(value: KernelArgAccessQualifier) -> (v: cl_kernel_arg_access_qualifier)
        ensures
            v == value.cl_value(),
    {
        match value {
            KernelArgAccessQualifier::ReadOnly => 4512u32,
            KernelArgAccessQualifier::WriteOnly => 4513u32,
            KernelArgAccessQualifier::ReadWrite => 4514u32,
            KernelArgAccessQualifier::NoneType => 4515u32,
        }
    }
}

impl FromSpecImpl<KernelArgAccessQualifier> for cl_kernel_arg_access_qualifier {
    open spec fn obeys_from_spec() -> bool {
        true
    }

    open spec fn from_spec(v: KernelArgAccessQualifier) -> cl_kernel_arg_access_qualifier {
        v.cl_value()
    }
}

impl From<&KernelArgAccessQualifier> for cl_kernel_arg_access_qualifier {
    fn from(value: &KernelArgAccessQualifier) -> (v: cl_kernel_arg_access_qualifier)
        ensures
            v == value.cl_value(),
    {
        cl_kernel_arg_access_qualifier::from(*value)
    }
}

impl FromSpecImpl<&KernelArgAccessQualifier> for cl_kernel_arg_access_qualifier {
    open spec fn obeys_from_spec() -> bool {
        true
    }

    open spec fn from_spec(v: &KernelArgAccessQualifier) -> cl_kernel_arg_access_qualifier {
        v.cl_value()
    }
}

/// Every variant has its own OpenCL value, and reading that value back gives the variant.
pub proof fn lemma_kernel_arg_access_qualifier_round_trip(e: KernelArgAccessQualifier)
    ensures
        KernelArgAccessQualifier::is_cl_value(e.cl_value()),
        KernelArgAccessQualifier::from_cl_value_spec(e.cl_value()) == e,
{
}

/// The type qualifier of a kernel argument.
#[allow(non_camel_case_types)]
#[derive(Debug, Clone, Copy, PartialEq, Eq, PartialOrd, Hash, Structural)]
pub enum KernelArgTypeQualifier {
    NoneType,
    Const,
    Restrict,
    Volatile,
    Pipe,
}

impl KernelArgTypeQualifier {
    /// The `cl_kernel_arg_type_qualifier` value that OpenCL uses for this variant.
    pub open spec fn cl_value(self) -> cl_kernel_arg_type_qualifier {
        match self {
            KernelArgTypeQualifier::NoneType => 0u32,
            KernelArgTypeQualifier::Const => 1u32,
            KernelArgTypeQualifier::Restrict => 2u32,
            KernelArgTypeQualifier::Volatile => 4u32,
            KernelArgTypeQualifier::Pipe => 8u32,
        }
    }

    /// Whether OpenCL uses the value for one of the variants.
    pub open spec fn is_cl_value(value: cl_kernel_arg_type_qualifier) -> bool {
        value == 0u32 || value == 1u32 || value == 2u32 || value == 4u32 || value == 8u32
    }

    /// The variant for which OpenCL uses the value.
    pub open spec fn from_cl_value_spec(value: cl_kernel_arg_type_qualifier) -> KernelArgTypeQualifier {
        if value == 0u32 {
            KernelArgTypeQualifier::NoneType
        } else if value == 1u32 {
            KernelArgTypeQualifier::Const
        } else if value == 2u32 {
            KernelArgTypeQualifier::Restrict
        } else if value == 4u32 {
            KernelArgTypeQualifier::Volatile
        } else {
            KernelArgTypeQualifier::Pipe
        }
    }

    /// The variant for which OpenCL uses the value. Any other value stops the program.
    #[verifier::spinoff_prover]
    pub fn from_cl_value(value: cl_kernel_arg_type_qualifier) -> (e: KernelArgTypeQualifier)
        requires
            KernelArgTypeQualifier::is_cl_value(value),
        ensures
            e.cl_value() == value,
            e == KernelArgTypeQualifier::from_cl_value_spec(value),
    {
        match value {
            0u32 => KernelArgTypeQualifier::NoneType,
            1u32 => KernelArgTypeQualifier::Const,
            2u32 => KernelArgTypeQualifier::Restrict,
            4u32 => KernelArgTypeQualifier::Volatile,
            8u32 => KernelArgTypeQualifier::Pipe,
            _ => {
                proof {
                    assert(false);
                }
                KernelArgTypeQualifier::NoneType
            },
        }
    }

    /// The variant for which OpenCL uses the value, or `None` when OpenCL uses the value
    /// for none of the variants.
    #[verifier::spinoff_prover]
    pub fn try_from_cl_value(value: cl_kernel_arg_type_qualifier) -> (r: Option<KernelArgTypeQualifier>)
        ensures
            r is Some <==> KernelArgTypeQualifier::is_cl_value(value),
            r matches Some(e) ==> e == KernelArgTypeQualifier::from_cl_value_spec(value) && e.cl_value() == value,
    {
        match value {
            0u32 => Some(KernelArgTypeQualifier::NoneType),
            1u32 => Some(KernelArgTypeQualifier::Const),
            2u32 => Some(KernelArgTypeQualifier::Restrict),
            4u32 => Some(KernelArgTypeQualifier::Volatile),
            8u32 => Some(KernelArgTypeQualifier::Pipe),
            _ => None,
        }
    }
}

impl From<KernelArgTypeQualifier> for cl_kernel_arg_type_qualifier {
    fn from(value: KernelArgTypeQualifier) -> (v: cl_kernel_arg_type_qualifier)
        ensures
            v == value.cl_value(),
    {
        match value {
            KernelArgTypeQualifier::NoneType => 0u32,
            KernelArgTypeQualifier::Const => 1u32,
            KernelArgTypeQualifier::Restrict => 2u32,
            KernelArgTypeQualifier::Volatile => 4u32,
            KernelArgTypeQualifier::Pipe => 8u32,
        }
    }
}

impl FromSpecImpl<KernelArgTypeQualifier> for cl_kernel_arg_type_qualifier {
    open spec fn obeys_from_spec() -> bool {
        true
    }

    open spec fn from_spec(v: KernelArgTypeQualifier) -> cl_kernel_arg_type_qualifier {
        v.cl_value()
    }
}

impl From<&KernelArgTypeQualifier> for cl_kernel_arg_type_qualifier {
    fn from(value: &KernelArgTypeQualifier) -> (v: cl_kernel_arg_type_qualifier)
        ensures
            v == value.cl_value(),
    {
        cl_kernel_arg_type_qualifier::from(*value)
    }
}

impl FromSpecImpl<&KernelArgTypeQualifier> for cl_kernel_arg_type_qualifier {
    open spec fn obeys_from_spec() -> bool {
        true
    }

    open spec fn from_spec(v: &KernelArgTypeQualifier) -> cl_kernel_arg_type_qualifier {
        v.cl_value()
    }
}

/// Every variant has its own OpenCL value, and reading that value back gives the variant.
pub proof fn lemma_kernel_arg_type_qualifier_round_trip(e: KernelArgTypeQualifier)
    ensures
        KernelArgTypeQualifier::is_cl_value(e.cl_value()),
        KernelArgTypeQualifier::from_cl_value_spec(e.cl_value()) == e,
{
}

/// The address qualifier of a kernel argument.
#[allow(non_camel_case_types)]
#[derive(Debug, Clone, Copy, PartialEq, Eq, PartialOrd, Hash, Structural)]
pub enum KernelArgAddressQualifier {
    Global,
    Local,
    Constant,
    Private,
}

impl KernelArgAddressQualifier {
    /// The `cl_kernel_arg_address_qualifier` value that OpenCL uses for this variant.
    pub open spec fn cl_value(self) -> cl_kernel_arg_address_qualifier {
        match self {
            KernelArgAddressQualifier::Global => 4507u32,
            KernelArgAddressQualifier::Local => 4508u32,
            KernelArgAddressQualifier::Constant => 4509u32,
            KernelArgAddressQualifier::Private => 4510u32,
        }
    }

    /// Whether OpenCL uses the value for one of the variants.
    pub open spec fn is_cl_value(value: cl_kernel_arg_address_qualifier) -> bool {
        value == 4507u32 || value == 4508u32 || value == 4509u32 || value == 4510u32
    }

    /// The variant for which OpenCL uses the value.
    pub open spec fn from_cl_value_spec(value: cl_kernel_arg_address_qualifier) -> KernelArgAddressQualifier {
        if value == 4507u32 {
            KernelArgAddressQualifier::Global
        } else if value == 4508u32 {
            KernelArgAddressQualifier::Local
        } else if value == 4509u32 {
            KernelArgAddressQualifier::Constant
        } else {
            KernelArgAddressQualifier::Private
        }
    }

    /// The variant for which OpenCL uses the value. Any other value stops the program.
    #[verifier::spinoff_prover]
    pub fn from_cl_value(value: cl_kernel_arg_address_qualifier) -> (e: KernelArgAddressQualifier)
        requires
            KernelArgAddressQualifier::is_cl_value(value),
        ensures
            e.cl_value() == value,
            e == KernelArgAddressQualifier::from_cl_value_spec(value),
    {
        match value {
            4507u32 => KernelArgAddressQualifier::Global,
            4508u32 => KernelArgAddressQualifier::Local,
            4509u32 => KernelArgAddressQualifier::Constant,
            4510u32 => KernelArgAddressQualifier::Private,
            _ => {
                proof {
                    assert(false);
                }
                KernelArgAddressQualifier::Global
            },
        }
    }

    /// The variant for which OpenCL uses the value, or `None` when OpenCL uses the value
    /// for none of the variants.
    #[verifier::spinoff_prover]
    pub fn try_from_cl_value(value: cl_kernel_arg_address_qualifier) -> (r: Option<KernelArgAddressQualifier>)
        ensures
            r is Some <==> KernelArgAddressQualifier::is_cl_value(value),
            r matches Some(e) ==> e == KernelArgAddressQualifier::from_cl_value_spec(value) && e.cl_value() == value,
    {
        match value {
            4507u32 => Some(KernelArgAddressQualifier::Global),
            4508u32 => Some(KernelArgAddressQualifier::Local),
            4509u32 => Some(KernelArgAddressQualifier::Constant),
            4510u32 => Some(KernelArgAddressQualifier::Private),
            _ => None,
        }
    }
}

impl From<KernelArgAddressQualifier> for cl_kernel_arg_address_qualifier {
    fn from(value: KernelArgAddressQualifier) -> (v: cl_kernel_arg_address_qualifier)
        ensures
            v == value.cl_value(),
    {
        match value {
            KernelArgAddressQualifier::Global => 4507u32,
            KernelArgAddressQualifier::Local => 4508u32,
            KernelArgAddressQualifier::Constant => 4509u32,
            KernelArgAddressQualifier::Private => 4510u32,
        }
    }
}

impl FromSpecImpl<KernelArgAddressQualifier> for cl_kernel_arg_address_qualifier {
    open spec fn obeys_from_spec() -> bool {
        true
    }

    open spec fn from_spec(v: KernelArgAddressQualifier) -> cl_kernel_arg_address_qualifier {
        v.cl_value()
    }
}

impl From<&KernelArgAddressQualifier> for cl_kernel_arg_address_qualifier {
    fn from(value: &KernelArgAddressQualifier) -> (v: cl_kernel_arg_address_qualifier)
        ensures
            v == value.cl_value(),
    {
        cl_kernel_arg_address_qualifier::from(*value)
    }
}

impl FromSpecImpl<&KernelArgAddressQualifier> for cl_kernel_arg_address_qualifier {
    open spec fn obeys_from_spec() -> bool {
        true
    }

    open spec fn from_spec(v: &KernelArgAddressQualifier) -> cl_kernel_arg_address_qualifier {
        v.cl_value()
    }
}

/// Every variant has its own OpenCL value, and reading that value back gives the variant.
pub proof fn lemma_kernel_arg_address_qualifier_round_trip(e: KernelArgAddressQualifier)
    ensures
        KernelArgAddressQualifier::is_cl_value(e.cl_value()),
        KernelArgAddressQualifier::from_cl_value_spec(e.cl_value()) == e,
{
}

/// The kernel argument information that OpenCL can be asked for.
#[allow(non_camel_case_types)]
#[derive(Debug, Clone, Copy, PartialEq, Eq, PartialOrd, Hash, Structural)]
pub enum KernelArgInfo {
    AddressQualifier,
    AccessQualifier,
    TypeName,
    TypeQualifier,
    Name,
}

impl KernelArgInfo {
    /// The `cl_kernel_arg_info` value that OpenCL uses for this variant.
    pub open spec fn cl_value(self) -> cl_kernel_arg_info {
        match self {
            KernelArgInfo::AddressQualifier => 4502u32,
            KernelArgInfo::AccessQualifier => 4503u32,
            KernelArgInfo::TypeName => 4504u32,
            KernelArgInfo::TypeQualifier => 4505u32,
            KernelArgInfo::Name => 4506u32,
        }
    }

    /// Whether OpenCL uses the value for one of the variants.
    pub open spec fn is_cl_value(value: cl_kernel_arg_info) -> bool {
        value == 4502u32 || value == 4503u32 || value == 4504u32 || value == 4505u32 || value == 4506u32
    }

    /// The variant for which OpenCL uses the value.
    pub open spec fn from_cl_value_spec(value: cl_kernel_arg_info) -> KernelArgInfo {
        if value == 4502u32 {
            KernelArgInfo::AddressQualifier
        } else if value == 4503u32 {
            KernelArgInfo::AccessQualifier
        } else if value == 4504u32 {
            KernelArgInfo::TypeName
        } else if value == 4505u32 {
            KernelArgInfo::TypeQualifier
        } else {
            KernelArgInfo::Name
        }
    }

    /// The variant for which OpenCL uses the value. Any other value stops the program.
    #[verifier::spinoff_prover]
    pub fn from_cl_value(value: cl_kernel_arg_info) -> (e: KernelArgInfo)
        requires
            KernelArgInfo::is_cl_value(value),
        ensures
            e.cl_value() == value,
            e == KernelArgInfo::from_cl_value_spec(value),
    {
        match value {
            4502u32 => KernelArgInfo::AddressQualifier,
            4503u32 => KernelArgInfo::AccessQualifier,
            4504u32 => KernelArgInfo::TypeName,
            4505u32 => KernelArgInfo::TypeQualifier,
            4506u32 => KernelArgInfo::Name,
            _ => {
                proof {
                    assert(false);
                }
                KernelArgInfo::AddressQualifier
            },
        }
    }

    /// The variant for which OpenCL uses the value, or `None` when OpenCL uses the value
    /// for none of the variants.
    #[verifier::spinoff_prover]
    pub fn try_from_cl_value(value: cl_kernel_arg_info) -> (r: Option<KernelArgInfo>)
        ensures
            r is Some <==> KernelArgInfo::is_cl_value(value),
            r matches Some(e) ==> e == KernelArgInfo::from_cl_value_spec(value) && e.cl_value() == value,
    {
        match value {
            4502u32 => Some(KernelArgInfo::AddressQualifier),
            4503u32 => Some(KernelArgInfo::AccessQualifier),
            4504u32 => Some(KernelArgInfo::TypeName),
            4505u32 => Some(KernelArgInfo::TypeQualifier),
            4506u32 => Some(KernelArgInfo::Name),
            _ => None,
        }
    }
}

impl From<KernelArgInfo> for cl_kernel_arg_info {
    fn from(value: KernelArgInfo) -> (v: cl_kernel_arg_info)
        ensures
            v == value.cl_value(),
    {
        match value {
            KernelArgInfo::AddressQualifier => 4502u32,
            KernelArgInfo::AccessQualifier => 4503u32,
            KernelArgInfo::TypeName => 4504u32,
            KernelArgInfo::TypeQualifier => 4505u32,
            KernelArgInfo::Name => 4506u32,
        }
    }
}

impl FromSpecImpl<KernelArgInfo> for cl_kernel_arg_info {
    open spec fn obeys_from_spec() -> bool {
        true
    }

    open spec fn from_spec(v: KernelArgInfo) -> cl_kernel_arg_info {
        v.cl_value()
    }
}

impl From<&KernelArgInfo> for cl_kernel_arg_info {
    fn from(value: &KernelArgInfo) -> (v: cl_kernel_arg_info)
        ensures
            v == value.cl_value(),
    {
        cl_kernel_arg_info::from(*value)
    }
}

impl FromSpecImpl<&KernelArgInfo> for cl_kernel_arg_info {
    open spec fn obeys_from_spec() -> bool {
        true
    }

    open spec fn from_spec(v: &KernelArgInfo) -> cl_kernel_arg_info {
        v.cl_value()
    }
}

/// Every variant has its own OpenCL value, and reading that value back gives the variant.
pub proof fn lemma_kernel_arg_info_round_trip(e: KernelArgInfo)
    ensures
        KernelArgInfo::is_cl_value(e.cl_value()),
        KernelArgInfo::from_cl_value_spec(e.cl_value()) == e,
{
}

/// The command queue information that OpenCL can be asked for.
#[allow(non_camel_case_types)]
#[derive(Debug, Clone, Copy, PartialEq, Eq, PartialOrd, Hash, Structural)]
pub enum CommandQueueInfo {
    Context,
    Device,
    ReferenceCount,
    Properties,
}

impl CommandQueueInfo {
    /// The `cl_command_queue_info` value that OpenCL uses for this variant.
    pub open spec fn cl_value(self) -> cl_command_queue_info {
        match self {
            CommandQueueInfo::Context => 4240u32,
            CommandQueueInfo::Device => 4241u32,
            CommandQueueInfo::ReferenceCount => 4242u32,
            CommandQueueInfo::Properties => 4243u32,
        }
    }

    /// Whether OpenCL uses the value for one of the variants.
    pub open spec fn is_cl_value(value: cl_command_queue_info) -> bool {
        value == 4240u32 || value == 4241u32 || value == 4242u32 || value == 4243u32
    }

    /// The variant for which OpenCL uses the value.
    pub open spec fn from_cl_value_spec(value: cl_command_queue_info) -> CommandQueueInfo {
        if value == 4240u32 {
            CommandQueueInfo::Context
        } else if value == 4241u32 {
            CommandQueueInfo::Device
        } else if value == 4242u32 {
            CommandQueueInfo::ReferenceCount
        } else {
            CommandQueueInfo::Properties
        }
    }

    /// The variant for which OpenCL uses the value. Any other value stops the program.
    #[verifier::spinoff_prover]
    pub fn from_cl_value(value: cl_command_queue_info) -> (e: CommandQueueInfo)
        requires
            CommandQueueInfo::is_cl_value(value),
        ensures
            e.cl_value() == value,
            e == CommandQueueInfo::from_cl_value_spec(value),
    {
        match value {
            4240u32 => CommandQueueInfo::Context,
            4241u32 => CommandQueueInfo::Device,
            4242u32 => CommandQueueInfo::ReferenceCount,
            4243u32 => CommandQueueInfo::Properties,
            _ => {
                proof {
                    assert(false);
                }
                CommandQueueInfo::Context
            },
        }
    }

    /// The variant for which OpenCL uses the value, or `None` when OpenCL uses the value
    /// for none of the variants.
    #[verifier::spinoff_prover]
    pub fn try_from_cl_value(value: cl_command_queue_info) -> (r: Option<CommandQueueInfo>)
        ensures
            r is Some <==> CommandQueueInfo::is_cl_value(value),
            r matches Some(e) ==> e == CommandQueueInfo::from_cl_value_spec(value) && e.cl_value() == value,
    {
        match value {
            4240u32 => Some(CommandQueueInfo::Context),
            4241u32 => Some(CommandQueueInfo::Device),
            4242u32 => Some(CommandQueueInfo::ReferenceCount),
            4243u32 => Some(CommandQueueInfo::Properties),
            _ => None,
        }
    }
}

impl From<CommandQueueInfo> for cl_command_queue_info {
    fn from(value: CommandQueueInfo) -> (v: cl_command_queue_info)
        ensures
            v == value.cl_value(),
    {
        match value {
            CommandQueueInfo::Context => 4240u32,
            CommandQueueInfo::Device => 4241u32,
            CommandQueueInfo::ReferenceCount => 4242u32,
            CommandQueueInfo::Properties => 4243u32,
        }
    }
}

impl FromSpecImpl<CommandQueueInfo> for cl_command_queue_info {
    open spec fn obeys_from_spec() -> bool {
        true
    }

    open spec fn from_spec(v: CommandQueueInfo) -> cl_command_queue_info {
        v.cl_value()
    }
}

impl From<&CommandQueueInfo> for cl_command_queue_info {
    fn from(value: &CommandQueueInfo) -> (v: cl_command_queue_info)
        ensures
            v == value.cl_value(),
    {
        cl_command_queue_info::from(*value)
    }
}

impl FromSpecImpl<&CommandQueueInfo> for cl_command_queue_info {
    open spec fn obeys_from_spec() -> bool {
        true
    }

    open spec fn from_spec(v: &CommandQueueInfo) -> cl_command_queue_info {
        v.cl_value()
    }
}

/// Every variant has its own OpenCL value, and reading that value back gives the variant.
pub proof fn lemma_command_queue_info_round_trip(e: CommandQueueInfo)
    ensures
        CommandQueueInfo::is_cl_value(e.cl_value()),
        CommandQueueInfo::from_cl_value_spec(e.cl_value()) == e,
{
}

/// The execution status of a command.
#[allow(non_camel_case_types)]
#[derive(Debug, Clone, Copy, PartialEq, Eq, PartialOrd, Hash, Structural)]
pub enum CommandExecutionStatus {
    Complete,
    Running,
    Submitted,
    Queued,
}

impl CommandExecutionStatus {
    /// The `cl_int` value that OpenCL uses for this variant.
    pub open spec fn cl_value(self) -> cl_int {
        match self {
            CommandExecutionStatus::Complete => 0i32,
            CommandExecutionStatus::Running => 1i32,
            CommandExecutionStatus::Submitted => 2i32,
            CommandExecutionStatus::Queued => 3i32,
        }
    }

    /// Whether OpenCL uses the value for one of the variants.
    pub open spec fn is_cl_value(value: cl_int) -> bool {
        value == 0i32 || value == 1i32 || value == 2i32 || value == 3i32
    }

    /// The variant for which OpenCL uses the value.
    pub open spec fn from_cl_value_spec(value: cl_int) -> CommandExecutionStatus {
        if value == 0i32 {
            CommandExecutionStatus::Complete
        } else if value == 1i32 {
            CommandExecutionStatus::Running
        } else if value == 2i32 {
            CommandExecutionStatus::Submitted
        } else {
            CommandExecutionStatus::Queued
        }
    }

    /// The variant for which OpenCL uses the value. Any other value stops the program.
    #[verifier::spinoff_prover]
    pub fn from_cl_value(value: cl_int) -> (e: CommandExecutionStatus)
        requires
            CommandExecutionStatus::is_cl_value(value),
        ensures
            e.cl_value() == value,
            e == CommandExecutionStatus::from_cl_value_spec(value),
    {
        match value {
            0i32 => CommandExecutionStatus::Complete,
            1i32 => CommandExecutionStatus::Running,
            2i32 => CommandExecutionStatus::Submitted,
            3i32 => CommandExecutionStatus::Queued,
            _ => {
                proof {
                    assert(false);
                }
                CommandExecutionStatus::Complete
            },
        }
    }

    /// The variant for which OpenCL uses the value, or `None` when OpenCL uses the value
    /// for none of the variants.
    #[verifier::spinoff_prover]
    pub fn try_from_cl_value(value: cl_int) -> (r: Option<CommandExecutionStatus>)
        ensures
            r is Some <==> CommandExecutionStatus::is_cl_value(value),
            r matches Some(e) ==> e == CommandExecutionStatus::from_cl_value_spec(value) && e.cl_value() == value,
    {
        match value {
            0i32 => Some(CommandExecutionStatus::Complete),
            1i32 => Some(CommandExecutionStatus::Running),
            2i32 => Some(CommandExecutionStatus::Submitted),
            3i32 => Some(CommandExecutionStatus::Queued),
            _ => None,
        }
    }
}

impl From<CommandExecutionStatus> for cl_int {
    fn from(value: CommandExecutionStatus) -> (v: cl_int)
        ensures
            v == value.cl_value(),
    {
        match value {
            CommandExecutionStatus::Complete => 0i32,
            CommandExecutionStatus::Running => 1i32,
            CommandExecutionStatus::Submitted => 2i32,
            CommandExecutionStatus::Queued => 3i32,
        }
    }
}

impl FromSpecImpl<CommandExecutionStatus> for cl_int {
    open spec fn obeys_from_spec() -> bool {
        true
    }

    open spec fn from_spec(v: CommandExecutionStatus) -> cl_int {
        v.cl_value()
    }
}

impl From<&CommandExecutionStatus> for cl_int {
    fn from(value: &CommandExecutionStatus) -> (v: cl_int)
        ensures
            v == value.cl_value(),
    {
        cl_int::from(*value)
    }
}

impl FromSpecImpl<&CommandExecutionStatus> for cl_int {
    open spec fn obeys_from_spec() -> bool {
        true
    }

    open spec fn from_spec(v: &CommandExecutionStatus) -> cl_int {
        v.cl_value()
    }
}

/// Every variant has its own OpenCL value, and reading that value back gives the variant.
pub proof fn lemma_command_execution_status_round_trip(e: CommandExecutionStatus)
    ensures
        CommandExecutionStatus::is_cl_value(e.cl_value()),
        CommandExecutionStatus::from_cl_value_spec(e.cl_value()) == e,
{
}

/// The type of the command that an event belongs to.
#[allow(non_camel_case_types)]
#[derive(Debug, Clone, Copy, PartialEq, Eq, PartialOrd, Hash, Structural)]
pub enum CommandType {
    NdrangeKernel,
    Task,
    NativeKernel,
    ReadBuffer,
    WriteBuffer,
    CopyBuffer,
    ReadImage,
    WriteImage,
    CopyImage,
    CopyImageToBuffer,
    CopyBufferToImage,
    MapBuffer,
    MapImage,
    UnmapMemObject,
    Marker,
    AcquireGlObjects,
    ReleaseGlObjects,
    ReadBufferRect,
    WriteBufferRect,
    CopyBufferRect,
    User,
    Barrier,
    MigrateMemObjects,
    FillBuffer,
    FillImage,
    SvmFree,
    SvmMemcpy,
    SvmMemfill,
    SvmMap,
    SvmUnmap,
}

impl CommandType {
    /// The `cl_command_type` value that OpenCL uses for this variant.
    pub open spec fn cl_value(self) -> cl_command_type {
        match self {
            CommandType::NdrangeKernel => 4592u32,
            CommandType::Task => 4593u32,
            CommandType::NativeKernel => 4594u32,
            CommandType::ReadBuffer => 4595u32,
            CommandType::WriteBuffer => 4596u32,
            CommandType::CopyBuffer => 4597u32,
            CommandType::ReadImage => 4598u32,
            CommandType::WriteImage => 4599u32,
            CommandType::CopyImage => 4600u32,
            CommandType::CopyImageToBuffer => 4601u32,
            CommandType::CopyBufferToImage => 4602u32,
            CommandType::MapBuffer => 4603u32,
            CommandType::MapImage => 4604u32,
            CommandType::UnmapMemObject => 4605u32,
            CommandType::Marker => 4606u32,
            CommandType::AcquireGlObjects => 4607u32,
            CommandType::ReleaseGlObjects => 4608u32,
            CommandType::ReadBufferRect => 4609u32,
            CommandType::WriteBufferRect => 4610u32,
            CommandType::CopyBufferRect => 4611u32,
            CommandType::User => 4612u32,
            CommandType::Barrier => 4613u32,
            CommandType::MigrateMemObjects => 4614u32,
            CommandType::FillBuffer => 4615u32,
            CommandType::FillImage => 4616u32,
            CommandType::SvmFree => 4617u32,
            CommandType::SvmMemcpy => 4618u32,
            CommandType::SvmMemfill => 4619u32,
            CommandType::SvmMap => 4620u32,
            CommandType::SvmUnmap => 4621u32,
        }
    }

    /// Whether OpenCL uses the value for one of the variants.
    pub open spec fn is_cl_value(value: cl_command_type) -> bool {
        value == 4592u32 || value == 4593u32 || value == 4594u32 || value == 4595u32 || value == 4596u32 || value == 4597u32 || value == 4598u32 || value == 4599u32 || value == 4600u32 || value == 4601u32 || value == 4602u32 || value == 4603u32 || value == 4604u32 || value == 4605u32 || value == 4606u32 || value == 4607u32 || value == 4608u32 || value == 4609u32 || value == 4610u32 || value == 4611u32 || value == 4612u32 || value == 4613u32 || value == 4614u32 || value == 4615u32 || value == 4616u32 || value == 4617u32 || value == 4618u32 || value == 4619u32 || value == 4620u32 || value == 4621u32
    }

    /// The variant for which OpenCL uses the value.
    pub open spec fn from_cl_value_spec(value: cl_command_type) -> CommandType {
        if value == 4592u32 {
            CommandType::NdrangeKernel
        } else if value == 4593u32 {
            CommandType::Task
        } else if value == 4594u32 {
            CommandType::NativeKernel
        } else if value == 4595u32 {
            CommandType::ReadBuffer
        } else if value == 4596u32 {
            CommandType::WriteBuffer
        } else if value == 4597u32 {
            CommandType::CopyBuffer
        } else if value == 4598u32 {
            CommandType::ReadImage
        } else if value == 4599u32 {
            CommandType::WriteImage
        } else if value == 4600u32 {
            CommandType::CopyImage
        } else if value == 4601u32 {
            CommandType::CopyImageToBuffer
        } else if value == 4602u32 {
            CommandType::CopyBufferToImage
        } else if value == 4603u32 {
            CommandType::MapBuffer
        } else if value == 4604u32 {
            CommandType::MapImage
        } else if value == 4605u32 {
            CommandType::UnmapMemObject
        } else if value == 4606u32 {
            CommandType::Marker
        } else if value == 4607u32 {
            CommandType::AcquireGlObjects
        } else if value == 4608u32 {
            CommandType::ReleaseGlObjects
        } else if value == 4609u32 {
            CommandType::ReadBufferRect
        } else if value == 4610u32 {
            CommandType::WriteBufferRect
        } else if value == 4611u32 {
            CommandType::CopyBufferRect
        } else if value == 4612u32 {
            CommandType::User
        } else if value == 4613u32 {
            CommandType::Barrier
        } else if value == 4614u32 {
            CommandType::MigrateMemObjects
        } else if value == 4615u32 {
            CommandType::FillBuffer
        } else if value == 4616u32 {
            CommandType::FillImage
        } else if value == 4617u32 {
            CommandType::SvmFree
        } else if value == 4618u32 {
            CommandType::SvmMemcpy
        } else if value == 4619u32 {
            CommandType::SvmMemfill
        } else if value == 4620u32 {
            CommandType::SvmMap
        } else {
            CommandType::SvmUnmap
        }
    }

    /// The variant for which OpenCL uses the value. Any other value stops the program.
    #[verifier::spinoff_prover]
    pub fn from_cl_value(value: cl_command_type) -> (e: CommandType)
        requires
            CommandType::is_cl_value(value),
        ensures
            e.cl_value() == value,
            e == CommandType::from_cl_value_spec(value),
    {
        match value {
            4592u32 => CommandType::NdrangeKernel,
            4593u32 => CommandType::Task,
            4594u32 => CommandType::NativeKernel,
            4595u32 => CommandType::ReadBuffer,
            4596u32 => CommandType::WriteBuffer,
            4597u32 => CommandType::CopyBuffer,
            4598u32 => CommandType::ReadImage,
            4599u32 => CommandType::WriteImage,
            4600u32 => CommandType::CopyImage,
            4601u32 => CommandType::CopyImageToBuffer,
            4602u32 => CommandType::CopyBufferToImage,
            4603u32 => CommandType::MapBuffer,
            4604u32 => CommandType::MapImage,
            4605u32 => CommandType::UnmapMemObject,
            4606u32 => CommandType::Marker,
            4607u32 => CommandType::AcquireGlObjects,
            4608u32 => CommandType::ReleaseGlObjects,
            4609u32 => CommandType::ReadBufferRect,
            4610u32 => CommandType::WriteBufferRect,
            4611u32 => CommandType::CopyBufferRect,
            4612u32 => CommandType::User,
            4613u32 => CommandType::Barrier,
            4614u32 => CommandType::MigrateMemObjects,
            4615u32 => CommandType::FillBuffer,
            4616u32 => CommandType::FillImage,
            4617u32 => CommandType::SvmFree,
            4618u32 => CommandType::SvmMemcpy,
            4619u32 => CommandType::SvmMemfill,
            4620u32 => CommandType::SvmMap,
            4621u32 => CommandType::SvmUnmap,
            _ => {
                proof {
                    assert(false);
                }
                CommandType::NdrangeKernel
            },
        }
    }

    /// The variant for which OpenCL uses the value, or `None` when OpenCL uses the value
    /// for none of the variants.
    #[verifier::spinoff_prover]
    pub fn try_from_cl_value(value: cl_command_type) -> (r: Option<CommandType>)
        ensures
            r is Some <==> CommandType::is_cl_value(value),
            r matches Some(e) ==> e == CommandType::from_cl_value_spec(value) && e.cl_value() == value,
    {
        match value {
            4592u32 => Some(CommandType::NdrangeKernel),
            4593u32 => Some(CommandType::Task),
            4594u32 => Some(CommandType::NativeKernel),
            4595u32 => Some(CommandType::ReadBuffer),
            4596u32 => Some(CommandType::WriteBuffer),
            4597u32 => Some(CommandType::CopyBuffer),
            4598u32 => Some(CommandType::ReadImage),
            4599u32 => Some(CommandType::WriteImage),
            4600u32 => Some(CommandType::CopyImage),
            4601u32 => Some(CommandType::CopyImageToBuffer),
            4602u32 => Some(CommandType::CopyBufferToImage),
            4603u32 => Some(CommandType::MapBuffer),
            4604u32 => Some(CommandType::MapImage),
            4605u32 => Some(CommandType::UnmapMemObject),
            4606u32 => Some(CommandType::Marker),
            4607u32 => Some(CommandType::AcquireGlObjects),
            4608u32 => Some(CommandType::ReleaseGlObjects),
            4609u32 => Some(CommandType::ReadBufferRect),
            4610u32 => Some(CommandType::WriteBufferRect),
            4611u32 => Some(CommandType::CopyBufferRect),
            4612u32 => Some(CommandType::User),
            4613u32 => Some(CommandType::Barrier),
            4614u32 => Some(CommandType::MigrateMemObjects),
            4615u32 => Some(CommandType::FillBuffer),
            4616u32 => Some(CommandType::FillImage),
            4617u32 => Some(CommandType::SvmFree),
            4618u32 => Some(CommandType::SvmMemcpy),
            4619u32 => Some(CommandType::SvmMemfill),
            4620u32 => Some(CommandType::SvmMap),
            4621u32 => Some(CommandType::SvmUnmap),
            _ => None,
        }
    }
}

impl From<CommandType> for cl_command_type {
    fn from(value: CommandType) -> (v: cl_command_type)
        ensures
            v == value.cl_value(),
    {
        match value {
            CommandType::NdrangeKernel => 4592u32,
            CommandType::Task => 4593u32,
            CommandType::NativeKernel => 4594u32,
            CommandType::ReadBuffer => 4595u32,
            CommandType::WriteBuffer => 4596u32,
            CommandType::CopyBuffer => 4597u32,
            CommandType::ReadImage => 4598u32,
            CommandType::WriteImage => 4599u32,
            CommandType::CopyImage => 4600u32,
            CommandType::CopyImageToBuffer => 4601u32,
            CommandType::CopyBufferToImage => 4602u32,
            CommandType::MapBuffer => 4603u32,
            CommandType::MapImage => 4604u32,
            CommandType::UnmapMemObject => 4605u32,
            CommandType::Marker => 4606u32,
            CommandType::AcquireGlObjects => 4607u32,
            CommandType::ReleaseGlObjects => 4608u32,
            CommandType::ReadBufferRect => 4609u32,
            CommandType::WriteBufferRect => 4610u32,
            CommandType::CopyBufferRect => 4611u32,
            CommandType::User => 4612u32,
            CommandType::Barrier => 4613u32,
            CommandType::MigrateMemObjects => 4614u32,
            CommandType::FillBuffer => 4615u32,
            CommandType::FillImage => 4616u32,
            CommandType::SvmFree => 4617u32,
            CommandType::SvmMemcpy => 4618u32,
            CommandType::SvmMemfill => 4619u32,
            CommandType::SvmMap => 4620u32,
            CommandType::SvmUnmap => 4621u32,
        }
    }
}

impl FromSpecImpl<CommandType> for cl_command_type {
    open spec fn obeys_from_spec() -> bool {
        true
    }

    open spec fn from_spec(v: CommandType) -> cl_command_type {
        v.cl_value()
    }
}

impl From<&CommandType> for cl_command_type {
    fn from(value: &CommandType) -> (v: cl_command_type)
        ensures
            v == value.cl_value(),
    {
        cl_command_type::from(*value)
    }
}

impl FromSpecImpl<&CommandType> for cl_command_type {
    open spec fn obeys_from_spec() -> bool {
        true
    }

    open spec fn from_spec(v: &CommandType) -> cl_command_type {
        v.cl_value()
    }
}

/// Every variant has its own OpenCL value, and reading that value back gives the variant.
pub proof fn lemma_command_type_round_trip(e: CommandType)
    ensures
        CommandType::is_cl_value(e.cl_value()),
        CommandType::from_cl_value_spec(e.cl_value()) == e,
{
}

/// The event information that OpenCL can be asked for.
#[allow(non_camel_case_types)]
#[derive(Debug, Clone, Copy, PartialEq, Eq, PartialOrd, Hash, Structural)]
pub enum EventInfo {
    CommandQueue,
    CommandType,
    ReferenceCount,
    CommandExecutionStatus,
    Context,
}

impl EventInfo {
    /// The `cl_event_info` value that OpenCL uses for this variant.
    pub open spec fn cl_value(self) -> cl_event_info {
        match self {
            EventInfo::CommandQueue => 4560u32,
            EventInfo::CommandType => 4561u32,
            EventInfo::ReferenceCount => 4562u32,
            EventInfo::CommandExecutionStatus => 4563u32,
            EventInfo::Context => 4564u32,
        }
    }

    /// Whether OpenCL uses the value for one of the variants.
    pub open spec fn is_cl_value(value: cl_event_info) -> bool {
        value == 4560u32 || value == 4561u32 || value == 4562u32 || value == 4563u32 || value == 4564u32
    }

    /// The variant for which OpenCL uses the value.
    pub open spec fn from_cl_value_spec(value: cl_event_info) -> EventInfo {
        if value == 4560u32 {
            EventInfo::CommandQueue
        } else if value == 4561u32 {
            EventInfo::CommandType
        } else if value == 4562u32 {
            EventInfo::ReferenceCount
        } else if value == 4563u32 {
            EventInfo::CommandExecutionStatus
        } else {
            EventInfo::Context
        }
    }

    /// The variant for which OpenCL uses the value. Any other value stops the program.
    #[verifier::spinoff_prover]
    pub fn from_cl_value(value: cl_event_info) -> (e: EventInfo)
        requires
            EventInfo::is_cl_value(value),
        ensures
            e.cl_value() == value,
            e == EventInfo::from_cl_value_spec(value),
    {
        match value {
            4560u32 => EventInfo::CommandQueue,
            4561u32 => EventInfo::CommandType,
            4562u32 => EventInfo::ReferenceCount,
            4563u32 => EventInfo::CommandExecutionStatus,
            4564u32 => EventInfo::Context,
            _ => {
                proof {
                    assert(false);
                }
                EventInfo::CommandQueue
            },
        }
    }

    /// The variant for which OpenCL uses the value, or `None` when OpenCL uses the value
    /// for none of the variants.
    #[verifier::spinoff_prover]
    pub fn try_from_cl_value(value: cl_event_info) -> (r: Option<EventInfo>)
        ensures
            r is Some <==> EventInfo::is_cl_value(value),
            r matches Some(e) ==> e == EventInfo::from_cl_value_spec(value) && e.cl_value() == value,
    {
        match value {
            4560u32 => Some(EventInfo::CommandQueue),
            4561u32 => Some(EventInfo::CommandType),
            4562u32 => Some(EventInfo::ReferenceCount),
            4563u32 => Some(EventInfo::CommandExecutionStatus),
            4564u32 => Some(EventInfo::Context),
            _ => None,
        }
    }
}

impl From<EventInfo> for cl_event_info {
    fn from(value: EventInfo) -> (v: cl_event_info)
        ensures
            v == value.cl_value(),
    {
        match value {
            EventInfo::CommandQueue => 4560u32,
            EventInfo::CommandType => 4561u32,
            EventInfo::ReferenceCount => 4562u32,
            EventInfo::CommandExecutionStatus => 4563u32,
            EventInfo::Context => 4564u32,
        }
    }
}

impl FromSpecImpl<EventInfo> for cl_event_info {
    open spec fn obeys_from_spec() -> bool {
        true
    }

    open spec fn from_spec(v: EventInfo) -> cl_event_info {
        v.cl_value()
    }
}

impl From<&EventInfo> for cl_event_info {
    fn from(value: &EventInfo) -> (v: cl_event_info)
        ensures
            v == value.cl_value(),
    {
        cl_event_info::from(*value)
    }
}

impl FromSpecImpl<&EventInfo> for cl_event_info {
    open spec fn obeys_from_spec() -> bool {
        true
    }

    open spec fn from_spec(v: &EventInfo) -> cl_event_info {
        v.cl_value()
    }
}

/// Every variant has its own OpenCL value, and reading that value back gives the variant.
pub proof fn lemma_event_info_round_trip(e: EventInfo)
    ensures
        EventInfo::is_cl_value(e.cl_value()),
        EventInfo::from_cl_value_spec(e.cl_value()) == e,
{
}

/// The profiling times that OpenCL can be asked for.
#[allow(non_camel_case_types)]
#[derive(Debug, Clone, Copy, PartialEq, Eq, PartialOrd, Hash, Structural)]
pub enum ProfilingInfo {
    Queued,
    Submit,
    Start,
    End,
    Complete,
}

impl ProfilingInfo {
    /// The `cl_profiling_info` value that OpenCL uses for this variant.
    pub open spec fn cl_value(self) -> cl_profiling_info {
        match self {
            ProfilingInfo::Queued => 4736u32,
            ProfilingInfo::Submit => 4737u32,
            ProfilingInfo::Start => 4738u32,
            ProfilingInfo::End => 4739u32,
            ProfilingInfo::Complete => 4740u32,
        }
    }

    /// Whether OpenCL uses the value for one of the variants.
    pub open spec fn is_cl_value(value: cl_profiling_info) -> bool {
        value == 4736u32 || value == 4737u32 || value == 4738u32 || value == 4739u32 || value == 4740u32
    }

    /// The variant for which OpenCL uses the value.
    pub open spec fn from_cl_value_spec(value: cl_profiling_info) -> ProfilingInfo {
        if value == 4736u32 {
            ProfilingInfo::Queued
        } else if value == 4737u32 {
            ProfilingInfo::Submit
        } else if value == 4738u32 {
            ProfilingInfo::Start
        } else if value == 4739u32 {
            ProfilingInfo::End
        } else {
            ProfilingInfo::Complete
        }
    }

    /// The variant for which OpenCL uses the value. Any other value stops the program.
    #[verifier::spinoff_prover]
    pub fn from_cl_value(value: cl_profiling_info) -> (e: ProfilingInfo)
        requires
            ProfilingInfo::is_cl_value(value),
        ensures
            e.cl_value() == value,
            e == ProfilingInfo::from_cl_value_spec(value),
    {
        match value {
            4736u32 => ProfilingInfo::Queued,
            4737u32 => ProfilingInfo::Submit,
            4738u32 => ProfilingInfo::Start,
            4739u32 => ProfilingInfo::End,
            4740u32 => ProfilingInfo::Complete,
            _ => {
                proof {
                    assert(false);
                }
                ProfilingInfo::Queued
            },
        }
    }

    /// The variant for which OpenCL uses the value, or `None` when OpenCL uses the value
    /// for none of the variants.
    #[verifier::spinoff_prover]
    pub fn try_from_cl_value(value: cl_profiling_info) -> (r: Option<ProfilingInfo>)
        ensures
            r is Some <==> ProfilingInfo::is_cl_value(value),
            r matches Some(e) ==> e == ProfilingInfo::from_cl_value_spec(value) && e.cl_value() == value,
    {
        match value {
            4736u32 => Some(ProfilingInfo::Queued),
            4737u32 => Some(ProfilingInfo::Submit),
            4738u32 => Some(ProfilingInfo::Start),
            4739u32 => Some(ProfilingInfo::End),
            4740u32 => Some(ProfilingInfo::Complete),
            _ => None,
        }
    }
}

impl From<ProfilingInfo> for cl_profiling_info {
    fn from(value: ProfilingInfo) -> (v: cl_profiling_info)
        ensures
            v == value.cl_value(),
    {
        match value {
            ProfilingInfo::Queued => 4736u32,
            ProfilingInfo::Submit => 4737u32,
            ProfilingInfo::Start => 4738u32,
            ProfilingInfo::End => 4739u32,
            ProfilingInfo::Complete => 4740u32,
        }
    }
}

impl FromSpecImpl<ProfilingInfo> for cl_profiling_info {
    open spec fn obeys_from_spec() -> bool {
        true
    }

    open spec fn from_spec(v: ProfilingInfo) -> cl_profiling_info {
        v.cl_value()
    }
}

impl From<&ProfilingInfo> for cl_profiling_info {
    fn from(value: &ProfilingInfo) -> (v: cl_profiling_info)
        ensures
            v == value.cl_value(),
    {
        cl_profiling_info::from(*value)
    }
}

impl FromSpecImpl<&ProfilingInfo> for cl_profiling_info {
    open spec fn obeys_from_spec() -> bool {
        true
    }

    open spec fn from_spec(v: &ProfilingInfo) -> cl_profiling_info {
        v.cl_value()
    }
}

/// Every variant has its own OpenCL value, and reading that value back gives the variant.
pub proof fn lemma_profiling_info_round_trip(e: ProfilingInfo)
    ensures
        ProfilingInfo::is_cl_value(e.cl_value()),
        ProfilingInfo::from_cl_value_spec(e.cl_value()) == e,
{
}

/// Each variant of `AddressingMode` converts to the OpenCL constant it names; `from_cl_value` gives
/// back the variant of each constant, and `try_from_cl_value` gives it back for the
/// constants and nothing for any other value.
pub proof fn lemma_addressing_mode_cl_values()
    ensures
        forall|x: AddressingMode, v: cl_addressing_mode|
            #[trigger] call_ensures(<cl_addressing_mode as From<AddressingMode>>::from, (x,), v) ==> v == match x {
                AddressingMode::NoneType => 4400u32,
                AddressingMode::ClampToEdge => 4401u32,
                AddressingMode::Clamp => 4402u32,
                AddressingMode::Repeat => 4403u32,
                AddressingMode::MirroredRepeat => 4404u32,
            },
        forall|v: cl_addressing_mode, x: AddressingMode|
            #[trigger] call_ensures(AddressingMode::from_cl_value, (v,), x) ==> match v {
                4400u32 => x == AddressingMode::NoneType,
                4401u32 => x == AddressingMode::ClampToEdge,
                4402u32 => x == AddressingMode::Clamp,
                4403u32 => x == AddressingMode::Repeat,
                4404u32 => x == AddressingMode::MirroredRepeat,
                _ => true,
            },
        forall|v: cl_addressing_mode, r: Option<AddressingMode>|
            #[trigger] call_ensures(AddressingMode::try_from_cl_value, (v,), r) ==> r == match v {
                4400u32 => Some(AddressingMode::NoneType),
                4401u32 => Some(AddressingMode::ClampToEdge),
                4402u32 => Some(AddressingMode::Clamp),
                4403u32 => Some(AddressingMode::Repeat),
                4404u32 => Some(AddressingMode::MirroredRepeat),
                _ => None,
            },
{
}

/// Each variant of `ChannelOrder` converts to the OpenCL constant it names; `from_cl_value` gives
/// back the variant of each constant, and `try_from_cl_value` gives it back for the
/// constants and nothing for any other value.
pub proof fn lemma_channel_order_cl_values()
    ensures
        forall|x: ChannelOrder, v: cl_channel_order|
            #[trigger] call_ensures(<cl_channel_order as From<ChannelOrder>>::from, (x,), v) ==> v == match x {
                ChannelOrder::R => 4272u32,
                ChannelOrder::A => 4273u32,
                ChannelOrder::RG => 4274u32,
                ChannelOrder::RA => 4275u32,
                ChannelOrder::RGB => 4276u32,
                ChannelOrder::RGBA => 4277u32,
                ChannelOrder::BGRA => 4278u32,
                ChannelOrder::ARGB => 4279u32,
                ChannelOrder::Intensity => 4280u32,
                ChannelOrder::Luminance => 4281u32,
                ChannelOrder::Rx => 4282u32,
                ChannelOrder::RGx => 4283u32,
                ChannelOrder::RGBx => 4284u32,
                ChannelOrder::Depth => 4285u32,
                ChannelOrder::DepthStencil => 4286u32,
                ChannelOrder::sRGB => 4287u32,
                ChannelOrder::sRGBx => 4288u32,
                ChannelOrder::sRGBA => 4289u32,
                ChannelOrder::sBGRA => 4290u32,
                ChannelOrder::ABGR => 4291u32,
            },
        forall|v: cl_channel_order, x: ChannelOrder|
            #[trigger] call_ensures(ChannelOrder::from_cl_value, (v,), x) ==> match v {
                4272u32 => x == ChannelOrder::R,
                4273u32 => x == ChannelOrder::A,
                4274u32 => x == ChannelOrder::RG,
                4275u32 => x == ChannelOrder::RA,
                4276u32 => x == ChannelOrder::RGB,
                4277u32 => x == ChannelOrder::RGBA,
                4278u32 => x == ChannelOrder::BGRA,
                4279u32 => x == ChannelOrder::ARGB,
                4280u32 => x == ChannelOrder::Intensity,
                4281u32 => x == ChannelOrder::Luminance,
                4282u32 => x == ChannelOrder::Rx,
                4283u32 => x == ChannelOrder::RGx,
                4284u32 => x == ChannelOrder::RGBx,
                4285u32 => x == ChannelOrder::Depth,
                4286u32 => x == ChannelOrder::DepthStencil,
                4287u32 => x == ChannelOrder::sRGB,
                4288u32 => x == ChannelOrder::sRGBx,
                4289u32 => x == ChannelOrder::sRGBA,
                4290u32 => x == ChannelOrder::sBGRA,
                4291u32 => x == ChannelOrder::ABGR,
                _ => true,
            },
        forall|v: cl_channel_order, r: Option<ChannelOrder>|
            #[trigger] call_ensures(ChannelOrder::try_from_cl_value, (v,), r) ==> r == match v {
                4272u32 => Some(ChannelOrder::R),
                4273u32 => Some(ChannelOrder::A),
                4274u32 => Some(ChannelOrder::RG),
                4275u32 => Some(ChannelOrder::RA),
                4276u32 => Some(ChannelOrder::RGB),
                4277u32 => Some(ChannelOrder::RGBA),
                4278u32 => Some(ChannelOrder::BGRA),
                4279u32 => Some(ChannelOrder::ARGB),
                4280u32 => Some(ChannelOrder::Intensity),
                4281u32 => Some(ChannelOrder::Luminance),
                4282u32 => Some(ChannelOrder::Rx),
                4283u32 => Some(ChannelOrder::RGx),
                4284u32 => Some(ChannelOrder::RGBx),
                4285u32 => Some(ChannelOrder::Depth),
                4286u32 => Some(ChannelOrder::DepthStencil),
                4287u32 => Some(ChannelOrder::sRGB),
                4288u32 => Some(ChannelOrder::sRGBx),
                4289u32 => Some(ChannelOrder::sRGBA),
                4290u32 => Some(ChannelOrder::sBGRA),
                4291u32 => Some(ChannelOrder::ABGR),
                _ => None,
            },
{
}

/// Each variant of `ChannelType` converts to the OpenCL constant it names; `from_cl_value` gives
/// back the variant of each constant, and `try_from_cl_value` gives it back for the
/// constants and nothing for any other value.
pub proof fn lemma_channel_type_cl_values()
    ensures
        forall|x: ChannelType, v: cl_channel_type|
            #[trigger] call_ensures(<cl_channel_type as From<ChannelType>>::from, (x,), v) ==> v == match x {
                ChannelType::SnormInt8 => 4304u32,
                ChannelType::SnormInt16 => 4305u32,
                ChannelType::UnormInt8 => 4306u32,
                ChannelType::UnormInt16 => 4307u32,
                ChannelType::UnormShort_565 => 4308u32,
                ChannelType::UnormShort_555 => 4309u32,
                ChannelType::UnormInt_101010 => 4310u32,
                ChannelType::SignedInt8 => 4311u32,
                ChannelType::SignedInt16 => 4312u32,
                ChannelType::SignedInt32 => 4313u32,
                ChannelType::UnsignedInt8 => 4314u32,
                ChannelType::UnsignedInt16 => 4315u32,
                ChannelType::UnsignedInt32 => 4316u32,
                ChannelType::HalfFloat => 4317u32,
                ChannelType::Float => 4318u32,
                ChannelType::UnormInt24 => 4319u32,
                ChannelType::UnormInt_101010_2 => 4320u32,
            },
        forall|v: cl_channel_type, x: ChannelType|
            #[trigger] call_ensures(ChannelType::from_cl_value, (v,), x) ==> match v {
                4304u32 => x == ChannelType::SnormInt8,
                4305u32 => x == ChannelType::SnormInt16,
                4306u32 => x == ChannelType::UnormInt8,
                4307u32 => x == ChannelType::UnormInt16,
                4308u32 => x == ChannelType::UnormShort_565,
                4309u32 => x == ChannelType::UnormShort_555,
                4310u32 => x == ChannelType::UnormInt_101010,
                4311u32 => x == ChannelType::SignedInt8,
                4312u32 => x == ChannelType::SignedInt16,
                4313u32 => x == ChannelType::SignedInt32,
                4314u32 => x == ChannelType::UnsignedInt8,
                4315u32 => x == ChannelType::UnsignedInt16,
                4316u32 => x == ChannelType::UnsignedInt32,
                4317u32 => x == ChannelType::HalfFloat,
                4318u32 => x == ChannelType::Float,
                4319u32 => x == ChannelType::UnormInt24,
                4320u32 => x == ChannelType::UnormInt_101010_2,
                _ => true,
            },
        forall|v: cl_channel_type, r: Option<ChannelType>|
            #[trigger] call_ensures(ChannelType::try_from_cl_value, (v,), r) ==> r == match v {
                4304u32 => Some(ChannelType::SnormInt8),
                4305u32 => Some(ChannelType::SnormInt16),
                4306u32 => Some(ChannelType::UnormInt8),
                4307u32 => Some(ChannelType::UnormInt16),
                4308u32 => Some(ChannelType::UnormShort_565),
                4309u32 => Some(ChannelType::UnormShort_555),
                4310u32 => Some(ChannelType::UnormInt_101010),
                4311u32 => Some(ChannelType::SignedInt8),
                4312u32 => Some(ChannelType::SignedInt16),
                4313u32 => Some(ChannelType::SignedInt32),
                4314u32 => Some(ChannelType::UnsignedInt8),
                4315u32 => Some(ChannelType::UnsignedInt16),
                4316u32 => Some(ChannelType::UnsignedInt32),
                4317u32 => Some(ChannelType::HalfFloat),
                4318u32 => Some(ChannelType::Float),
                4319u32 => Some(ChannelType::UnormInt24),
                4320u32 => Some(ChannelType::UnormInt_101010_2),
                _ => None,
            },
{
}

/// Each variant of `FilterMode` converts to the OpenCL constant it names; `from_cl_value` gives
/// back the variant of each constant, and `try_from_cl_value` gives it back for the
/// constants and nothing for any other value.
pub proof fn lemma_filter_mode_cl_values()
    ensures
        forall|x: FilterMode, v: cl_filter_mode|
            #[trigger] call_ensures(<cl_filter_mode as From<FilterMode>>::from, (x,), v) ==> v == match x {
                FilterMode::Nearest => 4416u32,
                FilterMode::Linear => 4417u32,
            },
        forall|v: cl_filter_mode, x: FilterMode|
            #[trigger] call_ensures(FilterMode::from_cl_value, (v,), x) ==> match v {
                4416u32 => x == FilterMode::Nearest,
                4417u32 => x == FilterMode::Linear,
                _ => true,
            },
        forall|v: cl_filter_mode, r: Option<FilterMode>|
            #[trigger] call_ensures(FilterMode::try_from_cl_value, (v,), r) ==> r == match v {
                4416u32 => Some(FilterMode::Nearest),
                4417u32 => Some(FilterMode::Linear),
                _ => None,
            },
{
}

/// Each variant of `ImageInfo` converts to the OpenCL constant it names; `from_cl_value` gives
/// back the variant of each constant, and `try_from_cl_value` gives it back for the
/// constants and nothing for any other value.
pub proof fn lemma_image_info_cl_values()
    ensures
        forall|x: ImageInfo, v: cl_image_info|
            #[trigger] call_ensures(<cl_image_info as From<ImageInfo>>::from, (x,), v) ==> v == match x {
                ImageInfo::Format => 4368u32,
                ImageInfo::ElementSize => 4369u32,
                ImageInfo::RowPitch => 4370u32,
                ImageInfo::SlicePitch => 4371u32,
                ImageInfo::Width => 4372u32,
                ImageInfo::Height => 4373u32,
                ImageInfo::Depth => 4374u32,
                ImageInfo::ArraySize => 4375u32,
                ImageInfo::Buffer => 4376u32,
                ImageInfo::NumMipLevels => 4377u32,
                ImageInfo::NumSamples => 4378u32,
            },
        forall|v: cl_image_info, x: ImageInfo|
            #[trigger] call_ensures(ImageInfo::from_cl_value, (v,), x) ==> match v {
                4368u32 => x == ImageInfo::Format,
                4369u32 => x == ImageInfo::ElementSize,
                4370u32 => x == ImageInfo::RowPitch,
                4371u32 => x == ImageInfo::SlicePitch,
                4372u32 => x == ImageInfo::Width,
                4373u32 => x == ImageInfo::Height,
                4374u32 => x == ImageInfo::Depth,
                4375u32 => x == ImageInfo::ArraySize,
                4376u32 => x == ImageInfo::Buffer,
                4377u32 => x == ImageInfo::NumMipLevels,
                4378u32 => x == ImageInfo::NumSamples,
                _ => true,
            },
        forall|v: cl_image_info, r: Option<ImageInfo>|
            #[trigger] call_ensures(ImageInfo::try_from_cl_value, (v,), r) ==> r == match v {
                4368u32 => Some(ImageInfo::Format),
                4369u32 => Some(ImageInfo::ElementSize),
                4370u32 => Some(ImageInfo::RowPitch),
                4371u32 => Some(ImageInfo::SlicePitch),
                4372u32 => Some(ImageInfo::Width),
                4373u32 => Some(ImageInfo::Height),
                4374u32 => Some(ImageInfo::Depth),
                4375u32 => Some(ImageInfo::ArraySize),
                4376u32 => Some(ImageInfo::Buffer),
                4377u32 => Some(ImageInfo::NumMipLevels),
                4378u32 => Some(ImageInfo::NumSamples),
                _ => None,
            },
{
}

/// Each variant of `SamplerInfo` converts to the OpenCL constant it names; `from_cl_value` gives
/// back the variant of each constant, and `try_from_cl_value` gives it back for the
/// constants and nothing for any other value.
pub proof fn lemma_sampler_info_cl_values()
    ensures
        forall|x: SamplerInfo, v: cl_sampler_info|
            #[trigger] call_ensures(<cl_sampler_info as From<SamplerInfo>>::from, (x,), v) ==> v == match x {
                SamplerInfo::ReferenceCount => 4432u32,
                SamplerInfo::Context => 4433u32,
                SamplerInfo::NormalizedCoords => 4434u32,
                SamplerInfo::AddressingMode => 4435u32,
                SamplerInfo::FilterMode => 4436u32,
                SamplerInfo::MipFilterMode => 4437u32,
                SamplerInfo::LodMin => 4438u32,
                SamplerInfo::LodMax => 4439u32,
            },
        forall|v: cl_sampler_info, x: SamplerInfo|
            #[trigger] call_ensures(SamplerInfo::from_cl_value, (v,), x) ==> match v {
                4432u32 => x == SamplerInfo::ReferenceCount,
                4433u32 => x == SamplerInfo::Context,
                4434u32 => x == SamplerInfo::NormalizedCoords,
                4435u32 => x == SamplerInfo::AddressingMode,
                4436u32 => x == SamplerInfo::FilterMode,
                4437u32 => x == SamplerInfo::MipFilterMode,
                4438u32 => x == SamplerInfo::LodMin,
                4439u32 => x == SamplerInfo::LodMax,
                _ => true,
            },
        forall|v: cl_sampler_info, r: Option<SamplerInfo>|
            #[trigger] call_ensures(SamplerInfo::try_from_cl_value, (v,), r) ==> r == match v {
                4432u32 => Some(SamplerInfo::ReferenceCount),
                4433u32 => Some(SamplerInfo::Context),
                4434u32 => Some(SamplerInfo::NormalizedCoords),
                4435u32 => Some(SamplerInfo::AddressingMode),
                4436u32 => Some(SamplerInfo::FilterMode),
                4437u32 => Some(SamplerInfo::MipFilterMode),
                4438u32 => Some(SamplerInfo::LodMin),
                4439u32 => Some(SamplerInfo::LodMax),
                _ => None,
            },
{
}

/// Each variant of `MapFlags` converts to the OpenCL constant it names; `from_cl_value` gives
/// back the variant of each constant, and `try_from_cl_value` gives it back for the
/// constants and nothing for any other value.
pub proof fn lemma_map_flags_cl_values()
    ensures
        forall|x: MapFlags, v: cl_map_flags|
            #[trigger] call_ensures(<cl_map_flags as From<MapFlags>>::from, (x,), v) ==> v == match x {
                MapFlags::Read => 1u64,
                MapFlags::Write => 2u64,
                MapFlags::WriteInvalidateRegion => 4u64,
            },
        forall|v: cl_map_flags, x: MapFlags|
            #[trigger] call_ensures(MapFlags::from_cl_value, (v,), x) ==> match v {
                1u64 => x == MapFlags::Read,
                2u64 => x == MapFlags::Write,
                4u64 => x == MapFlags::WriteInvalidateRegion,
                _ => true,
            },
        forall|v: cl_map_flags, r: Option<MapFlags>|
            #[trigger] call_ensures(MapFlags::try_from_cl_value, (v,), r) ==> r == match v {
                1u64 => Some(MapFlags::Read),
                2u64 => Some(MapFlags::Write),
                4u64 => Some(MapFlags::WriteInvalidateRegion),
                _ => None,
            },
{
}

/// Each variant of `PlatformInfo` converts to the OpenCL constant it names; `from_cl_value` gives
/// back the variant of each constant, and `try_from_cl_value` gives it back for the
/// constants and nothing for any other value.
pub proof fn lemma_platform_info_cl_values()
    ensures
        forall|x: PlatformInfo, v: cl_platform_info|
            #[trigger] call_ensures(<cl_platform_info as From<PlatformInfo>>::from, (x,), v) ==> v == match x {
                PlatformInfo::Profile => 2304u32,
                PlatformInfo::Version => 2305u32,
                PlatformInfo::Name => 2306u32,
                PlatformInfo::Vendor => 2307u32,
                PlatformInfo::Extensions => 2308u32,
            },
        forall|v: cl_platform_info, x: PlatformInfo|
            #[trigger] call_ensures(PlatformInfo::from_cl_value, (v,), x) ==> match v {
                2304u32 => x == PlatformInfo::Profile,
                2305u32 => x == PlatformInfo::Version,
                2306u32 => x == PlatformInfo::Name,
                2307u32 => x == PlatformInfo::Vendor,
                2308u32 => x == PlatformInfo::Extensions,
                _ => true,
            },
        forall|v: cl_platform_info, r: Option<PlatformInfo>|
            #[trigger] call_ensures(PlatformInfo::try_from_cl_value, (v,), r) ==> r == match v {
                2304u32 => Some(PlatformInfo::Profile),
                2305u32 => Some(PlatformInfo::Version),
                2306u32 => Some(PlatformInfo::Name),
                2307u32 => Some(PlatformInfo::Vendor),
                2308u32 => Some(PlatformInfo::Extensions),
                _ => None,
            },
{
}

/// Each variant of `DeviceInfo` converts to the OpenCL constant it names; `from_cl_value` gives
/// back the variant of each constant, and `try_from_cl_value` gives it back for the
/// constants and nothing for any other value.
pub proof fn lemma_device_info_cl_values()
    ensures
        forall|x: DeviceInfo, v: cl_device_info|
            #[trigger] call_ensures(<cl_device_info as From<DeviceInfo>>::from, (x,), v) ==> v == match x {
                DeviceInfo::Type => 4096u32,
                DeviceInfo::VendorId => 4097u32,
                DeviceInfo::MaxComputeUnits => 4098u32,
                DeviceInfo::MaxWorkItemDimensions => 4099u32,
                DeviceInfo::MaxWorkGroupSize => 4100u32,
                DeviceInfo::MaxWorkItemSizes => 4101u32,
                DeviceInfo::PreferredVectorWidthChar => 4102u32,
                DeviceInfo::PreferredVectorWidthShort => 4103u32,
                DeviceInfo::PreferredVectorWidthInt => 4104u32,
                DeviceInfo::PreferredVectorWidthLong => 4105u32,
                DeviceInfo::PreferredVectorWidthFloat => 4106u32,
                DeviceInfo::PreferredVectorWidthDouble => 4107u32,
                DeviceInfo::PreferredVectorWidthHalf => 4148u32,
                DeviceInfo::MaxClockFrequency => 4108u32,
                DeviceInfo::AddressBits => 4109u32,
                DeviceInfo::MaxReadImageArgs => 4110u32,
                DeviceInfo::MaxWriteImageArgs => 4111u32,
                DeviceInfo::MaxMemAllocSize => 4112u32,
                DeviceInfo::Image2DMaxWidth => 4113u32,
                DeviceInfo::Image2DMaxHeight => 4114u32,
                DeviceInfo::Image3DMaxWidth => 4115u32,
                DeviceInfo::Image3DMaxHeight => 4116u32,
                DeviceInfo::Image3DMaxDepth => 4117u32,
                DeviceInfo::ImageSupport => 4118u32,
                DeviceInfo::MaxParameterSize => 4119u32,
                DeviceInfo::MaxSamplers => 4120u32,
                DeviceInfo::MemBaseAddrAlign => 4121u32,
                DeviceInfo::MinDataTypeAlignSize => 4122u32,
                DeviceInfo::SingleFpConfig => 4123u32,
                DeviceInfo::GlobalMemCacheType => 4124u32,
                DeviceInfo::GlobalMemCachelineSize => 4125u32,
                DeviceInfo::GlobalMemCacheSize => 4126u32,
                DeviceInfo::GlobalMemSize => 4127u32,
                DeviceInfo::MaxConstantBufferSize => 4128u32,
                DeviceInfo::MaxConstantArgs => 4129u32,
                DeviceInfo::LocalMemType => 4130u32,
                DeviceInfo::LocalMemSize => 4131u32,
                DeviceInfo::ErrorCorrectionSupport => 4132u32,
                DeviceInfo::ProfilingTimerResolution => 4133u32,
                DeviceInfo::EndianLittle => 4134u32,
                DeviceInfo::Available => 4135u32,
                DeviceInfo::CompilerAvailable => 4136u32,
                DeviceInfo::ExecutionCapabilities => 4137u32,
                DeviceInfo::QueueOnHostProperties => 4138u32,
                DeviceInfo::Name => 4139u32,
                DeviceInfo::Vendor => 4140u32,
                DeviceInfo::Profile => 4142u32,
                DeviceInfo::Version => 4143u32,
                DeviceInfo::Extensions => 4144u32,
                DeviceInfo::Platform => 4145u32,
                DeviceInfo::DoubleFpConfig => 4146u32,
                DeviceInfo::HostUnifiedMemory => 4149u32,
                DeviceInfo::NativeVectorWidthChar => 4150u32,
                DeviceInfo::NativeVectorWidthShort => 4151u32,
                DeviceInfo::NativeVectorWidthInt => 4152u32,
                DeviceInfo::NativeVectorWidthLong => 4153u32,
                DeviceInfo::NativeVectorWidthFloat => 4154u32,
                DeviceInfo::NativeVectorWidthDouble => 4155u32,
                DeviceInfo::NativeVectorWidthHalf => 4156u32,
                DeviceInfo::OpenclCVersion => 4157u32,
                DeviceInfo::LinkerAvailable => 4158u32,
                DeviceInfo::BuiltInKernels => 4159u32,
                DeviceInfo::ImageMaxBufferSize => 4160u32,
                DeviceInfo::ImageMaxArraySize => 4161u32,
                DeviceInfo::ParentDevice => 4162u32,
                DeviceInfo::PartitionMaxSubDevices => 4163u32,
                DeviceInfo::PartitionProperties => 4164u32,
                DeviceInfo::PartitionAffinityDomain => 4165u32,
                DeviceInfo::PartitionType => 4166u32,
                DeviceInfo::ReferenceCount => 4167u32,
                DeviceInfo::PreferredInteropUserSync => 4168u32,
                DeviceInfo::PrintfBufferSize => 4169u32,
                DeviceInfo::ImagePitchAlignment => 4170u32,
                DeviceInfo::ImageBaseAddressAlignment => 4171u32,
                DeviceInfo::MaxReadWriteImageArgs => 4172u32,
                DeviceInfo::MaxGlobalVariableSize => 4173u32,
                DeviceInfo::QueueOnDeviceProperties => 4174u32,
                DeviceInfo::QueueOnDevicePreferredSize => 4175u32,
                DeviceInfo::QueueOnDeviceMaxSize => 4176u32,
                DeviceInfo::MaxOnDeviceQueues => 4177u32,
                DeviceInfo::MaxOnDeviceEvents => 4178u32,
                DeviceInfo::SvmCapabilities => 4179u32,
                DeviceInfo::GlobalVariablePreferredTotalSize => 4180u32,
                DeviceInfo::MaxPipeArgs => 4181u32,
                DeviceInfo::PipeMaxActiveReservations => 4182u32,
                DeviceInfo::PipeMaxPacketSize => 4183u32,
                DeviceInfo::PreferredPlatformAtomicAlignment => 4184u32,
                DeviceInfo::PreferredGlobalAtomicAlignment => 4185u32,
                DeviceInfo::PreferredLocalAtomicAlignment => 4186u32,
                DeviceInfo::IlVersion => 4187u32,
                DeviceInfo::MaxNumSubGroups => 4188u32,
                DeviceInfo::SubGroupIndependentForwardProgress => 4189u32,
                DeviceInfo::HalfFpConfig => 4147u32,
                DeviceInfo::DriverVersion => 4141u32,
            },
        forall|v: cl_device_info, x: DeviceInfo|
            #[trigger] call_ensures(DeviceInfo::from_cl_value, (v,), x) ==> match v {
                4096u32 => x == DeviceInfo::Type,
                4097u32 => x == DeviceInfo::VendorId,
                4098u32 => x == DeviceInfo::MaxComputeUnits,
                4099u32 => x == DeviceInfo::MaxWorkItemDimensions,
                4100u32 => x == DeviceInfo::MaxWorkGroupSize,
                4101u32 => x == DeviceInfo::MaxWorkItemSizes,
                4102u32 => x == DeviceInfo::PreferredVectorWidthChar,
                4103u32 => x == DeviceInfo::PreferredVectorWidthShort,
                4104u32 => x == DeviceInfo::PreferredVectorWidthInt,
                4105u32 => x == DeviceInfo::PreferredVectorWidthLong,
                4106u32 => x == DeviceInfo::PreferredVectorWidthFloat,
                4107u32 => x == DeviceInfo::PreferredVectorWidthDouble,
                4148u32 => x == DeviceInfo::PreferredVectorWidthHalf,
                4108u32 => x == DeviceInfo::MaxClockFrequency,
                4109u32 => x == DeviceInfo::AddressBits,
                4110u32 => x == DeviceInfo::MaxReadImageArgs,
                4111u32 => x == DeviceInfo::MaxWriteImageArgs,
                4112u32 => x == DeviceInfo::MaxMemAllocSize,
                4113u32 => x == DeviceInfo::Image2DMaxWidth,
                4114u32 => x == DeviceInfo::Image2DMaxHeight,
                4115u32 => x == DeviceInfo::Image3DMaxWidth,
                4116u32 => x == DeviceInfo::Image3DMaxHeight,
                4117u32 => x == DeviceInfo::Image3DMaxDepth,
                4118u32 => x == DeviceInfo::ImageSupport,
                4119u32 => x == DeviceInfo::MaxParameterSize,
                4120u32 => x == DeviceInfo::MaxSamplers,
                4121u32 => x == DeviceInfo::MemBaseAddrAlign,
                4122u32 => x == DeviceInfo::MinDataTypeAlignSize,
                4123u32 => x == DeviceInfo::SingleFpConfig,
                4124u32 => x == DeviceInfo::GlobalMemCacheType,
                4125u32 => x == DeviceInfo::GlobalMemCachelineSize,
                4126u32 => x == DeviceInfo::GlobalMemCacheSize,
                4127u32 => x == DeviceInfo::GlobalMemSize,
                4128u32 => x == DeviceInfo::MaxConstantBufferSize,
                4129u32 => x == DeviceInfo::MaxConstantArgs,
                4130u32 => x == DeviceInfo::LocalMemType,
                4131u32 => x == DeviceInfo::LocalMemSize,
                4132u32 => x == DeviceInfo::ErrorCorrectionSupport,
                4133u32 => x == DeviceInfo::ProfilingTimerResolution,
                4134u32 => x == DeviceInfo::EndianLittle,
                4135u32 => x == DeviceInfo::Available,
                4136u32 => x == DeviceInfo::CompilerAvailable,
                4137u32 => x == DeviceInfo::ExecutionCapabilities,
                4138u32 => x == DeviceInfo::QueueOnHostProperties,
                4139u32 => x == DeviceInfo::Name,
                4140u32 => x == DeviceInfo::Vendor,
                4142u32 => x == DeviceInfo::Profile,
                4143u32 => x == DeviceInfo::Version,
                4144u32 => x == DeviceInfo::Extensions,
                4145u32 => x == DeviceInfo::Platform,
                4146u32 => x == DeviceInfo::DoubleFpConfig,
                4149u32 => x == DeviceInfo::HostUnifiedMemory,
                4150u32 => x == DeviceInfo::NativeVectorWidthChar,
                4151u32 => x == DeviceInfo::NativeVectorWidthShort,
                4152u32 => x == DeviceInfo::NativeVectorWidthInt,
                4153u32 => x == DeviceInfo::NativeVectorWidthLong,
                4154u32 => x == DeviceInfo::NativeVectorWidthFloat,
                4155u32 => x == DeviceInfo::NativeVectorWidthDouble,
                4156u32 => x == DeviceInfo::NativeVectorWidthHalf,
                4157u32 => x == DeviceInfo::OpenclCVersion,
                4158u32 => x == DeviceInfo::LinkerAvailable,
                4159u32 => x == DeviceInfo::BuiltInKernels,
                4160u32 => x == DeviceInfo::ImageMaxBufferSize,
                4161u32 => x == DeviceInfo::ImageMaxArraySize,
                4162u32 => x == DeviceInfo::ParentDevice,
                4163u32 => x == DeviceInfo::PartitionMaxSubDevices,
                4164u32 => x == DeviceInfo::PartitionProperties,
                4165u32 => x == DeviceInfo::PartitionAffinityDomain,
                4166u32 => x == DeviceInfo::PartitionType,
                4167u32 => x == DeviceInfo::ReferenceCount,
                4168u32 => x == DeviceInfo::PreferredInteropUserSync,
                4169u32 => x == DeviceInfo::PrintfBufferSize,
                4170u32 => x == DeviceInfo::ImagePitchAlignment,
                4171u32 => x == DeviceInfo::ImageBaseAddressAlignment,
                4172u32 => x == DeviceInfo::MaxReadWriteImageArgs,
                4173u32 => x == DeviceInfo::MaxGlobalVariableSize,
                4174u32 => x == DeviceInfo::QueueOnDeviceProperties,
                4175u32 => x == DeviceInfo::QueueOnDevicePreferredSize,
                4176u32 => x == DeviceInfo::QueueOnDeviceMaxSize,
                4177u32 => x == DeviceInfo::MaxOnDeviceQueues,
                4178u32 => x == DeviceInfo::MaxOnDeviceEvents,
                4179u32 => x == DeviceInfo::SvmCapabilities,
                4180u32 => x == DeviceInfo::GlobalVariablePreferredTotalSize,
                4181u32 => x == DeviceInfo::MaxPipeArgs,
                4182u32 => x == DeviceInfo::PipeMaxActiveReservations,
                4183u32 => x == DeviceInfo::PipeMaxPacketSize,
                4184u32 => x == DeviceInfo::PreferredPlatformAtomicAlignment,
                4185u32 => x == DeviceInfo::PreferredGlobalAtomicAlignment,
                4186u32 => x == DeviceInfo::PreferredLocalAtomicAlignment,
                4187u32 => x == DeviceInfo::IlVersion,
                4188u32 => x == DeviceInfo::MaxNumSubGroups,
                4189u32 => x == DeviceInfo::SubGroupIndependentForwardProgress,
                4147u32 => x == DeviceInfo::HalfFpConfig,
                4141u32 => x == DeviceInfo::DriverVersion,
                _ => true,
            },
        forall|v: cl_device_info, r: Option<DeviceInfo>|
            #[trigger] call_ensures(DeviceInfo::try_from_cl_value, (v,), r) ==> r == match v {
                4096u32 => Some(DeviceInfo::Type),
                4097u32 => Some(DeviceInfo::VendorId),
                4098u32 => Some(DeviceInfo::MaxComputeUnits),
                4099u32 => Some(DeviceInfo::MaxWorkItemDimensions),
                4100u32 => Some(DeviceInfo::MaxWorkGroupSize),
                4101u32 => Some(DeviceInfo::MaxWorkItemSizes),
                4102u32 => Some(DeviceInfo::PreferredVectorWidthChar),
                4103u32 => Some(DeviceInfo::PreferredVectorWidthShort),
                4104u32 => Some(DeviceInfo::PreferredVectorWidthInt),
                4105u32 => Some(DeviceInfo::PreferredVectorWidthLong),
                4106u32 => Some(DeviceInfo::PreferredVectorWidthFloat),
                4107u32 => Some(DeviceInfo::PreferredVectorWidthDouble),
                4148u32 => Some(DeviceInfo::PreferredVectorWidthHalf),
                4108u32 => Some(DeviceInfo::MaxClockFrequency),
                4109u32 => Some(DeviceInfo::AddressBits),
                4110u32 => Some(DeviceInfo::MaxReadImageArgs),
                4111u32 => Some(DeviceInfo::MaxWriteImageArgs),
                4112u32 => Some(DeviceInfo::MaxMemAllocSize),
                4113u32 => Some(DeviceInfo::Image2DMaxWidth),
                4114u32 => Some(DeviceInfo::Image2DMaxHeight),
                4115u32 => Some(DeviceInfo::Image3DMaxWidth),
                4116u32 => Some(DeviceInfo::Image3DMaxHeight),
                4117u32 => Some(DeviceInfo::Image3DMaxDepth),
                4118u32 => Some(DeviceInfo::ImageSupport),
                4119u32 => Some(DeviceInfo::MaxParameterSize),
                4120u32 => Some(DeviceInfo::MaxSamplers),
                4121u32 => Some(DeviceInfo::MemBaseAddrAlign),
                4122u32 => Some(DeviceInfo::MinDataTypeAlignSize),
                4123u32 => Some(DeviceInfo::SingleFpConfig),
                4124u32 => Some(DeviceInfo::GlobalMemCacheType),
                4125u32 => Some(DeviceInfo::GlobalMemCachelineSize),
                4126u32 => Some(DeviceInfo::GlobalMemCacheSize),
                4127u32 => Some(DeviceInfo::GlobalMemSize),
                4128u32 => Some(DeviceInfo::MaxConstantBufferSize),
                4129u32 => Some(DeviceInfo::MaxConstantArgs),
                4130u32 => Some(DeviceInfo::LocalMemType),
                4131u32 => Some(DeviceInfo::LocalMemSize),
                4132u32 => Some(DeviceInfo::ErrorCorrectionSupport),
                4133u32 => Some(DeviceInfo::ProfilingTimerResolution),
                4134u32 => Some(DeviceInfo::EndianLittle),
                4135u32 => Some(DeviceInfo::Available),
                4136u32 => Some(DeviceInfo::CompilerAvailable),
                4137u32 => Some(DeviceInfo::ExecutionCapabilities),
                4138u32 => Some(DeviceInfo::QueueOnHostProperties),
                4139u32 => Some(DeviceInfo::Name),
                4140u32 => Some(DeviceInfo::Vendor),
                4142u32 => Some(DeviceInfo::Profile),
                4143u32 => Some(DeviceInfo::Version),
                4144u32 => Some(DeviceInfo::Extensions),
                4145u32 => Some(DeviceInfo::Platform),
                4146u32 => Some(DeviceInfo::DoubleFpConfig),
                4149u32 => Some(DeviceInfo::HostUnifiedMemory),
                4150u32 => Some(DeviceInfo::NativeVectorWidthChar),
                4151u32 => Some(DeviceInfo::NativeVectorWidthShort),
                4152u32 => Some(DeviceInfo::NativeVectorWidthInt),
                4153u32 => Some(DeviceInfo::NativeVectorWidthLong),
                4154u32 => Some(DeviceInfo::NativeVectorWidthFloat),
                4155u32 => Some(DeviceInfo::NativeVectorWidthDouble),
                4156u32 => Some(DeviceInfo::NativeVectorWidthHalf),
                4157u32 => Some(DeviceInfo::OpenclCVersion),
                4158u32 => Some(DeviceInfo::LinkerAvailable),
                4159u32 => Some(DeviceInfo::BuiltInKernels),
                4160u32 => Some(DeviceInfo::ImageMaxBufferSize),
                4161u32 => Some(DeviceInfo::ImageMaxArraySize),
                4162u32 => Some(DeviceInfo::ParentDevice),
                4163u32 => Some(DeviceInfo::PartitionMaxSubDevices),
                4164u32 => Some(DeviceInfo::PartitionProperties),
                4165u32 => Some(DeviceInfo::PartitionAffinityDomain),
                4166u32 => Some(DeviceInfo::PartitionType),
                4167u32 => Some(DeviceInfo::ReferenceCount),
                4168u32 => Some(DeviceInfo::PreferredInteropUserSync),
                4169u32 => Some(DeviceInfo::PrintfBufferSize),
                4170u32 => Some(DeviceInfo::ImagePitchAlignment),
                4171u32 => Some(DeviceInfo::ImageBaseAddressAlignment),
                4172u32 => Some(DeviceInfo::MaxReadWriteImageArgs),
                4173u32 => Some(DeviceInfo::MaxGlobalVariableSize),
                4174u32 => Some(DeviceInfo::QueueOnDeviceProperties),
                4175u32 => Some(DeviceInfo::QueueOnDevicePreferredSize),
                4176u32 => Some(DeviceInfo::QueueOnDeviceMaxSize),
                4177u32 => Some(DeviceInfo::MaxOnDeviceQueues),
                4178u32 => Some(DeviceInfo::MaxOnDeviceEvents),
                4179u32 => Some(DeviceInfo::SvmCapabilities),
                4180u32 => Some(DeviceInfo::GlobalVariablePreferredTotalSize),
                4181u32 => Some(DeviceInfo::MaxPipeArgs),
                4182u32 => Some(DeviceInfo::PipeMaxActiveReservations),
                4183u32 => Some(DeviceInfo::PipeMaxPacketSize),
                4184u32 => Some(DeviceInfo::PreferredPlatformAtomicAlignment),
                4185u32 => Some(DeviceInfo::PreferredGlobalAtomicAlignment),
                4186u32 => Some(DeviceInfo::PreferredLocalAtomicAlignment),
                4187u32 => Some(DeviceInfo::IlVersion),
                4188u32 => Some(DeviceInfo::MaxNumSubGroups),
                4189u32 => Some(DeviceInfo::SubGroupIndependentForwardProgress),
                4147u32 => Some(DeviceInfo::HalfFpConfig),
                4141u32 => Some(DeviceInfo::DriverVersion),
                _ => None,
            },
{
}

/// Each variant of `DeviceLocalMemType` converts to the OpenCL constant it names; `from_cl_value` gives
/// back the variant of each constant, and `try_from_cl_value` gives it back for the
/// constants and nothing for any other value.
pub proof fn lemma_device_local_mem_type_cl_values()
    ensures
        forall|x: DeviceLocalMemType, v: cl_device_local_mem_type|
            #[trigger] call_ensures(<cl_device_local_mem_type as From<DeviceLocalMemType>>::from, (x,), v) ==> v == match x {
                DeviceLocalMemType::Local => 1u32,
                DeviceLocalMemType::Global => 2u32,
            },
        forall|v: cl_device_local_mem_type, x: DeviceLocalMemType|
            #[trigger] call_ensures(DeviceLocalMemType::from_cl_value, (v,), x) ==> match v {
                1u32 => x == DeviceLocalMemType::Local,
                2u32 => x == DeviceLocalMemType::Global,
                _ => true,
            },
        forall|v: cl_device_local_mem_type, r: Option<DeviceLocalMemType>|
            #[trigger] call_ensures(DeviceLocalMemType::try_from_cl_value, (v,), r) ==> r == match v {
                1u32 => Some(DeviceLocalMemType::Local),
                2u32 => Some(DeviceLocalMemType::Global),
                _ => None,
            },
{
}

/// Each variant of `DeviceMemCacheType` converts to the OpenCL constant it names; `from_cl_value` gives
/// back the variant of each constant, and `try_from_cl_value` gives it back for the
/// constants and nothing for any other value.
pub proof fn lemma_device_mem_cache_type_cl_values()
    ensures
        forall|x: DeviceMemCacheType, v: cl_device_mem_cache_type|
            #[trigger] call_ensures(<cl_device_mem_cache_type as From<DeviceMemCacheType>>::from, (x,), v) ==> v == match x {
                DeviceMemCacheType::NoneType => 0u32,
                DeviceMemCacheType::ReadOnlyCache => 1u32,
                DeviceMemCacheType::ReadWriteCache => 2u32,
            },
        forall|v: cl_device_mem_cache_type, x: DeviceMemCacheType|
            #[trigger] call_ensures(DeviceMemCacheType::from_cl_value, (v,), x) ==> match v {
                0u32 => x == DeviceMemCacheType::NoneType,
                1u32 => x == DeviceMemCacheType::ReadOnlyCache,
                2u32 => x == DeviceMemCacheType::ReadWriteCache,
                _ => true,
            },
        forall|v: cl_device_mem_cache_type, r: Option<DeviceMemCacheType>|
            #[trigger] call_ensures(DeviceMemCacheType::try_from_cl_value, (v,), r) ==> r == match v {
                0u32 => Some(DeviceMemCacheType::NoneType),
                1u32 => Some(DeviceMemCacheType::ReadOnlyCache),
                2u32 => Some(DeviceMemCacheType::ReadWriteCache),
                _ => None,
            },
{
}

/// Each variant of `DevicePartitionProperty` converts to the OpenCL constant it names; `from_cl_value` gives
/// back the variant of each constant, and `try_from_cl_value` gives it back for the
/// constants and nothing for any other value.
pub proof fn lemma_device_partition_property_cl_values()
    ensures
        forall|x: DevicePartitionProperty, v: cl_device_partition_property|
            #[trigger] call_ensures(<cl_device_partition_property as From<DevicePartitionProperty>>::from, (x,), v) ==> v == match x {
                DevicePartitionProperty::Equally => 4230isize,
                DevicePartitionProperty::ByCounts => 4231isize,
                DevicePartitionProperty::ByAffinityDomain => 4232isize,
            },
        forall|v: cl_device_partition_property, x: DevicePartitionProperty|
            #[trigger] call_ensures(DevicePartitionProperty::from_cl_value, (v,), x) ==> match v {
                4230isize => x == DevicePartitionProperty::Equally,
                4231isize => x == DevicePartitionProperty::ByCounts,
                4232isize => x == DevicePartitionProperty::ByAffinityDomain,
                _ => true,
            },
        forall|v: cl_device_partition_property, r: Option<DevicePartitionProperty>|
            #[trigger] call_ensures(DevicePartitionProperty::try_from_cl_value, (v,), r) ==> r == match v {
                4230isize => Some(DevicePartitionProperty::Equally),
                4231isize => Some(DevicePartitionProperty::ByCounts),
                4232isize => Some(DevicePartitionProperty::ByAffinityDomain),
                _ => None,
            },
{
}

/// Each variant of `ContextInfo` converts to the OpenCL constant it names; `from_cl_value` gives
/// back the variant of each constant, and `try_from_cl_value` gives it back for the
/// constants and nothing for any other value.
pub proof fn lemma_context_info_cl_values()
    ensures
        forall|x: ContextInfo, v: cl_context_info|
            #[trigger] call_ensures(<cl_context_info as From<ContextInfo>>::from, (x,), v) ==> v == match x {
                ContextInfo::ReferenceCount => 4224u32,
                ContextInfo::Devices => 4225u32,
                ContextInfo::Properties => 4226u32,
                ContextInfo::NumDevices => 4227u32,
            },
        forall|v: cl_context_info, x: ContextInfo|
            #[trigger] call_ensures(ContextInfo::from_cl_value, (v,), x) ==> match v {
                4224u32 => x == ContextInfo::ReferenceCount,
                4225u32 => x == ContextInfo::Devices,
                4226u32 => x == ContextInfo::Properties,
                4227u32 => x == ContextInfo::NumDevices,
                _ => true,
            },
        forall|v: cl_context_info, r: Option<ContextInfo>|
            #[trigger] call_ensures(ContextInfo::try_from_cl_value, (v,), r) ==> r == match v {
                4224u32 => Some(ContextInfo::ReferenceCount),
                4225u32 => Some(ContextInfo::Devices),
                4226u32 => Some(ContextInfo::Properties),
                4227u32 => Some(ContextInfo::NumDevices),
                _ => None,
            },
{
}

/// Each variant of `ContextProperties` converts to the OpenCL constant it names; `from_cl_value` gives
/// back the variant of each constant, and `try_from_cl_value` gives it back for the
/// constants and nothing for any other value.
pub proof fn lemma_context_properties_cl_values()
    ensures
        forall|x: ContextProperties, v: cl_context_properties|
            #[trigger] call_ensures(<cl_context_properties as From<ContextProperties>>::from, (x,), v) ==> v == match x {
                ContextProperties::Platform => 4228isize,
                ContextProperties::InteropUserSync => 4229isize,
            },
        forall|v: cl_context_properties, x: ContextProperties|
            #[trigger] call_ensures(ContextProperties::from_cl_value, (v,), x) ==> match v {
                4228isize => x == ContextProperties::Platform,
                4229isize => x == ContextProperties::InteropUserSync,
                _ => true,
            },
        forall|v: cl_context_properties, r: Option<ContextProperties>|
            #[trigger] call_ensures(ContextProperties::try_from_cl_value, (v,), r) ==> r == match v {
                4228isize => Some(ContextProperties::Platform),
                4229isize => Some(ContextProperties::InteropUserSync),
                _ => None,
            },
{
}

/// Each variant of `ProgramBuildInfo` converts to the OpenCL constant it names; `from_cl_value` gives
/// back the variant of each constant, and `try_from_cl_value` gives it back for the
/// constants and nothing for any other value.
pub proof fn lemma_program_build_info_cl_values()
    ensures
        forall|x: ProgramBuildInfo, v: cl_program_build_info|
            #[trigger] call_ensures(<cl_program_build_info as From<ProgramBuildInfo>>::from, (x,), v) ==> v == match x {
                ProgramBuildInfo::Status => 4481u32,
                ProgramBuildInfo::Options => 4482u32,
                ProgramBuildInfo::Log => 4483u32,
                ProgramBuildInfo::GlobalVariableTotalSize => 4485u32,
            },
        forall|v: cl_program_build_info, x: ProgramBuildInfo|
            #[trigger] call_ensures(ProgramBuildInfo::from_cl_value, (v,), x) ==> match v {
                4481u32 => x == ProgramBuildInfo::Status,
                4482u32 => x == ProgramBuildInfo::Options,
                4483u32 => x == ProgramBuildInfo::Log,
                4485u32 => x == ProgramBuildInfo::GlobalVariableTotalSize,
                _ => true,
            },
        forall|v: cl_program_build_info, r: Option<ProgramBuildInfo>|
            #[trigger] call_ensures(ProgramBuildInfo::try_from_cl_value, (v,), r) ==> r == match v {
                4481u32 => Some(ProgramBuildInfo::Status),
                4482u32 => Some(ProgramBuildInfo::Options),
                4483u32 => Some(ProgramBuildInfo::Log),
                4485u32 => Some(ProgramBuildInfo::GlobalVariableTotalSize),
                _ => None,
            },
{
}

/// Each variant of `ProgramInfo` converts to the OpenCL constant it names; `from_cl_value` gives
/// back the variant of each constant, and `try_from_cl_value` gives it back for the
/// constants and nothing for any other value.
pub proof fn lemma_program_info_cl_values()
    ensures
        forall|x: ProgramInfo, v: cl_program_info|
            #[trigger] call_ensures(<cl_program_info as From<ProgramInfo>>::from, (x,), v) ==> v == match x {
                ProgramInfo::ReferenceCount => 4448u32,
                ProgramInfo::Context => 4449u32,
                ProgramInfo::NumDevices => 4450u32,
                ProgramInfo::Devices => 4451u32,
                ProgramInfo::Source => 4452u32,
                ProgramInfo::BinarySizes => 4453u32,
                ProgramInfo::Binaries => 4454u32,
                ProgramInfo::NumKernels => 4455u32,
                ProgramInfo::KernelNames => 4456u32,
            },
        forall|v: cl_program_info, x: ProgramInfo|
            #[trigger] call_ensures(ProgramInfo::from_cl_value, (v,), x) ==> match v {
                4448u32 => x == ProgramInfo::ReferenceCount,
                4449u32 => x == ProgramInfo::Context,
                4450u32 => x == ProgramInfo::NumDevices,
                4451u32 => x == ProgramInfo::Devices,
                4452u32 => x == ProgramInfo::Source,
                4453u32 => x == ProgramInfo::BinarySizes,
                4454u32 => x == ProgramInfo::Binaries,
                4455u32 => x == ProgramInfo::NumKernels,
                4456u32 => x == ProgramInfo::KernelNames,
                _ => true,
            },
        forall|v: cl_program_info, r: Option<ProgramInfo>|
            #[trigger] call_ensures(ProgramInfo::try_from_cl_value, (v,), r) ==> r == match v {
                4448u32 => Some(ProgramInfo::ReferenceCount),
                4449u32 => Some(ProgramInfo::Context),
                4450u32 => Some(ProgramInfo::NumDevices),
                4451u32 => Some(ProgramInfo::Devices),
                4452u32 => Some(ProgramInfo::Source),
                4453u32 => Some(ProgramInfo::BinarySizes),
                4454u32 => Some(ProgramInfo::Binaries),
                4455u32 => Some(ProgramInfo::NumKernels),
                4456u32 => Some(ProgramInfo::KernelNames),
                _ => None,
            },
{
}

/// Each variant of `BuildStatus` converts to the OpenCL constant it names; `from_cl_value` gives
/// back the variant of each constant, and `try_from_cl_value` gives it back for the
/// constants and nothing for any other value.
pub proof fn lemma_build_status_cl_values()
    ensures
        forall|x: BuildStatus, v: cl_build_status|
            #[trigger] call_ensures(<cl_build_status as From<BuildStatus>>::from, (x,), v) ==> v == match x {
                BuildStatus::Success => 0i32,
                BuildStatus::NoneType => -1i32,
                BuildStatus::Error => -2i32,
                BuildStatus::InProgress => -3i32,
            },
        forall|v: cl_build_status, x: BuildStatus|
            #[trigger] call_ensures(BuildStatus::from_cl_value, (v,), x) ==> match v {
                0i32 => x == BuildStatus::Success,
                -1i32 => x == BuildStatus::NoneType,
                -2i32 => x == BuildStatus::Error,
                -3i32 => x == BuildStatus::InProgress,
                _ => true,
            },
        forall|v: cl_build_status, r: Option<BuildStatus>|
            #[trigger] call_ensures(BuildStatus::try_from_cl_value, (v,), r) ==> r == match v {
                0i32 => Some(BuildStatus::Success),
                -1i32 => Some(BuildStatus::NoneType),
                -2i32 => Some(BuildStatus::Error),
                -3i32 => Some(BuildStatus::InProgress),
                _ => None,
            },
{
}

/// Each variant of `ProgramBinaryType` converts to the OpenCL constant it names; `from_cl_value` gives
/// back the variant of each constant, and `try_from_cl_value` gives it back for the
/// constants and nothing for any other value.
pub proof fn lemma_program_binary_type_cl_values()
    ensures
        forall|x: ProgramBinaryType, v: cl_program_binary_type|
            #[trigger] call_ensures(<cl_program_binary_type as From<ProgramBinaryType>>::from, (x,), v) ==> v == match x {
                ProgramBinaryType::NoneType => 0u32,
                ProgramBinaryType::CompiledObject => 1u32,
                ProgramBinaryType::Library => 2u32,
                ProgramBinaryType::Executable => 4u32,
            },
        forall|v: cl_program_binary_type, x: ProgramBinaryType|
            #[trigger] call_ensures(ProgramBinaryType::from_cl_value, (v,), x) ==> match v {
                0u32 => x == ProgramBinaryType::NoneType,
                1u32 => x == ProgramBinaryType::CompiledObject,
                2u32 => x == ProgramBinaryType::Library,
                4u32 => x == ProgramBinaryType::Executable,
                _ => true,
            },
        forall|v: cl_program_binary_type, r: Option<ProgramBinaryType>|
            #[trigger] call_ensures(ProgramBinaryType::try_from_cl_value, (v,), r) ==> r == match v {
                0u32 => Some(ProgramBinaryType::NoneType),
                1u32 => Some(ProgramBinaryType::CompiledObject),
                2u32 => Some(ProgramBinaryType::Library),
                4u32 => Some(ProgramBinaryType::Executable),
                _ => None,
            },
{
}

/// Each variant of `MemMigrationFlags` converts to the OpenCL constant it names; `from_cl_value` gives
/// back the variant of each constant, and `try_from_cl_value` gives it back for the
/// constants and nothing for any other value.
pub proof fn lemma_mem_migration_flags_cl_values()
    ensures
        forall|x: MemMigrationFlags, v: cl_mem_migration_flags|
            #[trigger] call_ensures(<cl_mem_migration_flags as From<MemMigrationFlags>>::from, (x,), v) ==> v == match x {
                MemMigrationFlags::Host => 1u64,
                MemMigrationFlags::ContentUndefined => 2u64,
            },
        forall|v: cl_mem_migration_flags, x: MemMigrationFlags|
            #[trigger] call_ensures(MemMigrationFlags::from_cl_value, (v,), x) ==> match v {
                1u64 => x == MemMigrationFlags::Host,
                2u64 => x == MemMigrationFlags::ContentUndefined,
                _ => true,
            },
        forall|v: cl_mem_migration_flags, r: Option<MemMigrationFlags>|
            #[trigger] call_ensures(MemMigrationFlags::try_from_cl_value, (v,), r) ==> r == match v {
                1u64 => Some(MemMigrationFlags::Host),
                2u64 => Some(MemMigrationFlags::ContentUndefined),
                _ => None,
            },
{
}

/// Each variant of `MemObjectType` converts to the OpenCL constant it names; `from_cl_value` gives
/// back the variant of each constant, and `try_from_cl_value` gives it back for the
/// constants and nothing for any other value.
pub proof fn lemma_mem_object_type_cl_values()
    ensures
        forall|x: MemObjectType, v: cl_mem_object_type|
            #[trigger] call_ensures(<cl_mem_object_type as From<MemObjectType>>::from, (x,), v) ==> v == match x {
                MemObjectType::Buffer => 4336u32,
                MemObjectType::Image2D => 4337u32,
                MemObjectType::Image3D => 4338u32,
                MemObjectType::Image2DArray => 4339u32,
                MemObjectType::Image1D => 4340u32,
                MemObjectType::Image1DArray => 4341u32,
                MemObjectType::Image1DBuffer => 4342u32,
                MemObjectType::Pipe => 4343u32,
            },
        forall|v: cl_mem_object_type, x: MemObjectType|
            #[trigger] call_ensures(MemObjectType::from_cl_value, (v,), x) ==> match v {
                4336u32 => x == MemObjectType::Buffer,
                4337u32 => x == MemObjectType::Image2D,
                4338u32 => x == MemObjectType::Image3D,
                4339u32 => x == MemObjectType::Image2DArray,
                4340u32 => x == MemObjectType::Image1D,
                4341u32 => x == MemObjectType::Image1DArray,
                4342u32 => x == MemObjectType::Image1DBuffer,
                4343u32 => x == MemObjectType::Pipe,
                _ => true,
            },
        forall|v: cl_mem_object_type, r: Option<MemObjectType>|
            #[trigger] call_ensures(MemObjectType::try_from_cl_value, (v,), r) ==> r == match v {
                4336u32 => Some(MemObjectType::Buffer),
                4337u32 => Some(MemObjectType::Image2D),
                4338u32 => Some(MemObjectType::Image3D),
                4339u32 => Some(MemObjectType::Image2DArray),
                4340u32 => Some(MemObjectType::Image1D),
                4341u32 => Some(MemObjectType::Image1DArray),
                4342u32 => Some(MemObjectType::Image1DBuffer),
                4343u32 => Some(MemObjectType::Pipe),
                _ => None,
            },
{
}

/// Each variant of `MemInfo` converts to the OpenCL constant it names; `from_cl_value` gives
/// back the variant of each constant, and `try_from_cl_value` gives it back for the
/// constants and nothing for any other value.
pub proof fn lemma_mem_info_cl_values()
    ensures
        forall|x: MemInfo, v: cl_mem_info|
            #[trigger] call_ensures(<cl_mem_info as From<MemInfo>>::from, (x,), v) ==> v == match x {
                MemInfo::Type => 4352u32,
                MemInfo::Flags => 4353u32,
                MemInfo::Size => 4354u32,
                MemInfo::HostPtr => 4355u32,
                MemInfo::MapCount => 4356u32,
                MemInfo::ReferenceCount => 4357u32,
                MemInfo::Context => 4358u32,
                MemInfo::AssociatedMemobject => 4359u32,
                MemInfo::Offset => 4360u32,
            },
        forall|v: cl_mem_info, x: MemInfo|
            #[trigger] call_ensures(MemInfo::from_cl_value, (v,), x) ==> match v {
                4352u32 => x == MemInfo::Type,
                4353u32 => x == MemInfo::Flags,
                4354u32 => x == MemInfo::Size,
                4355u32 => x == MemInfo::HostPtr,
                4356u32 => x == MemInfo::MapCount,
                4357u32 => x == MemInfo::ReferenceCount,
                4358u32 => x == MemInfo::Context,
                4359u32 => x == MemInfo::AssociatedMemobject,
                4360u32 => x == MemInfo::Offset,
                _ => true,
            },
        forall|v: cl_mem_info, r: Option<MemInfo>|
            #[trigger] call_ensures(MemInfo::try_from_cl_value, (v,), r) ==> r == match v {
                4352u32 => Some(MemInfo::Type),
                4353u32 => Some(MemInfo::Flags),
                4354u32 => Some(MemInfo::Size),
                4355u32 => Some(MemInfo::HostPtr),
                4356u32 => Some(MemInfo::MapCount),
                4357u32 => Some(MemInfo::ReferenceCount),
                4358u32 => Some(MemInfo::Context),
                4359u32 => Some(MemInfo::AssociatedMemobject),
                4360u32 => Some(MemInfo::Offset),
                _ => None,
            },
{
}

/// Each variant of `BufferCreateType` converts to the OpenCL constant it names; `from_cl_value` gives
/// back the variant of each constant, and `try_from_cl_value` gives it back for the
/// constants and nothing for any other value.
pub proof fn lemma_buffer_create_type_cl_values()
    ensures
        forall|x: BufferCreateType, v: cl_buffer_create_type|
            #[trigger] call_ensures(<cl_buffer_create_type as From<BufferCreateType>>::from, (x,), v) ==> v == match x {
                BufferCreateType::CreateTypeRegion => 4640u32,
            },
        forall|v: cl_buffer_create_type, x: BufferCreateType|
            #[trigger] call_ensures(BufferCreateType::from_cl_value, (v,), x) ==> match v {
                4640u32 => x == BufferCreateType::CreateTypeRegion,
                _ => true,
            },
        forall|v: cl_buffer_create_type, r: Option<BufferCreateType>|
            #[trigger] call_ensures(BufferCreateType::try_from_cl_value, (v,), r) ==> r == match v {
                4640u32 => Some(BufferCreateType::CreateTypeRegion),
                _ => None,
            },
{
}

/// Each variant of `KernelInfo` converts to the OpenCL constant it names; `from_cl_value` gives
/// back the variant of each constant, and `try_from_cl_value` gives it back for the
/// constants and nothing for any other value.
pub proof fn lemma_kernel_info_cl_values()
    ensures
        forall|x: KernelInfo, v: cl_kernel_info|
            #[trigger] call_ensures(<cl_kernel_info as From<KernelInfo>>::from, (x,), v) ==> v == match x {
                KernelInfo::FunctionName => 4496u32,
                KernelInfo::NumArgs => 4497u32,
                KernelInfo::ReferenceCount => 4498u32,
                KernelInfo::Context => 4499u32,
                KernelInfo::Program => 4500u32,
                KernelInfo::Attributes => 4501u32,
            },
        forall|v: cl_kernel_info, x: KernelInfo|
            #[trigger] call_ensures(KernelInfo::from_cl_value, (v,), x) ==> match v {
                4496u32 => x == KernelInfo::FunctionName,
                4497u32 => x == KernelInfo::NumArgs,
                4498u32 => x == KernelInfo::ReferenceCount,
                4499u32 => x == KernelInfo::Context,
                4500u32 => x == KernelInfo::Program,
                4501u32 => x == KernelInfo::Attributes,
                _ => true,
            },
        forall|v: cl_kernel_info, r: Option<KernelInfo>|
            #[trigger] call_ensures(KernelInfo::try_from_cl_value, (v,), r) ==> r == match v {
                4496u32 => Some(KernelInfo::FunctionName),
                4497u32 => Some(KernelInfo::NumArgs),
                4498u32 => Some(KernelInfo::ReferenceCount),
                4499u32 => Some(KernelInfo::Context),
                4500u32 => Some(KernelInfo::Program),
                4501u32 => Some(KernelInfo::Attributes),
                _ => None,
            },
{
}

/// Each variant of `KernelWorkGroupInfo` converts to the OpenCL constant it names; `from_cl_value` gives
/// back the variant of each constant, and `try_from_cl_value` gives it back for the
/// constants and nothing for any other value.
pub proof fn lemma_kernel_work_group_info_cl_values()
    ensures
        forall|x: KernelWorkGroupInfo, v: cl_kernel_work_group_info|
            #[trigger] call_ensures(<cl_kernel_work_group_info as From<KernelWorkGroupInfo>>::from, (x,), v) ==> v == match x {
                KernelWorkGroupInfo::WorkGroupSize => 4528u32,
                KernelWorkGroupInfo::CompileWorkGroupSize => 4529u32,
                KernelWorkGroupInfo::LocalMemSize => 4530u32,
                KernelWorkGroupInfo::PreferredWorkGroupSizeMultiple => 4531u32,
                KernelWorkGroupInfo::PrivateMemSize => 4532u32,
                KernelWorkGroupInfo::GlobalWorkSize => 4533u32,
            },
        forall|v: cl_kernel_work_group_info, x: KernelWorkGroupInfo|
            #[trigger] call_ensures(KernelWorkGroupInfo::from_cl_value, (v,), x) ==> match v {
                4528u32 => x == KernelWorkGroupInfo::WorkGroupSize,
                4529u32 => x == KernelWorkGroupInfo::CompileWorkGroupSize,
                4530u32 => x == KernelWorkGroupInfo::LocalMemSize,
                4531u32 => x == KernelWorkGroupInfo::PreferredWorkGroupSizeMultiple,
                4532u32 => x == KernelWorkGroupInfo::PrivateMemSize,
                4533u32 => x == KernelWorkGroupInfo::GlobalWorkSize,
                _ => true,
            },
        forall|v: cl_kernel_work_group_info, r: Option<KernelWorkGroupInfo>|
            #[trigger] call_ensures(KernelWorkGroupInfo::try_from_cl_value, (v,), r) ==> r == match v {
                4528u32 => Some(KernelWorkGroupInfo::WorkGroupSize),
                4529u32 => Some(KernelWorkGroupInfo::CompileWorkGroupSize),
                4530u32 => Some(KernelWorkGroupInfo::LocalMemSize),
                4531u32 => Some(KernelWorkGroupInfo::PreferredWorkGroupSizeMultiple),
                4532u32 => Some(KernelWorkGroupInfo::PrivateMemSize),
                4533u32 => Some(KernelWorkGroupInfo::GlobalWorkSize),
                _ => None,
            },
{
}

/// Each variant of `KernelArgAccessQualifier` converts to the OpenCL constant it names; `from_cl_value` gives
/// back the variant of each constant, and `try_from_cl_value` gives it back for the
/// constants and nothing for any other value.
pub proof fn lemma_kernel_arg_access_qualifier_cl_values()
    ensures
        forall|x: KernelArgAccessQualifier, v: cl_kernel_arg_access_qualifier|
            #[trigger] call_ensures(<cl_kernel_arg_access_qualifier as From<KernelArgAccessQualifier>>::from, (x,), v) ==> v == match x {
                KernelArgAccessQualifier::ReadOnly => 4512u32,
                KernelArgAccessQualifier::WriteOnly => 4513u32,
                KernelArgAccessQualifier::ReadWrite => 4514u32,
                KernelArgAccessQualifier::NoneType => 4515u32,
            },
        forall|v: cl_kernel_arg_access_qualifier, x: KernelArgAccessQualifier|
            #[trigger] call_ensures(KernelArgAccessQualifier::from_cl_value, (v,), x) ==> match v {
                4512u32 => x == KernelArgAccessQualifier::ReadOnly,
                4513u32 => x == KernelArgAccessQualifier::WriteOnly,
                4514u32 => x == KernelArgAccessQualifier::ReadWrite,
                4515u32 => x == KernelArgAccessQualifier::NoneType,
                _ => true,
            },
        forall|v: cl_kernel_arg_access_qualifier, r: Option<KernelArgAccessQualifier>|
            #[trigger] call_ensures(KernelArgAccessQualifier::try_from_cl_value, (v,), r) ==> r == match v {
                4512u32 => Some(KernelArgAccessQualifier::ReadOnly),
                4513u32 => Some(KernelArgAccessQualifier::WriteOnly),
                4514u32 => Some(KernelArgAccessQualifier::ReadWrite),
                4515u32 => Some(KernelArgAccessQualifier::NoneType),
                _ => None,
            },
{
}

/// Each variant of `KernelArgTypeQualifier` converts to the OpenCL constant it names; `from_cl_value` gives
/// back the variant of each constant, and `try_from_cl_value` gives it back for the
/// constants and nothing for any other value.
pub proof fn lemma_kernel_arg_type_qualifier_cl_values()
    ensures
        forall|x: KernelArgTypeQualifier, v: cl_kernel_arg_type_qualifier|
            #[trigger] call_ensures(<cl_kernel_arg_type_qualifier as From<KernelArgTypeQualifier>>::from, (x,), v) ==> v == match x {
                KernelArgTypeQualifier::NoneType => 0u32,
                KernelArgTypeQualifier::Const => 1u32,
                KernelArgTypeQualifier::Restrict => 2u32,
                KernelArgTypeQualifier::Volatile => 4u32,
                KernelArgTypeQualifier::Pipe => 8u32,
            },
        forall|v: cl_kernel_arg_type_qualifier, x: KernelArgTypeQualifier|
            #[trigger] call_ensures(KernelArgTypeQualifier::from_cl_value, (v,), x) ==> match v {
                0u32 => x == KernelArgTypeQualifier::NoneType,
                1u32 => x == KernelArgTypeQualifier::Const,
                2u32 => x == KernelArgTypeQualifier::Restrict,
                4u32 => x == KernelArgTypeQualifier::Volatile,
                8u32 => x == KernelArgTypeQualifier::Pipe,
                _ => true,
            },
        forall|v: cl_kernel_arg_type_qualifier, r: Option<KernelArgTypeQualifier>|
            #[trigger] call_ensures(KernelArgTypeQualifier::try_from_cl_value, (v,), r) ==> r == match v {
                0u32 => Some(KernelArgTypeQualifier::NoneType),
                1u32 => Some(KernelArgTypeQualifier::Const),
                2u32 => Some(KernelArgTypeQualifier::Restrict),
                4u32 => Some(KernelArgTypeQualifier::Volatile),
                8u32 => Some(KernelArgTypeQualifier::Pipe),
                _ => None,
            },
{
}

/// Each variant of `KernelArgAddressQualifier` converts to the OpenCL constant it names; `from_cl_value` gives
/// back the variant of each constant, and `try_from_cl_value` gives it back for the
/// constants and nothing for any other value.
pub proof fn lemma_kernel_arg_address_qualifier_cl_values()
    ensures
        forall|x: KernelArgAddressQualifier, v: cl_kernel_arg_address_qualifier|
            #[trigger] call_ensures(<cl_kernel_arg_address_qualifier as From<KernelArgAddressQualifier>>::from, (x,), v) ==> v == match x {
                KernelArgAddressQualifier::Global => 4507u32,
                KernelArgAddressQualifier::Local => 4508u32,
                KernelArgAddressQualifier::Constant => 4509u32,
                KernelArgAddressQualifier::Private => 4510u32,
            },
        forall|v: cl_kernel_arg_address_qualifier, x: KernelArgAddressQualifier|
            #[trigger] call_ensures(KernelArgAddressQualifier::from_cl_value, (v,), x) ==> match v {
                4507u32 => x == KernelArgAddressQualifier::Global,
                4508u32 => x == KernelArgAddressQualifier::Local,
                4509u32 => x == KernelArgAddressQualifier::Constant,
                4510u32 => x == KernelArgAddressQualifier::Private,
                _ => true,
            },
        forall|v: cl_kernel_arg_address_qualifier, r: Option<KernelArgAddressQualifier>|
            #[trigger] call_ensures(KernelArgAddressQualifier::try_from_cl_value, (v,), r) ==> r == match v {
                4507u32 => Some(KernelArgAddressQualifier::Global),
                4508u32 => Some(KernelArgAddressQualifier::Local),
                4509u32 => Some(KernelArgAddressQualifier::Constant),
                4510u32 => Some(KernelArgAddressQualifier::Private),
                _ => None,
            },
{
}

/// Each variant of `KernelArgInfo` converts to the OpenCL constant it names; `from_cl_value` gives
/// back the variant of each constant, and `try_from_cl_value` gives it back for the
/// constants and nothing for any other value.
pub proof fn lemma_kernel_arg_info_cl_values()
    ensures
        forall|x: KernelArgInfo, v: cl_kernel_arg_info|
            #[trigger] call_ensures(<cl_kernel_arg_info as From<KernelArgInfo>>::from, (x,), v) ==> v == match x {
                KernelArgInfo::AddressQualifier => 4502u32,
                KernelArgInfo::AccessQualifier => 4503u32,
                KernelArgInfo::TypeName => 4504u32,
                KernelArgInfo::TypeQualifier => 4505u32,
                KernelArgInfo::Name => 4506u32,
            },
        forall|v: cl_kernel_arg_info, x: KernelArgInfo|
            #[trigger] call_ensures(KernelArgInfo::from_cl_value, (v,), x) ==> match v {
                4502u32 => x == KernelArgInfo::AddressQualifier,
                4503u32 => x == KernelArgInfo::AccessQualifier,
                4504u32 => x == KernelArgInfo::TypeName,
                4505u32 => x == KernelArgInfo::TypeQualifier,
                4506u32 => x == KernelArgInfo::Name,
                _ => true,
            },
        forall|v: cl_kernel_arg_info, r: Option<KernelArgInfo>|
            #[trigger] call_ensures(KernelArgInfo::try_from_cl_value, (v,), r) ==> r == match v {
                4502u32 => Some(KernelArgInfo::AddressQualifier),
                4503u32 => Some(KernelArgInfo::AccessQualifier),
                4504u32 => Some(KernelArgInfo::TypeName),
                4505u32 => Some(KernelArgInfo::TypeQualifier),
                4506u32 => Some(KernelArgInfo::Name),
                _ => None,
            },
{
}

/// Each variant of `CommandQueueInfo` converts to the OpenCL constant it names; `from_cl_value` gives
/// back the variant of each constant, and `try_from_cl_value` gives it back for the
/// constants and nothing for any other value.
pub proof fn lemma_command_queue_info_cl_values()
    ensures
        forall|x: CommandQueueInfo, v: cl_command_queue_info|
            #[trigger] call_ensures(<cl_command_queue_info as From<CommandQueueInfo>>::from, (x,), v) ==> v == match x {
                CommandQueueInfo::Context => 4240u32,
                CommandQueueInfo::Device => 4241u32,
                CommandQueueInfo::ReferenceCount => 4242u32,
                CommandQueueInfo::Properties => 4243u32,
            },
        forall|v: cl_command_queue_info, x: CommandQueueInfo|
            #[trigger] call_ensures(CommandQueueInfo::from_cl_value, (v,), x) ==> match v {
                4240u32 => x == CommandQueueInfo::Context,
                4241u32 => x == CommandQueueInfo::Device,
                4242u32 => x == CommandQueueInfo::ReferenceCount,
                4243u32 => x == CommandQueueInfo::Properties,
                _ => true,
            },
        forall|v: cl_command_queue_info, r: Option<CommandQueueInfo>|
            #[trigger] call_ensures(CommandQueueInfo::try_from_cl_value, (v,), r) ==> r == match v {
                4240u32 => Some(CommandQueueInfo::Context),
                4241u32 => Some(CommandQueueInfo::Device),
                4242u32 => Some(CommandQueueInfo::ReferenceCount),
                4243u32 => Some(CommandQueueInfo::Properties),
                _ => None,
            },
{
}

/// Each variant of `CommandExecutionStatus` converts to the OpenCL constant it names; `from_cl_value` gives
/// back the variant of each constant, and `try_from_cl_value` gives it back for the
/// constants and nothing for any other value.
pub proof fn lemma_command_execution_status_cl_values()
    ensures
        forall|x: CommandExecutionStatus, v: cl_int|
            #[trigger] call_ensures(<cl_int as From<CommandExecutionStatus>>::from, (x,), v) ==> v == match x {
                CommandExecutionStatus::Complete => 0i32,
                CommandExecutionStatus::Running => 1i32,
                CommandExecutionStatus::Submitted => 2i32,
                CommandExecutionStatus::Queued => 3i32,
            },
        forall|v: cl_int, x: CommandExecutionStatus|
            #[trigger] call_ensures(CommandExecutionStatus::from_cl_value, (v,), x) ==> match v {
                0i32 => x == CommandExecutionStatus::Complete,
                1i32 => x == CommandExecutionStatus::Running,
                2i32 => x == CommandExecutionStatus::Submitted,
                3i32 => x == CommandExecutionStatus::Queued,
                _ => true,
            },
        forall|v: cl_int, r: Option<CommandExecutionStatus>|
            #[trigger] call_ensures(CommandExecutionStatus::try_from_cl_value, (v,), r) ==> r == match v {
                0i32 => Some(CommandExecutionStatus::Complete),
                1i32 => Some(CommandExecutionStatus::Running),
                2i32 => Some(CommandExecutionStatus::Submitted),
                3i32 => Some(CommandExecutionStatus::Queued),
                _ => None,
            },
{
}

/// Each variant of `CommandType` converts to the OpenCL constant it names; `from_cl_value` gives
/// back the variant of each constant, and `try_from_cl_value` gives it back for the
/// constants and nothing for any other value.
pub proof fn lemma_command_type_cl_values()
    ensures
        forall|x: CommandType, v: cl_command_type|
            #[trigger] call_ensures(<cl_command_type as From<CommandType>>::from, (x,), v) ==> v == match x {
                CommandType::NdrangeKernel => 4592u32,
                CommandType::Task => 4593u32,
                CommandType::NativeKernel => 4594u32,
                CommandType::ReadBuffer => 4595u32,
                CommandType::WriteBuffer => 4596u32,
                CommandType::CopyBuffer => 4597u32,
                CommandType::ReadImage => 4598u32,
                CommandType::WriteImage => 4599u32,
                CommandType::CopyImage => 4600u32,
                CommandType::CopyImageToBuffer => 4601u32,
                CommandType::CopyBufferToImage => 4602u32,
                CommandType::MapBuffer => 4603u32,
                CommandType::MapImage => 4604u32,
                CommandType::UnmapMemObject => 4605u32,
                CommandType::Marker => 4606u32,
                CommandType::AcquireGlObjects => 4607u32,
                CommandType::ReleaseGlObjects => 4608u32,
                CommandType::ReadBufferRect => 4609u32,
                CommandType::WriteBufferRect => 4610u32,
                CommandType::CopyBufferRect => 4611u32,
                CommandType::User => 4612u32,
                CommandType::Barrier => 4613u32,
                CommandType::MigrateMemObjects => 4614u32,
                CommandType::FillBuffer => 4615u32,
                CommandType::FillImage => 4616u32,
                CommandType::SvmFree => 4617u32,
                CommandType::SvmMemcpy => 4618u32,
                CommandType::SvmMemfill => 4619u32,
                CommandType::SvmMap => 4620u32,
                CommandType::SvmUnmap => 4621u32,
            },
        forall|v: cl_command_type, x: CommandType|
            #[trigger] call_ensures(CommandType::from_cl_value, (v,), x) ==> match v {
                4592u32 => x == CommandType::NdrangeKernel,
                4593u32 => x == CommandType::Task,
                4594u32 => x == CommandType::NativeKernel,
                4595u32 => x == CommandType::ReadBuffer,
                4596u32 => x == CommandType::WriteBuffer,
                4597u32 => x == CommandType::CopyBuffer,
                4598u32 => x == CommandType::ReadImage,
                4599u32 => x == CommandType::WriteImage,
                4600u32 => x == CommandType::CopyImage,
                4601u32 => x == CommandType::CopyImageToBuffer,
                4602u32 => x == CommandType::CopyBufferToImage,
                4603u32 => x == CommandType::MapBuffer,
                4604u32 => x == CommandType::MapImage,
                4605u32 => x == CommandType::UnmapMemObject,
                4606u32 => x == CommandType::Marker,
                4607u32 => x == CommandType::AcquireGlObjects,
                4608u32 => x == CommandType::ReleaseGlObjects,
                4609u32 => x == CommandType::ReadBufferRect,
                4610u32 => x == CommandType::WriteBufferRect,
                4611u32 => x == CommandType::CopyBufferRect,
                4612u32 => x == CommandType::User,
                4613u32 => x == CommandType::Barrier,
                4614u32 => x == CommandType::MigrateMemObjects,
                4615u32 => x == CommandType::FillBuffer,
                4616u32 => x == CommandType::FillImage,
                4617u32 => x == CommandType::SvmFree,
                4618u32 => x == CommandType::SvmMemcpy,
                4619u32 => x == CommandType::SvmMemfill,
                4620u32 => x == CommandType::SvmMap,
                4621u32 => x == CommandType::SvmUnmap,
                _ => true,
            },
        forall|v: cl_command_type, r: Option<CommandType>|
            #[trigger] call_ensures(CommandType::try_from_cl_value, (v,), r) ==> r == match v {
                4592u32 => Some(CommandType::NdrangeKernel),
                4593u32 => Some(CommandType::Task),
                4594u32 => Some(CommandType::NativeKernel),
                4595u32 => Some(CommandType::ReadBuffer),
                4596u32 => Some(CommandType::WriteBuffer),
                4597u32 => Some(CommandType::CopyBuffer),
                4598u32 => Some(CommandType::ReadImage),
                4599u32 => Some(CommandType::WriteImage),
                4600u32 => Some(CommandType::CopyImage),
                4601u32 => Some(CommandType::CopyImageToBuffer),
                4602u32 => Some(CommandType::CopyBufferToImage),
                4603u32 => Some(CommandType::MapBuffer),
                4604u32 => Some(CommandType::MapImage),
                4605u32 => Some(CommandType::UnmapMemObject),
                4606u32 => Some(CommandType::Marker),
                4607u32 => Some(CommandType::AcquireGlObjects),
                4608u32 => Some(CommandType::ReleaseGlObjects),
                4609u32 => Some(CommandType::ReadBufferRect),
                4610u32 => Some(CommandType::WriteBufferRect),
                4611u32 => Some(CommandType::CopyBufferRect),
                4612u32 => Some(CommandType::User),
                4613u32 => Some(CommandType::Barrier),
                4614u32 => Some(CommandType::MigrateMemObjects),
                4615u32 => Some(CommandType::FillBuffer),
                4616u32 => Some(CommandType::FillImage),
                4617u32 => Some(CommandType::SvmFree),
                4618u32 => Some(CommandType::SvmMemcpy),
                4619u32 => Some(CommandType::SvmMemfill),
                4620u32 => Some(CommandType::SvmMap),
                4621u32 => Some(CommandType::SvmUnmap),
                _ => None,
            },
{
}

/// Each variant of `EventInfo` converts to the OpenCL constant it names; `from_cl_value` gives
/// back the variant of each constant, and `try_from_cl_value` gives it back for the
/// constants and nothing for any other value.
pub proof fn lemma_event_info_cl_values()
    ensures
        forall|x: EventInfo, v: cl_event_info|
            #[trigger] call_ensures(<cl_event_info as From<EventInfo>>::from, (x,), v) ==> v == match x {
                EventInfo::CommandQueue => 4560u32,
                EventInfo::CommandType => 4561u32,
                EventInfo::ReferenceCount => 4562u32,
                EventInfo::CommandExecutionStatus => 4563u32,
                EventInfo::Context => 4564u32,
            },
        forall|v: cl_event_info, x: EventInfo|
            #[trigger] call_ensures(EventInfo::from_cl_value, (v,), x) ==> match v {
                4560u32 => x == EventInfo::CommandQueue,
                4561u32 => x == EventInfo::CommandType,
                4562u32 => x == EventInfo::ReferenceCount,
                4563u32 => x == EventInfo::CommandExecutionStatus,
                4564u32 => x == EventInfo::Context,
                _ => true,
            },
        forall|v: cl_event_info, r: Option<EventInfo>|
            #[trigger] call_ensures(EventInfo::try_from_cl_value, (v,), r) ==> r == match v {
                4560u32 => Some(EventInfo::CommandQueue),
                4561u32 => Some(EventInfo::CommandType),
                4562u32 => Some(EventInfo::ReferenceCount),
                4563u32 => Some(EventInfo::CommandExecutionStatus),
                4564u32 => Some(EventInfo::Context),
                _ => None,
            },
{
}

/// Each variant of `ProfilingInfo` converts to the OpenCL constant it names; `from_cl_value` gives
/// back the variant of each constant, and `try_from_cl_value` gives it back for the
/// constants and nothing for any other value.
pub proof fn lemma_profiling_info_cl_values()
    ensures
        forall|x: ProfilingInfo, v: cl_profiling_info|
            #[trigger] call_ensures(<cl_profiling_info as From<ProfilingInfo>>::from, (x,), v) ==> v == match x {
                ProfilingInfo::Queued => 4736u32,
                ProfilingInfo::Submit => 4737u32,
                ProfilingInfo::Start => 4738u32,
                ProfilingInfo::End => 4739u32,
                ProfilingInfo::Complete => 4740u32,
            },
        forall|v: cl_profiling_info, x: ProfilingInfo|
            #[trigger] call_ensures(ProfilingInfo::from_cl_value, (v,), x) ==> match v {
                4736u32 => x == ProfilingInfo::Queued,
                4737u32 => x == ProfilingInfo::Submit,
                4738u32 => x == ProfilingInfo::Start,
                4739u32 => x == ProfilingInfo::End,
                4740u32 => x == ProfilingInfo::Complete,
                _ => true,
            },
        forall|v: cl_profiling_info, r: Option<ProfilingInfo>|
            #[trigger] call_ensures(ProfilingInfo::try_from_cl_value, (v,), r) ==> r == match v {
                4736u32 => Some(ProfilingInfo::Queued),
                4737u32 => Some(ProfilingInfo::Submit),
                4738u32 => Some(ProfilingInfo::Start),
                4739u32 => Some(ProfilingInfo::End),
                4740u32 => Some(ProfilingInfo::Complete),
                _ => None,
            },
{
}

} // verus!
