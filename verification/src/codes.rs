//! The raw Vulkan codes that the decisions of this library compare against,
//! read from the `ash` bindings.
//!
//! Every function here is a thin trusted reader of one `ash` constant or one
//! `ash` helper. Its contract restates the value that `ash` declares; nothing
//! in this module is proved.
use vstd::prelude::*;

verus! {

/// Raw code of the four-channel, eight-bit sRGB pixel format.
pub const FORMAT_R8G8B8A8_SRGB: i32 = 43;

/// Raw code of the sRGB non-linear colour space.
pub const COLOR_SPACE_SRGB_NONLINEAR: i32 = 0;

/// Raw code of the mailbox (triple-buffering) present mode.
pub const PRESENT_MODE_MAILBOX: i32 = 1;

/// Raw code of the first-in-first-out (vsync) present mode.
pub const PRESENT_MODE_FIFO: i32 = 2;

/// Raw result code of a command that completed successfully.
pub const RESULT_SUCCESS: i32 = 0;

/// Raw result code of a chain that still presents but no longer matches the
/// surface exactly.
pub const RESULT_SUBOPTIMAL: i32 = 1_000_001_003;

/// Raw result code of a chain that has become incompatible with the surface.
pub const RESULT_ERROR_OUT_OF_DATE: i32 = -1_000_001_004;

/// Raw code of a discrete physical device.
pub const DEVICE_TYPE_DISCRETE_GPU: i32 = 2;

/// Bit of the queue flags that marks support for graphics operations.
pub const QUEUE_GRAPHICS_BIT: u32 = 1;

/// Mask of the four colour components red, green, blue and alpha.
pub const COLOR_COMPONENTS_ALL: u32 = 0xF;

/// Bit of the pipeline stages at which final colour values leave the
/// pipeline.
pub const STAGE_COLOR_ATTACHMENT_OUTPUT: u32 = 0x400;

/// Mask of the message severities verbose, warning and error.
pub const DEBUG_SEVERITY_MASK: u32 = 0x1101;

/// Mask of the message types general, validation and performance.
pub const DEBUG_TYPE_MASK: u32 = 0x7;

/// Reads `ash::vk::Format::R8G8B8A8_SRGB` and hands back its raw code, which
/// ash declares as 43.
#[verifier::external_body]
pub(crate) fn srgb_format_code() -> (code: i32)
    ensures
        code == FORMAT_R8G8B8A8_SRGB,
{
    ash::vk::Format::R8G8B8A8_SRGB.as_raw()
}

/// Reads `ash::vk::ColorSpaceKHR::SRGB_NONLINEAR` and hands back its raw
/// code, which ash declares as 0.
#[verifier::external_body]
pub(crate) fn srgb_nonlinear_code() -> (code: i32)
    ensures
        code == COLOR_SPACE_SRGB_NONLINEAR,
{
    ash::vk::ColorSpaceKHR::SRGB_NONLINEAR.as_raw()
}

/// Reads `ash::vk::PresentModeKHR::MAILBOX` and hands back its raw code,
/// which ash declares as 1.
#[verifier::external_body]
pub(crate) fn mailbox_code() -> (code: i32)
    ensures
        code == PRESENT_MODE_MAILBOX,
{
    ash::vk::PresentModeKHR::MAILBOX.as_raw()
}

/// Reads `ash::vk::PresentModeKHR::FIFO` and hands back its raw code, which
/// ash declares as 2.
#[verifier::external_body]
pub(crate) fn fifo_code() -> (code: i32)
    ensures
        code == PRESENT_MODE_FIFO,
{
    ash::vk::PresentModeKHR::FIFO.as_raw()
}

/// Reads `ash::vk::Result::SUCCESS` and hands back its raw code, which ash
/// declares as 0.
#[verifier::external_body]
pub(crate) fn success_code() -> (code: i32)
    ensures
        code == RESULT_SUCCESS,
{
    ash::vk::Result::SUCCESS.as_raw()
}

/// Reads `ash::vk::Result::SUBOPTIMAL_KHR` and hands back its raw code, which
/// ash declares as 1000001003.
#[verifier::external_body]
pub(crate) fn suboptimal_code() -> (code: i32)
    ensures
        code == RESULT_SUBOPTIMAL,
{
    ash::vk::Result::SUBOPTIMAL_KHR.as_raw()
}

/// Reads `ash::vk::Result::ERROR_OUT_OF_DATE_KHR` and hands back its raw
/// code, which ash declares as -1000001004.
#[verifier::external_body]
pub(crate) fn out_of_date_code() -> (code: i32)
    ensures
        code == RESULT_ERROR_OUT_OF_DATE,
{
    ash::vk::Result::ERROR_OUT_OF_DATE_KHR.as_raw()
}

/// Reads `ash::vk::PhysicalDeviceType::DISCRETE_GPU` and hands back its raw
/// code, which ash declares as 2.
#[verifier::external_body]
pub(crate) fn discrete_gpu_code() -> (code: i32)
    ensures
        code == DEVICE_TYPE_DISCRETE_GPU,
{
    ash::vk::PhysicalDeviceType::DISCRETE_GPU.as_raw()
}

/// Calls `ash::vk::QueueFlags::contains` on the flags rebuilt from `flags`,
/// asking for `ash::vk::QueueFlags::GRAPHICS`. ash computes
/// `self & other == other` with `other` being bit 0, so the answer is true
/// exactly when that bit is set.
#[verifier::external_body]
pub(crate) fn queue_flags_have_graphics(flags: u32) -> (found: bool)
    ensures
        found == (flags & QUEUE_GRAPHICS_BIT == QUEUE_GRAPHICS_BIT),
{
    ash::vk::QueueFlags::from_raw(flags).contains(ash::vk::QueueFlags::GRAPHICS)
}

/// Joins `ash::vk::ColorComponentFlags::{R, G, B, A}` with the `|` that ash
/// implements for its flag types and hands back the raw mask. ash declares
/// the four flags as bits 0 to 3 and `|` as the bitwise or of the raw values.
#[verifier::external_body]
pub(crate) fn all_color_components() -> (mask: u32)
    ensures
        mask == COLOR_COMPONENTS_ALL,
{
    (ash::vk::ColorComponentFlags::R | ash::vk::ColorComponentFlags::G
        | ash::vk::ColorComponentFlags::B | ash::vk::ColorComponentFlags::A).as_raw()
}

/// Reads `ash::vk::PipelineStageFlags::COLOR_ATTACHMENT_OUTPUT` and hands
/// back its raw mask, which ash declares as bit 10.
#[verifier::external_body]
pub(crate) fn color_output_stage() -> (mask: u32)
    ensures
        mask == STAGE_COLOR_ATTACHMENT_OUTPUT,
{
    ash::vk::PipelineStageFlags::COLOR_ATTACHMENT_OUTPUT.as_raw()
}

/// Joins `ash::vk::DebugUtilsMessageSeverityFlagsEXT::{VERBOSE, WARNING,
/// ERROR}` with ash's `|` and hands back the raw mask. ash declares the
/// three flags as bits 0, 8 and 12.
#[verifier::external_body]
pub(crate) fn debug_severities() -> (mask: u32)
    ensures
        mask == DEBUG_SEVERITY_MASK,
{
    (ash::vk::DebugUtilsMessageSeverityFlagsEXT::VERBOSE
        | ash::vk::DebugUtilsMessageSeverityFlagsEXT::WARNING
        | ash::vk::DebugUtilsMessageSeverityFlagsEXT::ERROR).as_raw()
}

/// Joins `ash::vk::DebugUtilsMessageTypeFlagsEXT::{GENERAL, VALIDATION,
/// PERFORMANCE}` with ash's `|` and hands back the raw mask. ash declares
/// the three flags as bits 0, 1 and 2.
#[verifier::external_body]
pub(crate) fn debug_message_types() -> (mask: u32)
    ensures
        mask == DEBUG_TYPE_MASK,
{
    (ash::vk::DebugUtilsMessageTypeFlagsEXT::GENERAL
        | ash::vk::DebugUtilsMessageTypeFlagsEXT::VALIDATION
        | ash::vk::DebugUtilsMessageTypeFlagsEXT::PERFORMANCE).as_raw()
}

/// Calls `ash::vk::make_api_version`, which packs the four fields as
/// `(variant << 29) | (major << 22) | (minor << 12) | patch`.
#[verifier::external_body]
pub(crate) fn pack_api_version(variant: u32, major: u32, minor: u32, patch: u32) -> (packed: u32)
    ensures
        packed == (variant << 29) | (major << 22) | (minor << 12) | patch,
{
    ash::vk::make_api_version(variant, major, minor, patch)
}

} // verus!
