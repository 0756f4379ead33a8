//! The parameters of a presentable image chain, derived from what the
//! surface reports, and the reading of acquire and present results.
use vstd::prelude::*;
use crate::codes::{
    out_of_date_code, suboptimal_code, success_code, RESULT_ERROR_OUT_OF_DATE, RESULT_SUBOPTIMAL,
    RESULT_SUCCESS,
};
use crate::queue_family::QueueFamilyIndices;
use crate::surface::{
    chosen_format, chosen_present_mode, clamp_axis, has_preferred_format, Extent,
    SurfaceCapabilities, SurfaceFormat, SwapChainSupportDetails,
};

verus! {

/// How the images of a chain are owned by queue families.
#[derive(Clone, Copy, Debug, PartialEq, Eq, Structural)]
pub enum SharingMode {
    /// One family owns the images.
    Exclusive,
    /// The images are declared shareable between the two families up front.
    Concurrent { graphics_family: u32, present_family: u32 },
}

/// Everything that is decided about a chain before it is created.
#[derive(Clone, Copy, Debug, PartialEq, Eq, Structural)]
pub struct SwapchainParameters {
    pub format: SurfaceFormat,
    pub present_mode: i32,
    pub extent: Extent,
    pub image_count: u32,
    pub sharing: SharingMode,
}

/// Why no parameters could be derived.
#[derive(Clone, Copy, Debug, PartialEq, Eq, Structural)]
pub enum BuildError {
    /// The surface reported no pixel format at all.
    NoSurfaceFormat,
    /// The device lacks a graphics family or a present family.
    IncompleteQueueFamilies,
    /// The surface asks for more images than can be counted.
    ImageCountOverflow,
}

/// The number of images asked for: one more than the minimum, limited to the
/// maximum where the surface has one (`max_count > 0`).
pub open spec fn chosen_image_count(min_count: int, max_count: int) -> int {
    if max_count > 0 && min_count + 1 > max_count {
        max_count
    } else {
        min_count + 1
    }
}

/// The sharing mode for a graphics family and a present family.
pub open spec fn chosen_sharing(graphics_family: u32, present_family: u32) -> SharingMode {
    if graphics_family != present_family {
        SharingMode::Concurrent { graphics_family, present_family }
    } else {
        SharingMode::Exclusive
    }
}

/// Whether parameters can be derived from these reports, and if not, why.
pub open spec fn build_outcome(
    formats: Seq<SurfaceFormat>,
    capabilities: SurfaceCapabilities,
    indices: QueueFamilyIndices,
) -> Option<BuildError> {
    if formats.len() == 0 {
        Some(BuildError::NoSurfaceFormat)
    } else if !indices.complete() {
        Some(BuildError::IncompleteQueueFamilies)
    } else if chosen_image_count(
        capabilities.min_image_count as int,
        capabilities.max_image_count as int,
    ) > u32::MAX {
        Some(BuildError::ImageCountOverflow)
    } else {
        None
    }
}

/// The parameters derived from the reports of a surface, the queue families
/// of the device and a requested size.
pub open spec fn chosen_parameters(
    formats: Seq<SurfaceFormat>,
    present_modes: Seq<i32>,
    capabilities: SurfaceCapabilities,
    indices: QueueFamilyIndices,
    width: u32,
    height: u32,
) -> SwapchainParameters {
    SwapchainParameters {
        format: chosen_format(formats),
        present_mode: chosen_present_mode(present_modes),
        extent: capabilities.chosen_extent(width, height),
        image_count: chosen_image_count(
            capabilities.min_image_count as int,
            capabilities.max_image_count as int,
        ) as u32,
        sharing: chosen_sharing(indices.graphics_family->0, indices.present_family->0),
    }
}

/// Picks the number of images of a chain.
pub fn choose_image_count(capabilities: &SurfaceCapabilities) -> (count: Option<u32>)
    ensures
        count is Some <==> chosen_image_count(
            capabilities.min_image_count as int,
            capabilities.max_image_count as int,
        ) <= u32::MAX,
        count is Some ==> count->0 == chosen_image_count(
            capabilities.min_image_count as int,
            capabilities.max_image_count as int,
        ),
{
    let min_count: u32 = capabilities.min_image_count;
    let max_count: u32 = capabilities.max_image_count;
    if max_count > 0 && min_count >= max_count {
        Some(max_count)
    } else if min_count == u32::MAX {
        None
    } else {
        Some(min_count + 1)
    }
}

/// Picks how the images are shared between the two queue families.
pub fn choose_sharing_mode(graphics_family: u32, present_family: u32) -> (sharing: SharingMode)
    ensures
        sharing == chosen_sharing(graphics_family, present_family),
{
    if graphics_family != present_family {
        SharingMode::Concurrent { graphics_family, present_family }
    } else {
        SharingMode::Exclusive
    }
}

impl SwapchainParameters {
    /// Derives the parameters of a chain from what the surface reports, the
    /// queue families of the device and the size that was asked for.
    pub fn build(
        support: &SwapChainSupportDetails,
        indices: &QueueFamilyIndices,
        width: u32,
        height: u32,
    ) -> (built: Result<SwapchainParameters, BuildError>)
        ensures
            match build_outcome(support.formats@, support.capabilities, *indices) {
                Some(error) => built == Err::<SwapchainParameters, BuildError>(error),
                None => built == Ok::<SwapchainParameters, BuildError>(
                    chosen_parameters(
                        support.formats@,
                        support.present_modes@,
                        support.capabilities,
                        *indices,
                        width,
                        height,
                    ),
                ),
            },
    {
        if support.formats.len() == 0 {
            return Err(BuildError::NoSurfaceFormat);
        }
        let (graphics_family, present_family) = match (
            indices.graphics_family,
            indices.present_family,
        ) {
            (Some(graphics_family), Some(present_family)) => (graphics_family, present_family),
            _ => {
                return Err(BuildError::IncompleteQueueFamilies);
            },
        };
        let image_count: u32 = match choose_image_count(&support.capabilities) {
            Some(count) => count,
            None => {
                return Err(BuildError::ImageCountOverflow);
            },
        };
        Ok(
            SwapchainParameters {
                format: support.choose_swap_surface_format(),
                present_mode: support.choose_swap_present_mode(),
                extent: support.choose_swap_extent(width, height),
                image_count,
                sharing: choose_sharing_mode(graphics_family, present_family),
            },
        )
    }
}

/// What an attempt to acquire the next image led to.
#[derive(Clone, Copy, Debug, PartialEq, Eq, Structural)]
pub enum AcquireOutcome {
    /// The image with this index is ready to be drawn into. `suboptimal`
    /// says that the chain no longer matches the surface exactly: it serves
    /// this frame and is to be rebuilt before the next one.
    Image { index: u32, suboptimal: bool },
    /// The chain is out of date and must be rebuilt before it is used again.
    Retry,
    /// Any other result, with its raw code.
    Fatal(i32),
}

/// What an attempt to present an image led to.
#[derive(Clone, Copy, Debug, PartialEq, Eq, Structural)]
pub enum PresentOutcome {
    /// The image was queued for display.
    Presented,
    /// The image was queued or dropped, and the chain must be rebuilt before
    /// the next acquire.
    Retry,
    /// Any other result, with its raw code.
    Fatal(i32),
}

/// The reading of an acquire result: success and suboptimal both deliver the
/// image, out-of-date asks for a rebuild, anything else is fatal.
pub open spec fn acquire_outcome(code: i32, image_index: u32) -> AcquireOutcome {
    if code == RESULT_SUCCESS || code == RESULT_SUBOPTIMAL {
        AcquireOutcome::Image { index: image_index, suboptimal: code == RESULT_SUBOPTIMAL }
    } else if code == RESULT_ERROR_OUT_OF_DATE {
        AcquireOutcome::Retry
    } else {
        AcquireOutcome::Fatal(code)
    }
}

/// The reading of a present result: success is success, suboptimal and
/// out-of-date ask for a rebuild, anything else is fatal.
pub open spec fn present_outcome(code: i32) -> PresentOutcome {
    if code == RESULT_SUCCESS {
        PresentOutcome::Presented
    } else if code == RESULT_SUBOPTIMAL || code == RESULT_ERROR_OUT_OF_DATE {
        PresentOutcome::Retry
    } else {
        PresentOutcome::Fatal(code)
    }
}

/// Reads the raw result of an acquire together with the index it delivered.
pub fn classify_acquire(code: i32, image_index: u32) -> (outcome: AcquireOutcome)
    ensures
        outcome == acquire_outcome(code, image_index),
{
    if code == success_code() {
        AcquireOutcome::Image { index: image_index, suboptimal: false }
    } else if code == suboptimal_code() {
        AcquireOutcome::Image { index: image_index, suboptimal: true }
    } else if code == out_of_date_code() {
        AcquireOutcome::Retry
    } else {
        AcquireOutcome::Fatal(code)
    }
}

/// Reads the raw result of a present.
pub fn classify_present(code: i32) -> (outcome: PresentOutcome)
    ensures
        outcome == present_outcome(code),
{
    if code == success_code() {
        PresentOutcome::Presented
    } else if code == suboptimal_code() || code == out_of_date_code() {
        PresentOutcome::Retry
    } else {
        PresentOutcome::Fatal(code)
    }
}

/// Unless the surface dictates its size, the chosen extent is the request
/// clamped on each axis by itself; where the bounds of an axis are in order,
/// the chosen value lies within them.
pub proof fn lemma_extent_is_clamped(capabilities: SurfaceCapabilities, width: u32, height: u32)
    requires
        !capabilities.has_fixed_extent(),
    ensures
        capabilities.chosen_extent(width, height).width == clamp_axis(
            width as int,
            capabilities.min_image_extent.width as int,
            capabilities.max_image_extent.width as int,
        ),
        capabilities.chosen_extent(width, height).height == clamp_axis(
            height as int,
            capabilities.min_image_extent.height as int,
            capabilities.max_image_extent.height as int,
        ),
        capabilities.min_image_extent.width <= capabilities.max_image_extent.width
            ==> capabilities.min_image_extent.width <= capabilities.chosen_extent(
            width,
            height,
        ).width <= capabilities.max_image_extent.width,
        capabilities.min_image_extent.height <= capabilities.max_image_extent.height
            ==> capabilities.min_image_extent.height <= capabilities.chosen_extent(
            width,
            height,
        ).height <= capabilities.max_image_extent.height,
        capabilities.min_image_extent.width <= width <= capabilities.max_image_extent.width
            ==> capabilities.chosen_extent(width, height).width == width,
        capabilities.min_image_extent.height <= height <= capabilities.max_image_extent.height
            ==> capabilities.chosen_extent(width, height).height == height,
{
}

/// A surface that dictates its size gets that size, whatever was asked for.
pub proof fn lemma_fixed_extent_overrides(
    capabilities: SurfaceCapabilities,
    width: u32,
    height: u32,
    other_width: u32,
    other_height: u32,
)
    requires
        capabilities.has_fixed_extent(),
    ensures
        capabilities.chosen_extent(width, height) == capabilities.current_extent,
        capabilities.chosen_extent(width, height) == capabilities.chosen_extent(
            other_width,
            other_height,
        ),
{
}

/// Asking again for the extent that was chosen changes nothing.
pub proof fn lemma_extent_choice_is_stable(
    capabilities: SurfaceCapabilities,
    width: u32,
    height: u32,
)
    ensures
        ({
            let first = capabilities.chosen_extent(width, height);
            capabilities.chosen_extent(first.width, first.height) == first
        }),
{
}

/// The image count is one more than the minimum, limited to the maximum of a
/// bounded surface; where the bounds are in order it lies within them.
pub proof fn lemma_image_count_bounds(min_count: u32, max_count: u32)
    ensures
        max_count == 0 ==> chosen_image_count(min_count as int, max_count as int) == min_count
            + 1,
        max_count > 0 && min_count + 1 <= max_count ==> chosen_image_count(
            min_count as int,
            max_count as int,
        ) == min_count + 1,
        max_count > 0 && min_count + 1 > max_count ==> chosen_image_count(
            min_count as int,
            max_count as int,
        ) == max_count,
        max_count > 0 ==> chosen_image_count(min_count as int, max_count as int) <= max_count,
        max_count == 0 || min_count <= max_count ==> chosen_image_count(
            min_count as int,
            max_count as int,
        ) >= min_count,
{
}

/// Where the preferred pair is listed it is chosen; where it is not, the
/// first entry is. Either way the choice is an entry of the list.
pub proof fn lemma_format_choice(formats: Seq<SurfaceFormat>)
    requires
        formats.len() > 0,
    ensures
        has_preferred_format(formats) ==> chosen_format(formats) == SurfaceFormat::preferred(),
        !has_preferred_format(formats) ==> chosen_format(formats) == formats[0],
        formats.contains(chosen_format(formats)),
{
    if !has_preferred_format(formats) {
        assert(formats[0] == chosen_format(formats));
    }
}

/// The parameters are a function of the reports and of the request, so the
/// same reports and the same request give the same parameters. They come out
/// the same once more when the request repeats the extent chosen before.
pub proof fn lemma_parameters_repeat(
    formats: Seq<SurfaceFormat>,
    present_modes: Seq<i32>,
    capabilities: SurfaceCapabilities,
    indices: QueueFamilyIndices,
    width: u32,
    height: u32,
)
    ensures
        ({
            let first = chosen_parameters(
                formats,
                present_modes,
                capabilities,
                indices,
                width,
                height,
            );
            chosen_parameters(
                formats,
                present_modes,
                capabilities,
                indices,
                first.extent.width,
                first.extent.height,
            ) == first
        }),
{
    lemma_extent_choice_is_stable(capabilities, width, height);
}

} // verus!
