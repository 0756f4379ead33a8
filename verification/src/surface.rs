//! What a presentation surface reports about itself, and the choices the
//! image chain derives from it: pixel format, present mode and extent.
use vstd::prelude::*;
use crate::codes::{
    fifo_code, mailbox_code, srgb_format_code, srgb_nonlinear_code, COLOR_SPACE_SRGB_NONLINEAR,
    FORMAT_R8G8B8A8_SRGB, PRESENT_MODE_FIFO, PRESENT_MODE_MAILBOX,
};

verus! {

/// Width that a surface reports when it accepts any size within its bounds.
pub const ANY_EXTENT: u32 = 0xFFFF_FFFF;

/// A two-dimensional size in pixels.
#[derive(Clone, Copy, Debug, PartialEq, Eq, Structural)]
pub struct Extent {
    pub width: u32,
    pub height: u32,
}

/// A pixel format together with the colour space it is shown in, both as raw
/// Vulkan codes.
#[derive(Clone, Copy, Debug, PartialEq, Eq, Structural)]
pub struct SurfaceFormat {
    pub format: i32,
    pub color_space: i32,
}

/// The capability bounds of a surface.
///
/// `max_image_count == 0` means that the number of images is unbounded.
/// `current_extent.width == ANY_EXTENT` means that the surface has no fixed
/// size of its own.
#[derive(Clone, Copy, Debug, PartialEq, Eq, Structural)]
pub struct SurfaceCapabilities {
    pub min_image_count: u32,
    pub max_image_count: u32,
    pub current_extent: Extent,
    pub min_image_extent: Extent,
    pub max_image_extent: Extent,
}

/// Everything a surface reports that the image chain is derived from.
pub struct SwapChainSupportDetails {
    pub capabilities: SurfaceCapabilities,
    pub formats: Vec<SurfaceFormat>,
    /// Raw present-mode codes, in the order reported.
    pub present_modes: Vec<i32>,
}

/// `value` limited from above by `hi`, then from below by `lo`.
///
/// When `lo <= hi` this is the usual clamp into `[lo, hi]`; when the bounds
/// cross, the lower bound wins.
pub open spec fn clamp_axis(value: int, lo: int, hi: int) -> int {
    let capped = if value < hi { value } else { hi };
    if capped > lo { capped } else { lo }
}

impl SurfaceFormat {
    /// The preferred pair: eight-bit sRGB in the sRGB non-linear colour space.
    pub open spec fn preferred() -> SurfaceFormat {
        SurfaceFormat { format: FORMAT_R8G8B8A8_SRGB, color_space: COLOR_SPACE_SRGB_NONLINEAR }
    }
}

impl SurfaceCapabilities {
    /// Whether the surface dictates its own size.
    pub open spec fn has_fixed_extent(self) -> bool {
        self.current_extent.width != ANY_EXTENT
    }

    /// The extent chosen for a request: the fixed extent where there is one,
    /// else the request clamped per axis.
    pub open spec fn chosen_extent(self, width: u32, height: u32) -> Extent {
        if self.has_fixed_extent() {
            self.current_extent
        } else {
            Extent {
                width: clamp_axis(
                    width as int,
                    self.min_image_extent.width as int,
                    self.max_image_extent.width as int,
                ) as u32,
                height: clamp_axis(
                    height as int,
                    self.min_image_extent.height as int,
                    self.max_image_extent.height as int,
                ) as u32,
            }
        }
    }
}

/// Whether some entry of `formats` is the preferred pair.
pub open spec fn has_preferred_format(formats: Seq<SurfaceFormat>) -> bool {
    formats.contains(SurfaceFormat::preferred())
}

/// The format chosen from a non-empty list: the preferred pair where it is
/// listed, else the first entry.
pub open spec fn chosen_format(formats: Seq<SurfaceFormat>) -> SurfaceFormat {
    if has_preferred_format(formats) {
        SurfaceFormat::preferred()
    } else {
        formats[0]
    }
}

/// The present mode chosen from a list: mailbox where it is listed, else
/// first-in-first-out, which every surface supports.
pub open spec fn chosen_present_mode(modes: Seq<i32>) -> i32 {
    if modes.contains(PRESENT_MODE_MAILBOX) {
        PRESENT_MODE_MAILBOX
    } else {
        PRESENT_MODE_FIFO
    }
}

impl SwapChainSupportDetails {
    /// Gathers the three reports of a surface.
    pub fn new(
        capabilities: SurfaceCapabilities,
        formats: Vec<SurfaceFormat>,
        present_modes: Vec<i32>,
    ) -> (details: Self)
        ensures
            details.capabilities == capabilities,
            details.formats@ == formats@,
            details.present_modes@ == present_modes@,
    {
        SwapChainSupportDetails { capabilities, formats, present_modes }
    }

    /// Picks the pixel format of the chain.
    ///
    /// The surface must have reported at least one format.
    pub fn choose_swap_surface_format(&self) -> (chosen: SurfaceFormat)
        requires
            self.formats@.len() > 0,
        ensures
            chosen == chosen_format(self.formats@),
            self.formats@.contains(chosen),
    {
        let wanted_format: i32 = srgb_format_code();
        let wanted_space: i32 = srgb_nonlinear_code();
        let mut i: usize = 0;
        while i < self.formats.len()
            invariant
                0 <= i <= self.formats@.len(),
                wanted_format == FORMAT_R8G8B8A8_SRGB,
                wanted_space == COLOR_SPACE_SRGB_NONLINEAR,
                forall|j: int| 0 <= j < i ==> self.formats@[j] != SurfaceFormat::preferred(),
            decreases self.formats@.len() - i,
        {
            let available: SurfaceFormat = self.formats[i];
            if available.format == wanted_format && available.color_space == wanted_space {
                assert(self.formats@[i as int] == SurfaceFormat::preferred());
                return available;
            }
            i += 1;
        }
        assert(!has_preferred_format(self.formats@));
        self.formats[0]
    }

    /// Picks the present mode of the chain.
    pub fn choose_swap_present_mode(&self) -> (chosen: i32)
        ensures
            chosen == chosen_present_mode(self.present_modes@),
    {
        let wanted: i32 = mailbox_code();
        let mut i: usize = 0;
        while i < self.present_modes.len()
            invariant
                0 <= i <= self.present_modes@.len(),
                wanted == PRESENT_MODE_MAILBOX,
                forall|j: int| 0 <= j < i ==> self.present_modes@[j] != PRESENT_MODE_MAILBOX,
            decreases self.present_modes@.len() - i,
        {
            if self.present_modes[i] == wanted {
                assert(self.present_modes@[i as int] == PRESENT_MODE_MAILBOX);
                return wanted;
            }
            i += 1;
        }
        assert(!self.present_modes@.contains(PRESENT_MODE_MAILBOX));
        fifo_code()
    }

    /// Picks the extent of the chain's images for a requested size.
    pub fn choose_swap_extent(&self, width: u32, height: u32) -> (chosen: Extent)
        ensures
            chosen == self.capabilities.chosen_extent(width, height),
    {
        if self.capabilities.current_extent.width != ANY_EXTENT {
            return self.capabilities.current_extent;
        }
        let min = self.capabilities.min_image_extent;
        let max = self.capabilities.max_image_extent;
        Extent {
            width: limit(width, min.width, max.width),
            height: limit(height, min.height, max.height),
        }
    }
}

/// `value` limited from above by `hi`, then from below by `lo`.
fn limit(value: u32, lo: u32, hi: u32) -> (limited: u32)
    ensures
        limited == clamp_axis(value as int, lo as int, hi as int),
{
    let capped: u32 = if value < hi { value } else { hi };
    if capped > lo { capped } else { lo }
}

} // verus!
