//! Which queue families of a physical device serve drawing and presenting.
use vstd::prelude::*;
use crate::codes::{
    discrete_gpu_code, queue_flags_have_graphics, DEVICE_TYPE_DISCRETE_GPU, QUEUE_GRAPHICS_BIT,
};
use crate::names::{all_offered, first_missing, texts};
use crate::required_names::{get_required_device_extensions, required_device_extensions};

verus! {

/// The queue families chosen on a device, by index.
#[derive(Clone, Copy, Debug, PartialEq, Eq, Structural)]
pub struct QueueFamilyIndices {
    /// A family that accepts drawing commands.
    pub graphics_family: Option<u32>,
    /// A family that can present to the surface.
    pub present_family: Option<u32>,
}

/// What one queue family reports: its capability flags and whether it can
/// present to the surface in question.
#[derive(Clone, Copy, Debug, PartialEq, Eq, Structural)]
pub struct QueueFamily {
    pub queue_flags: u32,
    pub present_support: bool,
}

impl QueueFamily {
    /// Whether the family accepts drawing commands.
    pub open spec fn has_graphics(self) -> bool {
        self.queue_flags & QUEUE_GRAPHICS_BIT == QUEUE_GRAPHICS_BIT
    }
}

/// The indices after family number `index` has been looked at.
pub open spec fn observed(
    before: QueueFamilyIndices,
    index: u32,
    family: QueueFamily,
) -> QueueFamilyIndices {
    QueueFamilyIndices {
        graphics_family: if family.has_graphics() {
            Some(index)
        } else {
            before.graphics_family
        },
        present_family: if family.present_support {
            Some(index)
        } else {
            before.present_family
        },
    }
}

/// The indices after the first `count` families have been looked at in order,
/// where looking stops as soon as both kinds have been found.
pub open spec fn scanned(families: Seq<QueueFamily>, count: nat) -> QueueFamilyIndices
    decreases count,
{
    if count == 0 {
        QueueFamilyIndices { graphics_family: None, present_family: None }
    } else {
        let before = scanned(families, (count - 1) as nat);
        if before.complete() {
            before
        } else {
            observed(before, (count - 1) as u32, families[count - 1])
        }
    }
}

impl QueueFamilyIndices {
    /// Whether both kinds of family have been found.
    pub open spec fn complete(self) -> bool {
        self.graphics_family is Some && self.present_family is Some
    }

    /// Indices with nothing found yet.
    pub fn new() -> (indices: Self)
        ensures
            indices.graphics_family is None,
            indices.present_family is None,
    {
        QueueFamilyIndices { graphics_family: None, present_family: None }
    }

    /// Whether both kinds of family have been found.
    pub fn is_complete(&self) -> (complete: bool)
        ensures
            complete == self.complete(),
    {
        self.graphics_family.is_some() && self.present_family.is_some()
    }

    /// Takes note of family number `index`: a later family replaces an
    /// earlier one of the same kind.
    pub fn observe(&mut self, index: u32, family: QueueFamily)
        ensures
            *final(self) == observed(*old(self), index, family),
    {
        if queue_flags_have_graphics(family.queue_flags) {
            self.graphics_family = Some(index);
        }
        if family.present_support {
            self.present_family = Some(index);
        }
    }

    /// Looks at the families of a device in order and stops at the first
    /// point where both kinds have been found.
    pub fn find_queue_families(families: &Vec<QueueFamily>) -> (indices: Self)
        requires
            families@.len() <= u32::MAX,
        ensures
            indices == scanned(families@, families@.len()),
    {
        let mut indices = Self::new();
        let mut i: usize = 0;
        while i < families.len()
            invariant
                0 <= i <= families@.len(),
                families@.len() <= u32::MAX,
                indices == scanned(families@, i as nat),
            decreases families@.len() - i,
        {
            if !indices.is_complete() {
                indices.observe(i as u32, families[i]);
            }
            i += 1;
        }
        indices
    }

    /// Whether a device that offers the given extensions offers every
    /// extension that is required.
    pub fn check_device_extension_support(offered: &Vec<String>) -> (supported: bool)
        ensures
            supported == all_offered(required_device_extensions(), texts(offered@)),
    {
        let required = get_required_device_extensions();
        first_missing(&required, offered).is_none()
    }

    /// Whether a device can be used: it has a queue family of each kind and
    /// offers every extension that is required.
    pub fn is_device_suitable(families: &Vec<QueueFamily>, offered: &Vec<String>) -> (suitable: bool)
        requires
            families@.len() <= u32::MAX,
        ensures
            suitable == device_suitable(families@, texts(offered@)),
    {
        let indices = Self::find_queue_families(families);
        let extension_supported = Self::check_device_extension_support(offered);
        indices.is_complete() && extension_supported
    }

    /// Rates a device: nothing without geometry shaders, else the largest
    /// two-dimensional image it can hold, and a thousand more where it is a
    /// discrete device.
    pub fn rate_device_suitability(
        device_type: i32,
        max_image_dimension_2d: u32,
        geometry_shader: u32,
    ) -> (score: u64)
        ensures
            score == device_score(device_type, max_image_dimension_2d, geometry_shader),
    {
        let mut score: u64 = 0;
        if device_type == discrete_gpu_code() {
            score += 1000;
        }
        score += max_image_dimension_2d as u64;
        if geometry_shader == 0 {
            return 0;
        }
        score
    }
}

/// Whether a device with these queue families and these extensions can be
/// used.
pub open spec fn device_suitable(families: Seq<QueueFamily>, offered: Seq<Seq<char>>) -> bool {
    scanned(families, families.len()).complete() && all_offered(
        required_device_extensions(),
        offered,
    )
}

/// The rating of a device.
pub open spec fn device_score(
    device_type: i32,
    max_image_dimension_2d: u32,
    geometry_shader: u32,
) -> int {
    if geometry_shader == 0 {
        0
    } else if device_type == DEVICE_TYPE_DISCRETE_GPU {
        1000 + max_image_dimension_2d
    } else {
        max_image_dimension_2d as int
    }
}

/// What a physical device reports about itself.
pub struct PhysicalDeviceReport {
    pub families: Vec<QueueFamily>,
    /// The names of the extensions that the device offers.
    pub extensions: Vec<String>,
}

/// Whether the device with the given report can be used.
pub open spec fn report_suitable(report: PhysicalDeviceReport) -> bool {
    device_suitable(report.families@, texts(report.extensions@))
}

/// Picks the first device that can be used, by its position in the list.
pub fn pick_physical_device(devices: &Vec<PhysicalDeviceReport>) -> (picked: Option<usize>)
    requires
        forall|i: int| 0 <= i < devices@.len() ==> (#[trigger] devices@[i]).families@.len()
            <= u32::MAX,
    ensures
        picked is None <==> forall|i: int|
            0 <= i < devices@.len() ==> !report_suitable(#[trigger] devices@[i]),
        picked is Some ==> {
            &&& picked->0 < devices@.len()
            &&& report_suitable(devices@[picked->0 as int])
            &&& forall|k: int| 0 <= k < picked->0 ==> !report_suitable(#[trigger] devices@[k])
        },
{
    let mut i: usize = 0;
    while i < devices.len()
        invariant
            0 <= i <= devices@.len(),
            forall|k: int| 0 <= k < devices@.len() ==> (#[trigger] devices@[k]).families@.len()
                <= u32::MAX,
            forall|k: int| 0 <= k < i ==> !report_suitable(#[trigger] devices@[k]),
        decreases devices@.len() - i,
    {
        let device = &devices[i];
        if QueueFamilyIndices::is_device_suitable(&device.families, &device.extensions) {
            return Some(i);
        }
        i += 1;
    }
    None
}

} // verus!
