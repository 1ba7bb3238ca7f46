use vstd::prelude::*;
use crate::structures::{DeviceExtension, QueueFamilyIndices};

verus! {

/// Raw value of the surface format with 8-bit BGRA channels in sRGB.
pub const FORMAT_B8G8R8A8_SRGB: i32 = 50;

/// Raw value of the non-linear sRGB color space.
pub const COLOR_SPACE_SRGB_NONLINEAR: i32 = 0;

/// Raw value of the mailbox presentation mode.
pub const PRESENT_MODE_MAILBOX: i32 = 1;

/// Raw value of the first-in first-out presentation mode, which every
/// device supports.
pub const PRESENT_MODE_FIFO: i32 = 2;

/// What a queue family of a physical device offers.
#[derive(Clone, Copy, Debug, PartialEq, Eq, Structural)]
pub struct QueueFamilyInfo {
    pub queue_count: u32,
    pub supports_graphics: bool,
    pub supports_present: bool,
}

/// A surface format by the raw values of its format and color space.
#[derive(Clone, Copy, Debug, PartialEq, Eq, Structural)]
pub struct SurfaceFormat {
    pub format: i32,
    pub color_space: i32,
}

/// A two-dimensional extent in pixels.
#[derive(Clone, Copy, Debug, PartialEq, Eq, Structural)]
pub struct Extent2D {
    pub width: u32,
    pub height: u32,
}

/// What a surface allows of the swapchains made for it.
#[derive(Clone, Copy, Debug, PartialEq, Eq, Structural)]
pub struct SurfaceCapabilities {
    pub current_extent: Extent2D,
    pub min_image_extent: Extent2D,
    pub max_image_extent: Extent2D,
    pub min_image_count: u32,
    pub max_image_count: u32,
}

/// How swapchain images are shared between the graphics and present queues.
#[derive(Clone, Copy, Debug, PartialEq, Eq, Structural)]
pub enum ImageSharing {
    Exclusive,
    Concurrent { graphics: u32, present: u32 },
}

/// `x` held to the range from `lo` to `hi`.
pub open spec fn clamped(x: u32, lo: u32, hi: u32) -> u32 {
    if x < lo {
        lo
    } else if x > hi {
        hi
    } else {
        x
    }
}

/// Relies on num::clamp: `input` held to the range from `min` to `max`; it
/// asserts `min <= max` in debug builds.
#[verifier::external_body]
fn clamp_u32(input: u32, min: u32, max: u32) -> (r: u32)
    requires
        min <= max,
    ensures
        r == clamped(input, min, max),
{
    num::clamp(input, min, max)
}

/// A family that serves both graphics and presentation.
pub open spec fn usable(f: QueueFamilyInfo) -> bool {
    f.queue_count > 0 && f.supports_graphics && f.supports_present
}

/// The first family that serves both graphics and presentation, used for
/// both; neither is set when no family serves both.
pub fn find_queue_family(families: &Vec<QueueFamilyInfo>) -> (r: QueueFamilyIndices)
    requires
        families@.len() <= u32::MAX,
    ensures
        match r.graphics_family {
            Some(g) => {
                &&& r.present_family == Some(g)
                &&& g < families@.len()
                &&& usable(families@[g as int])
                &&& forall|j: int| 0 <= j < g ==> !usable(#[trigger] families@[j])
            },
            None => {
                &&& r.present_family is None
                &&& forall|j: int| 0 <= j < families@.len() ==> !usable(#[trigger] families@[j])
            },
        },
{
    let mut indices = QueueFamilyIndices::new();
    let mut index: usize = 0;
    while index < families.len()
        invariant
            index <= families@.len(),
            families@.len() <= u32::MAX,
            indices.graphics_family is None,
            indices.present_family is None,
            forall|j: int| 0 <= j < index ==> !usable(#[trigger] families@[j]),
        decreases families@.len() - index,
    {
        let family = families[index];
        if family.queue_count > 0 && family.supports_graphics {
            indices.graphics_family = Some(index as u32);
        }
        if family.queue_count > 0 && family.supports_present {
            indices.present_family = Some(index as u32);
        }
        if indices.is_complete() {
            return indices;
        } else {
            indices = QueueFamilyIndices::new();
        }
        index = index + 1;
    }
    indices
}

/// Whether `name` is one of the `available` names.
pub open spec fn offers(available: Seq<String>, name: Seq<char>) -> bool {
    exists|j: int| 0 <= j < available.len() && (#[trigger] available[j])@ == name
}

/// Whether every required extension is among the available ones.
pub fn check_device_extension_support(
    available: &Vec<String>,
    required: &DeviceExtension,
) -> (r: bool)
    ensures
        r == forall|i: int|
            0 <= i < required.names@.len() ==> offers(available@, (#[trigger] required.names@[i])@),
{
    let mut i: usize = 0;
    while i < required.names.len()
        invariant
            i <= required.names@.len(),
            forall|k: int| 0 <= k < i ==> offers(available@, (#[trigger] required.names@[k])@),
        decreases required.names@.len() - i,
    {
        let name = required.names[i].to_owned();
        let mut found = false;
        let mut j: usize = 0;
        while j < available.len()
            invariant
                j <= available@.len(),
                i < required.names@.len(),
                name@ == required.names@[i as int]@,
                found ==> offers(available@, name@),
                !found ==> forall|m: int| 0 <= m < j ==> (#[trigger] available@[m])@ != name@,
            decreases available@.len() - j,
        {
            if available[j] == name {
                found = true;
            }
            j = j + 1;
        }
        if !found {
            return false;
        }
        i = i + 1;
    }
    true
}

/// A device fits when one queue family serves graphics and presentation,
/// the required extensions are there, and the surface offers at least one
/// format and one presentation mode.
pub fn is_physical_device_suitable(
    indices: &QueueFamilyIndices,
    extensions_supported: bool,
    format_count: usize,
    present_mode_count: usize,
) -> (r: bool)
    ensures
        r == (indices.complete() && extensions_supported && format_count > 0 && present_mode_count
            > 0),
{
    let is_queue_family_supported = indices.is_complete();
    let is_swapchain_supported = if extensions_supported {
        format_count > 0 && present_mode_count > 0
    } else {
        false
    };
    is_queue_family_supported && extensions_supported && is_swapchain_supported
}

/// The first device that fits, if any does.
pub fn pick_physical_device(suitable: &Vec<bool>) -> (r: Option<usize>)
    ensures
        match r {
            Some(i) => i < suitable@.len() && suitable@[i as int] && forall|j: int|
                0 <= j < i ==> !suitable@[j],
            None => forall|j: int| 0 <= j < suitable@.len() ==> !suitable@[j],
        },
{
    let mut i: usize = 0;
    while i < suitable.len()
        invariant
            i <= suitable@.len(),
            forall|j: int| 0 <= j < i ==> !suitable@[j],
        decreases suitable@.len() - i,
    {
        if suitable[i] {
            return Some(i);
        }
        i = i + 1;
    }
    None
}

pub open spec fn preferred_format(f: SurfaceFormat) -> bool {
    f.format == FORMAT_B8G8R8A8_SRGB && f.color_space == COLOR_SPACE_SRGB_NONLINEAR
}

/// The first sRGB BGRA format in the non-linear sRGB color space, or else
/// the first format offered.
pub fn choose_swapchain_format(available: &Vec<SurfaceFormat>) -> (r: SurfaceFormat)
    requires
        available@.len() > 0,
    ensures
        (exists|i: int| 0 <= i < available@.len() && preferred_format(#[trigger] available@[i]))
            ==> exists|i: int|
            0 <= i < available@.len() && r == available@[i] && preferred_format(r) && forall|j: int|
                0 <= j < i ==> !preferred_format(#[trigger] available@[j]),
        !(exists|i: int| 0 <= i < available@.len() && preferred_format(#[trigger] available@[i]))
            ==> r == available@[0],
{
    let mut i: usize = 0;
    while i < available.len()
        invariant
            i <= available@.len(),
            forall|j: int| 0 <= j < i ==> !preferred_format(#[trigger] available@[j]),
        decreases available@.len() - i,
    {
        let f = available[i];
        if f.format == FORMAT_B8G8R8A8_SRGB && f.color_space == COLOR_SPACE_SRGB_NONLINEAR {
            return f;
        }
        i = i + 1;
    }
    available[0]
}

/// Mailbox when it is offered, else first-in first-out.
pub fn choose_swapchain_present_mode(available: &Vec<i32>) -> (r: i32)
    ensures
        r == if available@.contains(PRESENT_MODE_MAILBOX) {
            PRESENT_MODE_MAILBOX
        } else {
            PRESENT_MODE_FIFO
        },
{
    let mut i: usize = 0;
    while i < available.len()
        invariant
            i <= available@.len(),
            forall|j: int| 0 <= j < i ==> available@[j] != PRESENT_MODE_MAILBOX,
        decreases available@.len() - i,
    {
        if available[i] == PRESENT_MODE_MAILBOX {
            return PRESENT_MODE_MAILBOX;
        }
        i = i + 1;
    }
    PRESENT_MODE_FIFO
}

/// The surface's current extent where it fixes one; otherwise the window's
/// size held to the surface's limits.
pub fn choose_swapchain_extent(
    capabilities: &SurfaceCapabilities,
    window_width: u32,
    window_height: u32,
) -> (r: Extent2D)
    requires
        capabilities.current_extent.width == u32::MAX ==> {
            &&& capabilities.min_image_extent.width <= capabilities.max_image_extent.width
            &&& capabilities.min_image_extent.height <= capabilities.max_image_extent.height
        },
    ensures
        capabilities.current_extent.width != u32::MAX ==> r == capabilities.current_extent,
        capabilities.current_extent.width == u32::MAX ==> r == (Extent2D {
            width: clamped(
                window_width,
                capabilities.min_image_extent.width,
                capabilities.max_image_extent.width,
            ),
            height: clamped(
                window_height,
                capabilities.min_image_extent.height,
                capabilities.max_image_extent.height,
            ),
        }),
{
    if capabilities.current_extent.width != u32::MAX {
        capabilities.current_extent
    } else {
        Extent2D {
            width: clamp_u32(
                window_width,
                capabilities.min_image_extent.width,
                capabilities.max_image_extent.width,
            ),
            height: clamp_u32(
                window_height,
                capabilities.min_image_extent.height,
                capabilities.max_image_extent.height,
            ),
        }
    }
}

/// One image more than the surface's minimum, held to its maximum where it
/// sets one (a maximum of 0 sets none); the addition saturates.
pub fn swapchain_image_count(capabilities: &SurfaceCapabilities) -> (r: u32)
    ensures
        ({
            let wanted = if capabilities.min_image_count == u32::MAX {
                u32::MAX
            } else {
                (capabilities.min_image_count + 1) as u32
            };
            r == if capabilities.max_image_count > 0 && wanted > capabilities.max_image_count {
                capabilities.max_image_count
            } else {
                wanted
            }
        }),
{
    let image_count = capabilities.min_image_count.saturating_add(1);
    if capabilities.max_image_count > 0 && image_count > capabilities.max_image_count {
        capabilities.max_image_count
    } else {
        image_count
    }
}

/// Images are shared concurrently when graphics and presentation use
/// different families, and owned exclusively otherwise.
pub fn queue_sharing(indices: &QueueFamilyIndices) -> (r: ImageSharing)
    requires
        indices.complete(),
    ensures
        ({
            let g = indices.graphics_family->Some_0;
            let p = indices.present_family->Some_0;
            r == if g != p {
                ImageSharing::Concurrent { graphics: g, present: p }
            } else {
                ImageSharing::Exclusive
            }
        }),
{
    let g = indices.graphics_family.unwrap();
    let p = indices.present_family.unwrap();
    if g != p {
        ImageSharing::Concurrent { graphics: g, present: p }
    } else {
        ImageSharing::Exclusive
    }
}

/// The distinct families that need a queue on the logical device.
pub fn unique_queue_families(indices: &QueueFamilyIndices) -> (r: Vec<u32>)
    requires
        indices.complete(),
    ensures
        ({
            let g = indices.graphics_family->Some_0;
            let p = indices.present_family->Some_0;
            r@ == if g == p {
                seq![g]
            } else {
                seq![g, p]
            }
        }),
{
    let g = indices.graphics_family.unwrap();
    let p = indices.present_family.unwrap();
    let mut v: Vec<u32> = Vec::new();
    v.push(g);
    if p != g {
        v.push(p);
    }
    proof {
        if g == p {
            assert(v@ =~= seq![g]);
        } else {
            assert(v@ =~= seq![g, p]);
        }
    }
    v
}

/// Whether memory type `i` is allowed by the filter bits and has every
/// required property flag.
pub open spec fn memory_type_fits(type_filter: u32, required: u32, flags: Seq<u32>, i: int) -> bool {
    &&& (type_filter >> (i as u32)) & 1u32 == 1u32
    &&& flags[i] & required == required
}

/// The first memory type that the filter allows and that has every required
/// property; `None` when there is none.
pub fn find_memory_type(type_filter: u32, required: u32, memory_type_flags: &Vec<u32>) -> (r: Option<u32>)
    requires
        memory_type_flags@.len() <= 32,
    ensures
        match r {
            Some(i) => {
                &&& i < memory_type_flags@.len()
                &&& memory_type_fits(type_filter, required, memory_type_flags@, i as int)
                &&& forall|j: int|
                    0 <= j < i ==> !memory_type_fits(type_filter, required, memory_type_flags@, j)
            },
            None => forall|j: int|
                0 <= j < memory_type_flags@.len() ==> !memory_type_fits(
                    type_filter,
                    required,
                    memory_type_flags@,
                    j,
                ),
        },
{
    let mut i: usize = 0;
    while i < memory_type_flags.len()
        invariant
            i <= memory_type_flags@.len(),
            memory_type_flags@.len() <= 32,
            forall|j: int|
                0 <= j < i ==> !memory_type_fits(type_filter, required, memory_type_flags@, j),
        decreases memory_type_flags@.len() - i,
    {
        let shift: u32 = i as u32;
        if (type_filter >> shift) & 1u32 == 1u32 && memory_type_flags[i] & required == required {
            return Some(shift);
        }
        i = i + 1;
    }
    None
}

} // verus!
