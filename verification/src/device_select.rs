use vstd::prelude::*;

verus! {

/// Sample-count flag: one sample per pixel (0x1).
pub const SAMPLE_COUNT_1: u32 = 0x1;

/// Sample-count flag: two samples per pixel (0x2).
pub const SAMPLE_COUNT_2: u32 = 0x2;

/// Sample-count flag: four samples per pixel (0x4).
pub const SAMPLE_COUNT_4: u32 = 0x4;

/// Sample-count flag: eight samples per pixel (0x8).
pub const SAMPLE_COUNT_8: u32 = 0x8;

/// Sample-count flag: sixteen samples per pixel (0x10).
pub const SAMPLE_COUNT_16: u32 = 0x10;

/// Sample-count flag: thirty-two samples per pixel (0x20).
pub const SAMPLE_COUNT_32: u32 = 0x20;

/// Sample-count flag: sixty-four samples per pixel (0x40).
pub const SAMPLE_COUNT_64: u32 = 0x40;

/// The queue families the renderer needs: one that can run graphics work
/// and one that can present to the surface (often the same).
pub struct QueueFamilyIndices {
    pub graphics_family: Option<u32>,
    pub present_family: Option<u32>,
}

impl QueueFamilyIndices {
    /// Pairs the two family indices.
    pub fn new(graphics_family: Option<u32>, present_family: Option<u32>) -> (r:
        QueueFamilyIndices)
        ensures
            r.graphics_family == graphics_family,
            r.present_family == present_family,
    {
        QueueFamilyIndices { graphics_family, present_family }
    }

    /// Whether both required families were found.
    pub fn is_complete(&self) -> (r: bool)
        ensures
            r == (self.graphics_family is Some && self.present_family is Some),
    {
        self.graphics_family.is_some() && self.present_family.is_some()
    }
}

/// What one queue family reports: how many queues it has and whether it
/// supports graphics work and presentation to the surface.
#[derive(Clone, Copy, PartialEq, Eq, Structural, Debug)]
pub struct QueueFamilyInfo {
    pub queue_count: u32,
    pub supports_graphics: bool,
    pub supports_present: bool,
}

/// A family that can run graphics work.
pub open spec fn graphics_capable(f: QueueFamilyInfo) -> bool {
    f.queue_count > 0 && f.supports_graphics
}

/// A family that can present to the surface.
pub open spec fn present_capable(f: QueueFamilyInfo) -> bool {
    f.queue_count > 0 && f.supports_present
}

/// Scans the queue families for the two required capabilities, stopping as
/// soon as both are found. A family index is reported only if that family
/// has the capability; each capability is found if and only if some family
/// offers it.
pub fn find_queue_family(families: &Vec<QueueFamilyInfo>) -> (r: QueueFamilyIndices)
    requires
        families@.len() <= u32::MAX,
    ensures
        r.graphics_family is Some <==> exists|i: int|
            0 <= i < families@.len() && graphics_capable(#[trigger] families@[i]),
        r.present_family is Some <==> exists|i: int|
            0 <= i < families@.len() && present_capable(#[trigger] families@[i]),
        r.graphics_family is Some ==> r.graphics_family->0 < families@.len() && graphics_capable(
            families@[r.graphics_family->0 as int],
        ),
        r.present_family is Some ==> r.present_family->0 < families@.len() && present_capable(
            families@[r.present_family->0 as int],
        ),
{
    let mut indices = QueueFamilyIndices::new(None, None);
    let n: usize = families.len();
    let mut index: usize = 0;
    while index < n
        invariant
            index <= n,
            n == families@.len(),
            n <= u32::MAX,
            indices.graphics_family is Some || (forall|i: int|
                0 <= i < index ==> !graphics_capable(#[trigger] families@[i])),
            indices.present_family is Some || (forall|i: int|
                0 <= i < index ==> !present_capable(#[trigger] families@[i])),
            indices.graphics_family is Some ==> indices.graphics_family->0 < n
                && graphics_capable(families@[indices.graphics_family->0 as int]),
            indices.present_family is Some ==> indices.present_family->0 < n && present_capable(
                families@[indices.present_family->0 as int],
            ),
            !(indices.graphics_family is Some && indices.present_family is Some),
        decreases n - index,
    {
        let family = families[index];
        if family.queue_count > 0 && family.supports_graphics {
            indices.graphics_family = Some(index as u32);
        }
        if family.queue_count > 0 && family.supports_present {
            indices.present_family = Some(index as u32);
        }
        if indices.is_complete() {
            return indices;
        }
        index = index + 1;
    }
    indices
}

/// The suitability verdict over everything queried of one adapter: both
/// queue families found, the required extensions present, at least one
/// surface format and one presentation mode offered, and anisotropic
/// sampling available.
pub fn device_suitable(
    indices: &QueueFamilyIndices,
    extensions_supported: bool,
    format_count: usize,
    present_mode_count: usize,
    sampler_anisotropy: bool,
) -> (r: bool)
    ensures
        r == (indices.graphics_family is Some && indices.present_family is Some
            && extensions_supported && format_count > 0 && present_mode_count > 0
            && sampler_anisotropy),
{
    indices.is_complete() && extensions_supported && format_count > 0 && present_mode_count > 0
        && sampler_anisotropy
}

/// Picks the first suitable adapter, given each adapter's verdict.
pub fn pick_first_suitable(suitable: &Vec<bool>) -> (r: Option<usize>)
    ensures
        r is Some <==> exists|i: int| 0 <= i < suitable@.len() && suitable@[i],
        forall|k: usize|
            r == Some(k) ==> k < suitable@.len() && suitable@[k as int] && (forall|j: int|
                0 <= j < k ==> !suitable@[j]),
{
    let n: usize = suitable.len();
    for i in 0..n
        invariant
            n == suitable@.len(),
            forall|j: int| 0 <= j < i ==> !suitable@[j],
    {
        if suitable[i] {
            return Some(i);
        }
    }
    None
}

/// Byte-for-byte equality of two names.
fn name_eq(a: &Vec<u8>, b: &Vec<u8>) -> (r: bool)
    ensures
        r == (a@ == b@),
{
    let n: usize = a.len();
    if n != b.len() {
        return false;
    }
    let mut i: usize = 0;
    while i < n
        invariant
            i <= n,
            n == a@.len(),
            n == b@.len(),
            forall|k: int| 0 <= k < i ==> a@[k] == b@[k],
        decreases n - i,
    {
        if a[i] != b[i] {
            return false;
        }
        i = i + 1;
    }
    proof {
        assert(a@ =~= b@);
    }
    true
}

/// Whether the list holds the name.
pub open spec fn spec_contains_name(names: Seq<Vec<u8>>, target: Seq<u8>) -> bool {
    exists|i: int| 0 <= i < names.len() && (#[trigger] names[i])@ == target
}

/// Looks the name up in the list.
pub fn contains_name(names: &Vec<Vec<u8>>, target: &Vec<u8>) -> (r: bool)
    ensures
        r == spec_contains_name(names@, target@),
{
    let n: usize = names.len();
    for i in 0..n
        invariant
            n == names@.len(),
            forall|j: int| 0 <= j < i ==> (#[trigger] names@[j])@ != target@,
    {
        if name_eq(&names[i], target) {
            assert((names@[i as int])@ == target@);
            return true;
        }
    }
    false
}

/// Every required name is offered.
pub open spec fn spec_all_supported(required: Seq<Vec<u8>>, available: Seq<Vec<u8>>) -> bool {
    forall|i: int|
        0 <= i < required.len() ==> spec_contains_name(available, (#[trigger] required[i])@)
}

/// Decides whether every required name (a device extension, a validation
/// layer) appears among the available ones.
pub fn check_names_supported(required: &Vec<Vec<u8>>, available: &Vec<Vec<u8>>) -> (r: bool)
    ensures
        r == spec_all_supported(required@, available@),
{
    let n: usize = required.len();
    for i in 0..n
        invariant
            n == required@.len(),
            forall|j: int|
                0 <= j < i ==> spec_contains_name(available@, (#[trigger] required@[j])@),
    {
        if !contains_name(available, &required[i]) {
            return false;
        }
    }
    true
}

/// The best sample count both the color and the depth targets support:
/// the largest power-of-two flag set in both masks, else single-sampling.
pub open spec fn spec_max_sample_count(color_counts: u32, depth_counts: u32) -> u32 {
    let counts: u32 = if color_counts <= depth_counts {
        color_counts
    } else {
        depth_counts
    };
    if counts & SAMPLE_COUNT_64 == SAMPLE_COUNT_64 {
        SAMPLE_COUNT_64
    } else if counts & SAMPLE_COUNT_32 == SAMPLE_COUNT_32 {
        SAMPLE_COUNT_32
    } else if counts & SAMPLE_COUNT_16 == SAMPLE_COUNT_16 {
        SAMPLE_COUNT_16
    } else if counts & SAMPLE_COUNT_8 == SAMPLE_COUNT_8 {
        SAMPLE_COUNT_8
    } else if counts & SAMPLE_COUNT_4 == SAMPLE_COUNT_4 {
        SAMPLE_COUNT_4
    } else if counts & SAMPLE_COUNT_2 == SAMPLE_COUNT_2 {
        SAMPLE_COUNT_2
    } else {
        SAMPLE_COUNT_1
    }
}

/// Picks the highest sample count usable for multisampling, from the
/// counts the color and depth framebuffers each support.
pub fn get_max_usable_sample_count(color_counts: u32, depth_counts: u32) -> (r: u32)
    ensures
        r == spec_max_sample_count(color_counts, depth_counts),
{
    let counts: u32 = if color_counts <= depth_counts {
        color_counts
    } else {
        depth_counts
    };
    if counts & SAMPLE_COUNT_64 == SAMPLE_COUNT_64 {
        SAMPLE_COUNT_64
    } else if counts & SAMPLE_COUNT_32 == SAMPLE_COUNT_32 {
        SAMPLE_COUNT_32
    } else if counts & SAMPLE_COUNT_16 == SAMPLE_COUNT_16 {
        SAMPLE_COUNT_16
    } else if counts & SAMPLE_COUNT_8 == SAMPLE_COUNT_8 {
        SAMPLE_COUNT_8
    } else if counts & SAMPLE_COUNT_4 == SAMPLE_COUNT_4 {
        SAMPLE_COUNT_4
    } else if counts & SAMPLE_COUNT_2 == SAMPLE_COUNT_2 {
        SAMPLE_COUNT_2
    } else {
        SAMPLE_COUNT_1
    }
}

} // verus!
