use vstd::prelude::*;

verus! {

/// The format code preferred for the image chain (a 32-bit BGRA sRGB format,
/// code 50 in the graphics API's format enumeration).
pub const FORMAT_B8G8R8A8_SRGB: u32 = 50;

/// The color space preferred for the image chain (sRGB non-linear, code 0).
pub const COLOR_SPACE_SRGB_NONLINEAR: u32 = 0;

/// The low-latency triple-buffer-like presentation mode (code 1).
pub const PRESENT_MODE_MAILBOX: u32 = 1;

/// The always-available queued presentation mode (code 2), the fallback.
pub const PRESENT_MODE_FIFO: u32 = 2;

/// The sentinel width meaning that the surface reports no fixed extent and
/// the renderer may pick one within the advertised bounds.
pub const EXTENT_UNSET: u32 = 0xFFFF_FFFF;

/// A two-dimensional pixel extent, as reported by the surface and as
/// requested for the presentable image chain.
#[derive(Clone, Copy, PartialEq, Eq, Structural, Debug)]
pub struct Extent2d {
    pub width: u32,
    pub height: u32,
}

/// A surface format: a pixel format code paired with a color space code.
#[derive(Clone, Copy, PartialEq, Eq, Structural, Debug)]
pub struct SurfaceFormat {
    pub format: u32,
    pub color_space: u32,
}

/// The capability snapshot a surface reports, re-queried on every rebuild.
#[derive(Clone, Copy, PartialEq, Eq, Structural, Debug)]
pub struct SurfaceCaps {
    pub min_image_count: u32,
    pub max_image_count: u32,
    pub current_extent: Extent2d,
    pub min_image_extent: Extent2d,
    pub max_image_extent: Extent2d,
}

impl Extent2d {
    /// Componentwise containment in an inclusive range of extents.
    pub open spec fn in_range(self, lo: Extent2d, hi: Extent2d) -> bool {
        lo.width <= self.width <= hi.width && lo.height <= self.height <= hi.height
    }
}

impl SurfaceCaps {
    /// What the surface promises of its own report: the extent bounds are
    /// ordered, a fixed current extent lies within them, a nonzero maximum
    /// image count is no smaller than the minimum, and one more than the
    /// minimum image count still fits in 32 bits.
    pub open spec fn wf(self) -> bool {
        &&& self.min_image_extent.width <= self.max_image_extent.width
        &&& self.min_image_extent.height <= self.max_image_extent.height
        &&& self.min_image_count < 0xFFFF_FFFFu32
        &&& (self.max_image_count > 0 ==> self.min_image_count <= self.max_image_count)
        &&& (self.current_extent.width != EXTENT_UNSET ==> self.current_extent.in_range(
            self.min_image_extent,
            self.max_image_extent,
        ))
    }
}

/// What a value clamped into an inclusive range is.
pub open spec fn spec_clamp(v: u32, lo: u32, hi: u32) -> u32 {
    if v < lo {
        lo
    } else if v > hi {
        hi
    } else {
        v
    }
}

/// Relies on num::clamp: returns the input forced into [lo, hi].
/// num::clamp debug-asserts lo <= hi, so that is required here.
#[verifier::external_body]
fn clamp_u32(v: u32, lo: u32, hi: u32) -> (r: u32)
    requires
        lo <= hi,
    ensures
        r == spec_clamp(v, lo, hi),
{
    num::clamp(v, lo, hi)
}

/// The extent the image chain is built with: the surface's fixed current
/// extent when it reports one, else the desired extent clamped into the
/// surface's bounds.
pub open spec fn spec_choose_extent(desired: Extent2d, caps: SurfaceCaps) -> Extent2d {
    if caps.current_extent.width != EXTENT_UNSET {
        caps.current_extent
    } else {
        Extent2d {
            width: spec_clamp(
                desired.width,
                caps.min_image_extent.width,
                caps.max_image_extent.width,
            ),
            height: spec_clamp(
                desired.height,
                caps.min_image_extent.height,
                caps.max_image_extent.height,
            ),
        }
    }
}

/// Picks the extent for the image chain. The surface's fixed extent always
/// wins; only when the surface leaves the extent unset is the desired size
/// used, forced into the reported bounds.
pub fn choose_swap_extent(desired: Extent2d, caps: &SurfaceCaps) -> (r: Extent2d)
    requires
        caps.wf(),
    ensures
        r == spec_choose_extent(desired, *caps),
{
    if caps.current_extent.width != EXTENT_UNSET {
        caps.current_extent
    } else {
        Extent2d {
            width: clamp_u32(
                desired.width,
                caps.min_image_extent.width,
                caps.max_image_extent.width,
            ),
            height: clamp_u32(
                desired.height,
                caps.min_image_extent.height,
                caps.max_image_extent.height,
            ),
        }
    }
}

/// The chosen extent always lies within the surface's reported bounds, for
/// every well-formed capability snapshot and every desired extent.
pub proof fn lemma_chosen_extent_in_bounds(desired: Extent2d, caps: SurfaceCaps)
    requires
        caps.wf(),
    ensures
        spec_choose_extent(desired, caps).in_range(caps.min_image_extent, caps.max_image_extent),
{
}

/// When the surface leaves the extent unset, the chosen extent is exactly
/// the desired extent clamped componentwise into the reported bounds.
pub proof fn lemma_unset_extent_is_clamped_desired(desired: Extent2d, caps: SurfaceCaps)
    requires
        caps.wf(),
        caps.current_extent.width == EXTENT_UNSET,
    ensures
        spec_choose_extent(desired, caps).width == spec_clamp(
            desired.width,
            caps.min_image_extent.width,
            caps.max_image_extent.width,
        ),
        spec_choose_extent(desired, caps).height == spec_clamp(
            desired.height,
            caps.min_image_extent.height,
            caps.max_image_extent.height,
        ),
{
}

/// The image count the chain is built with: one more than the minimum, capped
/// by the maximum where the surface reports a bounded maximum (zero means
/// unbounded).
pub open spec fn spec_image_count(caps: SurfaceCaps) -> u32 {
    if caps.max_image_count > 0 && caps.min_image_count + 1 > caps.max_image_count {
        caps.max_image_count
    } else {
        (caps.min_image_count + 1) as u32
    }
}

/// Picks how many presentable images the chain asks for.
pub fn choose_image_count(caps: &SurfaceCaps) -> (r: u32)
    requires
        caps.wf(),
    ensures
        r == spec_image_count(*caps),
{
    if caps.max_image_count > 0 && caps.min_image_count + 1 > caps.max_image_count {
        caps.max_image_count
    } else {
        caps.min_image_count + 1
    }
}

/// The chosen image count is at least the reported minimum, and at most the
/// reported maximum whenever that maximum is bounded.
pub proof fn lemma_image_count_bounds(caps: SurfaceCaps)
    requires
        caps.wf(),
    ensures
        spec_image_count(caps) >= caps.min_image_count,
        caps.max_image_count > 0 ==> spec_image_count(caps) <= caps.max_image_count,
{
}

/// The format preferred for the chain.
pub open spec fn spec_preferred_format() -> SurfaceFormat {
    SurfaceFormat { format: FORMAT_B8G8R8A8_SRGB, color_space: COLOR_SPACE_SRGB_NONLINEAR }
}

/// The surface format the chain is built with: the preferred BGRA sRGB pair
/// when the surface offers it, else the first offered format.
pub open spec fn spec_choose_format(formats: Seq<SurfaceFormat>) -> SurfaceFormat {
    if exists|i: int| 0 <= i < formats.len() && formats[i] == spec_preferred_format() {
        spec_preferred_format()
    } else {
        formats[0]
    }
}

/// Picks the surface format for the image chain from the surface's offers.
pub fn choose_swap_surface_format(formats: &Vec<SurfaceFormat>) -> (r: SurfaceFormat)
    requires
        formats@.len() > 0,
    ensures
        r == spec_choose_format(formats@),
{
    let n: usize = formats.len();
    for i in 0..n
        invariant
            n == formats@.len(),
            n > 0,
            forall|j: int| 0 <= j < i ==> formats@[j] != spec_preferred_format(),
    {
        let f = formats[i];
        if f.format == FORMAT_B8G8R8A8_SRGB && f.color_space == COLOR_SPACE_SRGB_NONLINEAR {
            assert(formats@[i as int] == spec_preferred_format());
            return f;
        }
    }
    formats[0]
}

/// The presentation mode the chain is built with: the low-latency mailbox
/// mode when offered, else the guaranteed queued mode.
pub open spec fn spec_choose_present_mode(modes: Seq<u32>) -> u32 {
    if modes.contains(PRESENT_MODE_MAILBOX) {
        PRESENT_MODE_MAILBOX
    } else {
        PRESENT_MODE_FIFO
    }
}

/// Picks the presentation mode from the surface's offers.
pub fn choose_swap_present_mode(modes: &Vec<u32>) -> (r: u32)
    ensures
        r == spec_choose_present_mode(modes@),
{
    let n: usize = modes.len();
    for i in 0..n
        invariant
            n == modes@.len(),
            forall|j: int| 0 <= j < i ==> modes@[j] != PRESENT_MODE_MAILBOX,
    {
        if modes[i] == PRESENT_MODE_MAILBOX {
            assert(modes@.contains(PRESENT_MODE_MAILBOX)) by {
                assert(modes@[i as int] == PRESENT_MODE_MAILBOX);
            }
            return PRESENT_MODE_MAILBOX;
        }
    }
    assert(!modes@.contains(PRESENT_MODE_MAILBOX));
    PRESENT_MODE_FIFO
}

/// Everything the chain is created with, derived from one capability
/// snapshot; rebuilt wholesale on invalidation, never partially mutated.
#[derive(Clone, Copy, PartialEq, Eq, Structural, Debug)]
pub struct SwapchainConfig {
    pub format: SurfaceFormat,
    pub present_mode: u32,
    pub extent: Extent2d,
    pub image_count: u32,
}

/// The configuration chosen from a capability snapshot, the offered formats
/// and modes, and the desired extent.
pub open spec fn spec_choose_config(
    caps: SurfaceCaps,
    formats: Seq<SurfaceFormat>,
    modes: Seq<u32>,
    desired: Extent2d,
) -> SwapchainConfig {
    SwapchainConfig {
        format: spec_choose_format(formats),
        present_mode: spec_choose_present_mode(modes),
        extent: spec_choose_extent(desired, caps),
        image_count: spec_image_count(caps),
    }
}

/// Derives the full chain configuration from one surface snapshot.
pub fn choose_swapchain_config(
    caps: &SurfaceCaps,
    formats: &Vec<SurfaceFormat>,
    modes: &Vec<u32>,
    desired: Extent2d,
) -> (r: SwapchainConfig)
    requires
        caps.wf(),
        formats@.len() > 0,
    ensures
        r == spec_choose_config(*caps, formats@, modes@, desired),
{
    SwapchainConfig {
        format: choose_swap_surface_format(formats),
        present_mode: choose_swap_present_mode(modes),
        extent: choose_swap_extent(desired, caps),
        image_count: choose_image_count(caps),
    }
}

} // verus!
