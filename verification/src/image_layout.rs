use vstd::prelude::*;

verus! {

/// Format code for 32-bit RGBA sRGB texel data (code 43).
pub const FORMAT_R8G8B8A8_SRGB: u32 = 43;

/// Format code for a 32-bit float depth format (code 126).
pub const FORMAT_D32_SFLOAT: u32 = 126;

/// Format code for a 24-bit depth format with an 8-bit stencil (code 129).
pub const FORMAT_D24_UNORM_S8_UINT: u32 = 129;

/// Format code for a 32-bit float depth format with an 8-bit stencil
/// (code 130).
pub const FORMAT_D32_SFLOAT_S8_UINT: u32 = 130;

/// Access mask bit: a shader read (0x20).
pub const ACCESS_SHADER_READ: u32 = 0x20;

/// Access mask bit: a depth/stencil attachment read (0x200).
pub const ACCESS_DEPTH_STENCIL_READ: u32 = 0x200;

/// Access mask bit: a depth/stencil attachment write (0x400).
pub const ACCESS_DEPTH_STENCIL_WRITE: u32 = 0x400;

/// Access mask bit: a transfer read (0x800).
pub const ACCESS_TRANSFER_READ: u32 = 0x800;

/// Access mask bit: a transfer write (0x1000).
pub const ACCESS_TRANSFER_WRITE: u32 = 0x1000;

/// Pipeline stage bit: the very top of the pipe (0x1).
pub const STAGE_TOP_OF_PIPE: u32 = 0x1;

/// Pipeline stage bit: the fragment shader stage (0x80).
pub const STAGE_FRAGMENT_SHADER: u32 = 0x80;

/// Pipeline stage bit: the early depth/stencil tests (0x100).
pub const STAGE_EARLY_FRAGMENT_TESTS: u32 = 0x100;

/// Pipeline stage bit: the transfer stage (0x1000).
pub const STAGE_TRANSFER: u32 = 0x1000;

/// Image aspect bit: the color aspect (0x1).
pub const ASPECT_COLOR: u32 = 0x1;

/// Image aspect bit: the depth aspect (0x2).
pub const ASPECT_DEPTH: u32 = 0x2;

/// Image aspect bit: the stencil aspect (0x4).
pub const ASPECT_STENCIL: u32 = 0x4;

/// Format feature bit: the format supports linear-filtered sampling
/// (0x1000), the capability mip-chain blits need.
pub const FEATURE_SAMPLED_IMAGE_FILTER_LINEAR: u32 = 0x1000;

/// Image tiling: row-major, mappable layout.
#[derive(Clone, Copy, PartialEq, Eq, Structural, Debug)]
pub enum ImageTiling {
    Linear,
    Optimal,
}

/// How a GPU image's memory is organized; moving between organizations
/// takes an explicit barrier.
#[derive(Clone, Copy, PartialEq, Eq, Structural, Debug)]
pub enum ImageLayout {
    Undefined,
    TransferDst,
    TransferSrc,
    ShaderReadOnly,
    DepthStencilAttachment,
}

/// The masks and stages one layout-transition barrier is recorded with.
#[derive(Clone, Copy, PartialEq, Eq, Structural, Debug)]
pub struct BarrierPlan {
    pub src_access: u32,
    pub dst_access: u32,
    pub src_stage: u32,
    pub dst_stage: u32,
}

/// An unsupported request, reported before any GPU work is issued.
#[derive(Clone, Copy, PartialEq, Eq, Structural, Debug)]
pub enum CapabilityError {
    UnsupportedLayoutTransition,
    LinearFilterUnsupported,
    NoSupportedFormat,
}

/// Whether a depth format carries a stencil aspect.
pub open spec fn spec_has_stencil(format: u32) -> bool {
    format == FORMAT_D32_SFLOAT_S8_UINT || format == FORMAT_D24_UNORM_S8_UINT
}

/// Tells whether a depth format carries a stencil aspect.
pub fn has_stencil_component(format: u32) -> (r: bool)
    ensures
        r == spec_has_stencil(format),
{
    format == FORMAT_D32_SFLOAT_S8_UINT || format == FORMAT_D24_UNORM_S8_UINT
}

/// The three transitions the uploader performs: into a transfer
/// destination before a copy, on to shader-read-only after it, and into a
/// depth/stencil attachment before first use.
pub open spec fn spec_transition_supported(from: ImageLayout, to: ImageLayout) -> bool {
    ||| (from == ImageLayout::Undefined && to == ImageLayout::TransferDst)
    ||| (from == ImageLayout::TransferDst && to == ImageLayout::ShaderReadOnly)
    ||| (from == ImageLayout::Undefined && to == ImageLayout::DepthStencilAttachment)
}

/// The barrier each supported transition is recorded with.
pub open spec fn spec_transition_plan(from: ImageLayout, to: ImageLayout) -> BarrierPlan {
    if from == ImageLayout::TransferDst && to == ImageLayout::ShaderReadOnly {
        BarrierPlan {
            src_access: ACCESS_TRANSFER_WRITE,
            dst_access: ACCESS_SHADER_READ,
            src_stage: STAGE_TRANSFER,
            dst_stage: STAGE_FRAGMENT_SHADER,
        }
    } else if from == ImageLayout::Undefined && to == ImageLayout::DepthStencilAttachment {
        BarrierPlan {
            src_access: 0,
            dst_access: ACCESS_DEPTH_STENCIL_READ | ACCESS_DEPTH_STENCIL_WRITE,
            src_stage: STAGE_TOP_OF_PIPE,
            dst_stage: STAGE_EARLY_FRAGMENT_TESTS,
        }
    } else {
        BarrierPlan {
            src_access: 0,
            dst_access: ACCESS_TRANSFER_WRITE,
            src_stage: STAGE_TOP_OF_PIPE,
            dst_stage: STAGE_TRANSFER,
        }
    }
}

/// Plans one layout-transition barrier. Exactly the three transitions the
/// uploader needs are supported; anything else is refused as a contract
/// violation before any command is recorded.
pub fn transition_masks(from: ImageLayout, to: ImageLayout) -> (r: Result<
    BarrierPlan,
    CapabilityError,
>)
    ensures
        r is Ok <==> spec_transition_supported(from, to),
        spec_transition_supported(from, to) ==> r == Ok::<BarrierPlan, CapabilityError>(
            spec_transition_plan(from, to),
        ),
        !spec_transition_supported(from, to) ==> r == Err::<BarrierPlan, CapabilityError>(
            CapabilityError::UnsupportedLayoutTransition,
        ),
{
    if matches!(from, ImageLayout::Undefined) && matches!(to, ImageLayout::TransferDst) {
        Ok(
            BarrierPlan {
                src_access: 0,
                dst_access: ACCESS_TRANSFER_WRITE,
                src_stage: STAGE_TOP_OF_PIPE,
                dst_stage: STAGE_TRANSFER,
            },
        )
    } else if matches!(from, ImageLayout::TransferDst) && matches!(to, ImageLayout::ShaderReadOnly) {
        Ok(
            BarrierPlan {
                src_access: ACCESS_TRANSFER_WRITE,
                dst_access: ACCESS_SHADER_READ,
                src_stage: STAGE_TRANSFER,
                dst_stage: STAGE_FRAGMENT_SHADER,
            },
        )
    } else if matches!(from, ImageLayout::Undefined) && matches!(
        to,
        ImageLayout::DepthStencilAttachment,
    ) {
        Ok(
            BarrierPlan {
                src_access: 0,
                dst_access: ACCESS_DEPTH_STENCIL_READ | ACCESS_DEPTH_STENCIL_WRITE,
                src_stage: STAGE_TOP_OF_PIPE,
                dst_stage: STAGE_EARLY_FRAGMENT_TESTS,
            },
        )
    } else {
        Err(CapabilityError::UnsupportedLayoutTransition)
    }
}

/// The aspect mask a transition into `to` uses for an image of `format`:
/// depth (plus stencil where the format has one) for a depth/stencil
/// attachment, else color.
pub open spec fn spec_aspect_mask(to: ImageLayout, format: u32) -> u32 {
    if to == ImageLayout::DepthStencilAttachment {
        if spec_has_stencil(format) {
            ASPECT_DEPTH | ASPECT_STENCIL
        } else {
            ASPECT_DEPTH
        }
    } else {
        ASPECT_COLOR
    }
}

/// Picks the aspect mask for a transition into `to` of an image of
/// `format`.
pub fn aspect_mask(to: ImageLayout, format: u32) -> (r: u32)
    ensures
        r == spec_aspect_mask(to, format),
{
    if matches!(to, ImageLayout::DepthStencilAttachment) {
        if has_stencil_component(format) {
            ASPECT_DEPTH | ASPECT_STENCIL
        } else {
            ASPECT_DEPTH
        }
    } else {
        ASPECT_COLOR
    }
}

/// One format the device was asked about, with the feature bits it
/// supports under each tiling.
#[derive(Clone, Copy, PartialEq, Eq, Structural, Debug)]
pub struct FormatProperties {
    pub format: u32,
    pub linear_tiling_features: u32,
    pub optimal_tiling_features: u32,
}

/// The feature bits `props` offers under `tiling`.
pub open spec fn spec_tiling_features(props: FormatProperties, tiling: ImageTiling) -> u32 {
    if tiling == ImageTiling::Linear {
        props.linear_tiling_features
    } else {
        props.optimal_tiling_features
    }
}

/// Whether `props` supports all of `features` under `tiling`.
pub open spec fn spec_format_supported(
    props: FormatProperties,
    tiling: ImageTiling,
    features: u32,
) -> bool {
    spec_tiling_features(props, tiling) & features == features
}

/// Picks the first candidate format that supports all the requested
/// feature bits under the requested tiling; with no such candidate the
/// search is a hard setup-time error.
pub fn find_supported_format(
    candidates: &Vec<FormatProperties>,
    tiling: ImageTiling,
    features: u32,
) -> (r: Result<u32, CapabilityError>)
    ensures
        r is Ok <==> exists|i: int|
            0 <= i < candidates@.len() && spec_format_supported(candidates@[i], tiling, features),
        r is Err ==> r == Err::<u32, CapabilityError>(CapabilityError::NoSupportedFormat),
        forall|i: int|
            0 <= i < candidates@.len() && spec_format_supported(
                #[trigger] candidates@[i],
                tiling,
                features,
            ) && (forall|j: int|
                0 <= j < i ==> !spec_format_supported(candidates@[j], tiling, features)) ==> r
                == Ok::<u32, CapabilityError>(candidates@[i].format),
{
    let n: usize = candidates.len();
    for i in 0..n
        invariant
            n == candidates@.len(),
            forall|j: int|
                0 <= j < i ==> !spec_format_supported(#[trigger] candidates@[j], tiling, features),
    {
        let props = candidates[i];
        let offered = if matches!(tiling, ImageTiling::Linear) {
            props.linear_tiling_features
        } else {
            props.optimal_tiling_features
        };
        if offered & features == features {
            assert(spec_format_supported(candidates@[i as int], tiling, features));
            return Ok(props.format);
        }
    }
    Err(CapabilityError::NoSupportedFormat)
}

/// The depth formats tried, best first, when building the depth image.
pub fn depth_format_candidates() -> (r: Vec<u32>)
    ensures
        r@ == seq![FORMAT_D32_SFLOAT, FORMAT_D32_SFLOAT_S8_UINT, FORMAT_D24_UNORM_S8_UINT],
{
    let mut v: Vec<u32> = Vec::new();
    v.push(FORMAT_D32_SFLOAT);
    v.push(FORMAT_D32_SFLOAT_S8_UINT);
    v.push(FORMAT_D24_UNORM_S8_UINT);
    proof {
        assert(v@ =~= seq![FORMAT_D32_SFLOAT, FORMAT_D32_SFLOAT_S8_UINT, FORMAT_D24_UNORM_S8_UINT]);
    }
    v
}

/// Decides whether mip chains can be generated for a format: its
/// optimal-tiling features must include linear-filtered sampling; if not,
/// that is a hard error reported before any blit is attempted.
pub fn check_mipmap_support(optimal_tiling_features: u32) -> (r: Result<(), CapabilityError>)
    ensures
        r is Ok <==> optimal_tiling_features & FEATURE_SAMPLED_IMAGE_FILTER_LINEAR
            == FEATURE_SAMPLED_IMAGE_FILTER_LINEAR,
        r is Err ==> r == Err::<(), CapabilityError>(CapabilityError::LinearFilterUnsupported),
{
    if optimal_tiling_features & FEATURE_SAMPLED_IMAGE_FILTER_LINEAR
        == FEATURE_SAMPLED_IMAGE_FILTER_LINEAR {
        Ok(())
    } else {
        Err(CapabilityError::LinearFilterUnsupported)
    }
}

} // verus!
