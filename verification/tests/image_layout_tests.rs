use render_core::image_layout::{
    aspect_mask, check_mipmap_support, depth_format_candidates, find_supported_format,
    has_stencil_component, transition_masks, BarrierPlan, CapabilityError, FormatProperties,
    ImageLayout, ImageTiling, ACCESS_DEPTH_STENCIL_READ, ACCESS_DEPTH_STENCIL_WRITE,
    ACCESS_SHADER_READ, ACCESS_TRANSFER_WRITE, ASPECT_COLOR, ASPECT_DEPTH, ASPECT_STENCIL,
    FEATURE_SAMPLED_IMAGE_FILTER_LINEAR, FORMAT_D24_UNORM_S8_UINT, FORMAT_D32_SFLOAT,
    FORMAT_D32_SFLOAT_S8_UINT, STAGE_EARLY_FRAGMENT_TESTS, STAGE_FRAGMENT_SHADER,
    STAGE_TOP_OF_PIPE, STAGE_TRANSFER,
};

#[test]
fn transition_into_transfer_dst() {
    let plan = transition_masks(ImageLayout::Undefined, ImageLayout::TransferDst).unwrap();
    assert_eq!(
        plan,
        BarrierPlan {
            src_access: 0,
            dst_access: ACCESS_TRANSFER_WRITE,
            src_stage: STAGE_TOP_OF_PIPE,
            dst_stage: STAGE_TRANSFER,
        }
    );
}

#[test]
fn transition_into_shader_read() {
    let plan = transition_masks(ImageLayout::TransferDst, ImageLayout::ShaderReadOnly).unwrap();
    assert_eq!(
        plan,
        BarrierPlan {
            src_access: ACCESS_TRANSFER_WRITE,
            dst_access: ACCESS_SHADER_READ,
            src_stage: STAGE_TRANSFER,
            dst_stage: STAGE_FRAGMENT_SHADER,
        }
    );
}

#[test]
fn transition_into_depth_attachment() {
    let plan =
        transition_masks(ImageLayout::Undefined, ImageLayout::DepthStencilAttachment).unwrap();
    assert_eq!(
        plan,
        BarrierPlan {
            src_access: 0,
            dst_access: ACCESS_DEPTH_STENCIL_READ | ACCESS_DEPTH_STENCIL_WRITE,
            src_stage: STAGE_TOP_OF_PIPE,
            dst_stage: STAGE_EARLY_FRAGMENT_TESTS,
        }
    );
}

#[test]
fn unsupported_transition_is_refused() {
    let r = transition_masks(ImageLayout::ShaderReadOnly, ImageLayout::TransferDst);
    assert_eq!(r, Err(CapabilityError::UnsupportedLayoutTransition));
    let r2 = transition_masks(ImageLayout::TransferSrc, ImageLayout::ShaderReadOnly);
    assert_eq!(r2, Err(CapabilityError::UnsupportedLayoutTransition));
}

#[test]
fn stencil_component_by_format() {
    assert!(has_stencil_component(FORMAT_D32_SFLOAT_S8_UINT));
    assert!(has_stencil_component(FORMAT_D24_UNORM_S8_UINT));
    assert!(!has_stencil_component(FORMAT_D32_SFLOAT));
}

#[test]
fn aspect_for_depth_attachment() {
    assert_eq!(
        aspect_mask(ImageLayout::DepthStencilAttachment, FORMAT_D32_SFLOAT_S8_UINT),
        ASPECT_DEPTH | ASPECT_STENCIL
    );
    assert_eq!(aspect_mask(ImageLayout::DepthStencilAttachment, FORMAT_D32_SFLOAT), ASPECT_DEPTH);
    assert_eq!(aspect_mask(ImageLayout::TransferDst, FORMAT_D32_SFLOAT), ASPECT_COLOR);
}

#[test]
fn mipmap_support_requires_linear_filtering() {
    assert_eq!(check_mipmap_support(FEATURE_SAMPLED_IMAGE_FILTER_LINEAR), Ok(()));
    assert_eq!(
        check_mipmap_support(FEATURE_SAMPLED_IMAGE_FILTER_LINEAR | 0x4),
        Ok(())
    );
    assert_eq!(check_mipmap_support(0x4), Err(CapabilityError::LinearFilterUnsupported));
}

#[test]
fn first_supported_format_wins() {
    let feature = 0x200u32;
    let candidates = vec![
        FormatProperties { format: 10, linear_tiling_features: feature, optimal_tiling_features: 0 },
        FormatProperties { format: 11, linear_tiling_features: 0, optimal_tiling_features: feature },
        FormatProperties { format: 12, linear_tiling_features: 0, optimal_tiling_features: feature },
    ];
    assert_eq!(find_supported_format(&candidates, ImageTiling::Optimal, feature), Ok(11));
    assert_eq!(find_supported_format(&candidates, ImageTiling::Linear, feature), Ok(10));
}

#[test]
fn no_supported_format_is_an_error() {
    let candidates = vec![FormatProperties {
        format: 10,
        linear_tiling_features: 0,
        optimal_tiling_features: 0,
    }];
    assert_eq!(
        find_supported_format(&candidates, ImageTiling::Optimal, 0x200),
        Err(CapabilityError::NoSupportedFormat)
    );
}

#[test]
fn depth_candidates_in_preference_order() {
    let v = depth_format_candidates();
    assert_eq!(v, vec![FORMAT_D32_SFLOAT, FORMAT_D32_SFLOAT_S8_UINT, FORMAT_D24_UNORM_S8_UINT]);
}
