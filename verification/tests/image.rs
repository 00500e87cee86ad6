use asaogea::gfx::image::{
    aspect, is_supported_transition, AccessMask, ImageAspect, ImageLayout, ImageState, LayoutBarrier, PipelineStage,
};

#[test]
fn only_the_upload_transitions_are_supported() {
    assert!(is_supported_transition(ImageLayout::Undefined, ImageLayout::TransferDstOptimal));
    assert!(is_supported_transition(ImageLayout::TransferDstOptimal, ImageLayout::ShaderReadOnlyOptimal));
    assert!(!is_supported_transition(ImageLayout::Undefined, ImageLayout::ShaderReadOnlyOptimal));
    assert!(!is_supported_transition(ImageLayout::ShaderReadOnlyOptimal, ImageLayout::TransferDstOptimal));
    assert!(!is_supported_transition(ImageLayout::Other(2), ImageLayout::TransferDstOptimal));
}

#[test]
fn aspects() {
    assert_eq!(aspect(true), ImageAspect::Depth);
    assert_eq!(aspect(false), ImageAspect::Color);
}

#[test]
fn uploading_goes_through_a_copy_destination() {
    let mut image = ImageState::new(false, 3);
    assert_eq!(image.layout(), ImageLayout::Undefined);
    let (before, after) = image.upload_barriers();
    assert_eq!(
        before,
        LayoutBarrier {
            old_layout: ImageLayout::Undefined,
            new_layout: ImageLayout::TransferDstOptimal,
            src_access: AccessMask::Nothing,
            dst_access: AccessMask::TransferWrite,
            src_stage: PipelineStage::TopOfPipe,
            dst_stage: PipelineStage::Transfer,
            aspect: ImageAspect::Color,
            level_count: 3,
        }
    );
    assert_eq!(
        after,
        LayoutBarrier {
            old_layout: ImageLayout::TransferDstOptimal,
            new_layout: ImageLayout::ShaderReadOnlyOptimal,
            src_access: AccessMask::TransferWrite,
            dst_access: AccessMask::ShaderRead,
            src_stage: PipelineStage::Transfer,
            dst_stage: PipelineStage::FragmentShader,
            aspect: ImageAspect::Color,
            level_count: 3,
        }
    );
    assert_eq!(image.layout(), ImageLayout::ShaderReadOnlyOptimal);
}

#[test]
fn depth_images_transition_their_depth_aspect() {
    let mut image = ImageState::new(true, 1);
    let barrier = image.transition(ImageLayout::TransferDstOptimal);
    assert_eq!(barrier.aspect, ImageAspect::Depth);
    assert_eq!(image.layout(), ImageLayout::TransferDstOptimal);
}
