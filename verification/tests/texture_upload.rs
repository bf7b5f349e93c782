use klystron::texture::{texel, texture_upload_plan, UploadStep};
use klystron::EngineError;

fn checkerboard() -> Vec<u8> {
    // 2x2 RGBA: white, black / black, white.
    vec![
        255, 255, 255, 255, //
        0, 0, 0, 255, //
        0, 0, 0, 255, //
        255, 255, 255, 255,
    ]
}

#[test]
fn checkerboard_round_trips_through_the_staging_plan() {
    // add_texture with width 2 and a 2x2 RGBA checkerboard, sampled back
    // texel by texel, reproduces the checkerboard.
    let pixels = checkerboard();
    let plan = texture_upload_plan(&pixels, 2).unwrap();
    assert_eq!(plan.width, 2);
    assert_eq!(plan.height, 2);
    assert_eq!(texel(&plan, 0, 0), [255, 255, 255, 255]);
    assert_eq!(texel(&plan, 1, 0), [0, 0, 0, 255]);
    assert_eq!(texel(&plan, 0, 1), [0, 0, 0, 255]);
    assert_eq!(texel(&plan, 1, 1), [255, 255, 255, 255]);
}

#[test]
fn staging_carries_the_bytes_unchanged() {
    let pixels = checkerboard();
    let plan = texture_upload_plan(&pixels, 2).unwrap();
    assert_eq!(plan.staging, pixels);
}

#[test]
fn transfer_steps_come_in_the_canonical_order() {
    let plan = texture_upload_plan(&checkerboard(), 2).unwrap();
    assert_eq!(
        plan.steps,
        vec![
            UploadStep::TransitionToTransferDst,
            UploadStep::CopyBufferToImage,
            UploadStep::TransitionToShaderRead,
        ]
    );
}

#[test]
fn ragged_pixel_bytes_are_rejected() {
    let r = texture_upload_plan(&vec![1, 2, 3], 1);
    assert_eq!(r.err(), Some(EngineError::TextureDimensions));
}

#[test]
fn partial_rows_are_rejected() {
    // Three pixels cannot form whole rows of width two.
    let r = texture_upload_plan(&vec![0; 12], 2);
    assert_eq!(r.err(), Some(EngineError::TextureDimensions));
}

#[test]
fn empty_textures_are_rejected() {
    let r = texture_upload_plan(&vec![], 2);
    assert_eq!(r.err(), Some(EngineError::TextureDimensions));
}

#[test]
fn zero_width_is_rejected() {
    let r = texture_upload_plan(&vec![0; 16], 0);
    assert_eq!(r.err(), Some(EngineError::TextureDimensions));
}

#[test]
fn tall_single_column_textures_work() {
    let pixels = vec![7; 16];
    let plan = texture_upload_plan(&pixels, 1).unwrap();
    assert_eq!(plan.height, 4);
    assert_eq!(texel(&plan, 0, 3), [7, 7, 7, 7]);
}
