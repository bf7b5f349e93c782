//! Texture upload validation and the staging-transfer plan.
//!
//! Texture bytes arrive as whole RGBA pixels forming whole rows; anything
//! else is rejected before any GPU resource would be created. A valid
//! upload becomes a plan: the staging buffer's exact contents and the
//! fixed order of layout transitions the one-shot transfer command buffer
//! must record — transition the image for transfer, copy the buffer into
//! it, transition it for shader reads. `texel` reads the plan's staging
//! bytes the way the GPU will address the image (row-major, four bytes per
//! pixel), which is what an offline sampling harness checks.
use vstd::prelude::*;

verus! {

use crate::EngineError;

/// Bytes per pixel: red, green, blue, alpha.
pub const TEXTURE_CHANNELS: u32 = 4;

/// One step of the one-shot transfer command buffer.
#[derive(Copy, Clone, Debug, PartialEq, Eq, Structural)]
pub enum UploadStep {
    /// Move the image into the layout that accepts transfer writes
    TransitionToTransferDst,
    /// Copy the staging buffer into the image
    CopyBufferToImage,
    /// Move the image into the layout shaders sample from
    TransitionToShaderRead,
}

/// The pixel bytes form whole RGBA pixels, whole rows of `width` of them,
/// at least one, and the row count fits the extent type.
pub open spec fn texture_dims_ok(len: int, width: int) -> bool {
    &&& len > 0
    &&& width > 0
    &&& len % 4 == 0
    &&& (len / 4) % width == 0
    &&& (len / 4) / width <= u32::MAX
}

/// The canonical transfer order.
pub open spec fn upload_steps_spec() -> Seq<UploadStep> {
    seq![
        UploadStep::TransitionToTransferDst,
        UploadStep::CopyBufferToImage,
        UploadStep::TransitionToShaderRead,
    ]
}

/// Everything the surrounding layer needs to perform one texture upload.
pub struct TextureUploadPlan {
    /// Image width in pixels
    pub width: u32,
    /// Image height in pixels
    pub height: u32,
    /// The staging buffer's contents: the pixel bytes, row-major
    pub staging: Vec<u8>,
    /// The transfer command buffer's steps, in recording order
    pub steps: Vec<UploadStep>,
}

impl TextureUploadPlan {
    pub open spec fn wf(self) -> bool {
        &&& self.width > 0
        &&& self.height > 0
        &&& self.staging@.len() == 4 * self.width * self.height
        &&& self.steps@ == upload_steps_spec()
    }
}

/// Validate texture bytes and build the upload plan. Succeeds exactly when
/// the bytes form whole RGBA pixels in whole rows of `width`; the staging
/// buffer then carries the bytes unchanged and the transfer steps come in
/// the canonical order.
pub fn texture_upload_plan(pixels: &Vec<u8>, width: u32) -> (r: Result<
    TextureUploadPlan,
    EngineError,
>)
    ensures
        r is Ok <==> texture_dims_ok(pixels@.len() as int, width as int),
        r matches Ok(plan) ==> {
            &&& plan.wf()
            &&& plan.width == width
            &&& plan.height == (pixels@.len() as int / 4) / (width as int)
            &&& plan.staging@ == pixels@
        },
        r is Err ==> r == Err::<TextureUploadPlan, EngineError>(EngineError::TextureDimensions),
{
    let len = pixels.len();
    if len == 0 || width == 0 || len % 4 != 0 {
        return Err(EngineError::TextureDimensions);
    }
    let pixel_count = len / 4;
    if pixel_count % (width as usize) != 0 {
        return Err(EngineError::TextureDimensions);
    }
    let height_usize = pixel_count / (width as usize);
    if height_usize > u32::MAX as usize {
        return Err(EngineError::TextureDimensions);
    }
    let height = height_usize as u32;
    let mut staging: Vec<u8> = Vec::new();
    let mut i: usize = 0;
    while i < pixels.len()
        invariant
            i <= pixels@.len(),
            staging@ == pixels@.subrange(0, i as int),
        decreases pixels@.len() - i,
    {
        staging.push(pixels[i]);
        proof {
            assert(staging@ =~= pixels@.subrange(0, i + 1));
        }
        i = i + 1;
    }
    proof {
        assert(staging@ =~= pixels@);
        let ln = pixels@.len() as int;
        let wd = width as int;
        let p = ln / 4;
        let q = p / wd;
        vstd::arithmetic::div_mod::lemma_fundamental_div_mod(ln, 4);
        vstd::arithmetic::div_mod::lemma_fundamental_div_mod(p, wd);
        assert(4 * q * wd == ln && 4 * wd * q == ln) by (nonlinear_arith)
            requires
                ln == 4 * p,
                p == wd * q,
        ;
    }
    let mut steps: Vec<UploadStep> = Vec::new();
    steps.push(UploadStep::TransitionToTransferDst);
    steps.push(UploadStep::CopyBufferToImage);
    steps.push(UploadStep::TransitionToShaderRead);
    proof {
        assert(steps@ =~= upload_steps_spec());
    }
    Ok(TextureUploadPlan { width, height, staging, steps })
}

/// The four bytes of the texel at `(x, y)`, addressed row-major exactly as
/// the buffer-to-image copy lays the staging bytes out.
pub fn texel(plan: &TextureUploadPlan, x: u32, y: u32) -> (r: [u8; 4])
    requires
        plan.wf(),
        x < plan.width,
        y < plan.height,
    ensures
        r@ == plan.staging@.subrange(
            4 * ((y as int) * (plan.width as int) + x as int),
            4 * ((y as int) * (plan.width as int) + x as int) + 4,
        ),
{
    proof {
        let w = plan.width as int;
        let h = plan.height as int;
        let xi = x as int;
        let yi = y as int;
        assert(4 * (yi * w + xi) + 4 <= 4 * w * h) by (nonlinear_arith)
            requires
                0 <= xi < w,
                0 <= yi < h,
        ;
    }
    let n = plan.staging.len();
    let offset: usize = 4 * ((y as usize) * (plan.width as usize) + (x as usize));
    let r = [plan.staging[offset], plan.staging[offset + 1], plan.staging[offset + 2], plan.staging[offset + 3]];
    proof {
        assert(r@ =~= plan.staging@.subrange(
            4 * ((y as int) * (plan.width as int) + x as int),
            4 * ((y as int) * (plan.width as int) + x as int) + 4,
        ));
    }
    r
}

} // verus!
