//! Frame-rendering engine core: resource registries with generational
//! handles, frame-in-flight synchronization, descriptor-set pool batching,
//! target-image bookkeeping, portal-crossing tracking, and the multi-pass
//! portal-compositing command recorder.
//!
//! The engine is split in two layers. This crate is the decision layer: it
//! owns every registry, ring index, pool count and command-stream rule, and
//! each of its functions carries a verified contract. The surrounding
//! application layer performs the GPU calls (allocation, submission,
//! presentation) that this crate decides on, and feeds the outcomes back in
//! as plain values.
use vstd::prelude::*;

pub mod desc_set_allocator;
pub mod engine;
pub mod frame_sync;
pub mod handle;
pub mod matrix;
pub mod portal;
pub mod record;
pub mod swapchain_images;
pub mod target_time;
pub mod texture;
pub mod vertex;

verus! {

use crate::handle::Handle;
use crate::matrix::Mat4;

/// How a material rasterizes its mesh.
#[derive(Copy, Clone, Debug, PartialEq, Eq, Structural)]
pub enum DrawType {
    /// Lines in between each pair of indices
    Lines,
    /// Pointcloud
    Points,
    /// Normal triangular rendering
    Triangles,
}

/// Texture filtering mode; selects filter, mipmap mode and anisotropy.
#[derive(Copy, Clone, Debug, PartialEq, Eq, Structural)]
pub enum Sampling {
    /// Nearest-texel filtering, no anisotropy
    Nearest,
    /// Linear filtering with anisotropy
    Linear,
}

/// Every failure the engine reports as a value rather than a panic.
#[derive(Copy, Clone, Debug, PartialEq, Eq, Structural)]
pub enum EngineError {
    /// Shader bytecode was rejected (wrong length or magic number)
    InvalidSpirv,
    /// A mesh was given zero vertices or zero indices
    EmptyMesh,
    /// A mesh has more indices than the index type can count
    TooManyIndices,
    /// Texture bytes are not whole RGBA pixels, or rows do not divide evenly
    TextureDimensions,
    /// A handle refers to an entry that was removed or never existed
    StaleHandle,
    /// A fixed-point transform computation left the representable range
    Overflow,
}

impl EngineError {
    /// A short diagnostic text for logs.
    pub fn describe(&self) -> &'static str {
        match self {
            EngineError::InvalidSpirv => "shader bytecode is not valid SPIR-V",
            EngineError::EmptyMesh => "mesh has no vertices or no indices",
            EngineError::TooManyIndices => "mesh index count exceeds the index type",
            EngineError::TextureDimensions => "texture bytes do not form whole rows of RGBA pixels",
            EngineError::StaleHandle => "handle does not name a live entry",
            EngineError::Overflow => "transform arithmetic left the representable range",
        }
    }
}

/// Handle to a material (a compiled pipeline for one shader pair and
/// topology).
#[derive(Copy, Clone, Debug, PartialEq, Eq, Hash, Structural)]
pub struct MaterialHandle(pub Handle);

/// Handle to a mesh (vertex and index buffers plus an index count).
#[derive(Copy, Clone, Debug, PartialEq, Eq, Hash, Structural)]
pub struct MeshHandle(pub Handle);

/// Handle to a texture (image, view, sampler and per-frame descriptor
/// sets).
#[derive(Copy, Clone, Debug, PartialEq, Eq, Hash, Structural)]
pub struct TextureHandle(pub Handle);

/// A single drawable in the scene, rebuilt every frame.
#[derive(Copy, Clone, Debug, PartialEq, Eq, Structural)]
pub struct Object {
    /// How to draw this object
    pub material: MaterialHandle,
    /// Vertex and index data for the object
    pub mesh: MeshHandle,
    /// Transformation applied to each vertex of this object
    pub transform: Mat4,
}

/// One of the two linked portal surfaces: a quad mesh and the affine
/// transform placing the portal plane in the world.
#[derive(Copy, Clone, Debug, PartialEq, Eq, Structural)]
pub struct Portal {
    /// The portal's quad
    pub mesh: MeshHandle,
    /// Orientation and position of the portal plane
    pub transform: Mat4,
}

/// The full per-frame scene description.
#[derive(Clone)]
pub struct FramePacket {
    /// The entire scene's worth of objects
    pub objects: Vec<Object>,
    /// The linked pair: orange first, then blue
    pub portals: [Portal; 2],
    /// Accumulated portal-crossing transform to prepend to the camera,
    /// when the tracker produced one this frame
    pub base_transform: Option<Mat4>,
}

/// What the registry holds for a material.
#[derive(Copy, Clone, Debug, PartialEq, Eq, Structural)]
pub struct MaterialRecord {
    /// Primitive topology of the pipeline
    pub draw_type: DrawType,
}

/// What the registry holds for a mesh.
#[derive(Copy, Clone, Debug, PartialEq, Eq, Structural)]
pub struct MeshRecord {
    /// How many indices a draw of this mesh covers
    pub n_indices: u32,
    /// Name of the vertex buffer the surrounding layer allocated
    pub vertex_buffer: u64,
    /// Name of the index buffer the surrounding layer allocated
    pub index_buffer: u64,
}

/// What the registry holds for a texture.
#[derive(Clone, Debug)]
pub struct TextureRecord {
    /// Image width in pixels
    pub width: u32,
    /// Image height in pixels
    pub height: u32,
    /// Filtering mode the sampler was built with
    pub sampling: Sampling,
    /// One descriptor set per in-flight frame, in frame-slot order
    pub descriptor_sets: Vec<u64>,
}

} // verus!
