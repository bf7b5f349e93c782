//! The engine core: registries, per-frame resources, and the render
//! orchestration around them.
//!
//! The core owns the three resource registries (materials, meshes,
//! textures), the frame-in-flight ring, the descriptor-set batcher, the
//! target-image bookkeeping, and the per-frame camera and time uniform
//! values. Every per-frame resource is replicated once per in-flight frame
//! and indexed by the frame slot. The GPU objects these decisions are
//! about — pipelines, buffers, images — live in the surrounding layer,
//! keyed by the handles and buffer names issued here; resource removal
//! hands the caller the duty to wait for device idle before releasing the
//! matching GPU memory, as the method contracts note.
use vstd::prelude::*;

verus! {

use crate::desc_set_allocator::{
    after_pops, desc_sets_available, ids_of_pops, DescriptorSetAllocator, DescriptorKind,
    PoolSize, SETS_PER_POOL,
};
use crate::frame_sync::FrameSync;
use crate::handle::HandleMap;
use crate::record::{record_frame, record_frame_cmds, record_frame_skips, RecordedFrame};
use crate::swapchain_images::SwapchainImages;
use crate::vertex::Vertex;
use crate::{
    DrawType, EngineError, FramePacket, MaterialHandle, MaterialRecord, MeshHandle, MeshRecord,
    Sampling, TextureHandle, TextureRecord,
};

/// The little-endian 32-bit word starting at byte `4 * i`.
pub open spec fn le_word_at(bytes: Seq<u8>, i: int) -> int {
    bytes[4 * i] + 256 * (bytes[4 * i + 1] + 256 * (bytes[4 * i + 2] + 256 * (bytes[4 * i + 3])))
}

/// The bytes decode as SPIR-V: a whole number of 32-bit words, at least
/// one, and the first word is the SPIR-V magic number in either byte
/// order.
pub open spec fn spirv_valid(bytes: Seq<u8>) -> bool {
    &&& bytes.len() % 4 == 0
    &&& bytes.len() >= 4
    &&& (le_word_at(bytes, 0) == 0x07230203 || le_word_at(bytes, 0) == 0x03022307)
}

/// Relies on erupt::utils::decode_spv: decoding succeeds exactly when the
/// byte length is a whole number of 32-bit words and the first decoded
/// word is the SPIR-V magic number, in little-endian or byte-swapped
/// order.
#[verifier::external_body]
pub(crate) fn spirv_decodes(bytes: &[u8]) -> (r: bool)
    ensures
        r == spirv_valid(bytes@),
{
    erupt::utils::decode_spv(bytes).is_ok()
}

/// The frame rendering core.
pub struct Core {
    /// Compiled pipelines by handle
    pub materials: HandleMap<MaterialRecord>,
    /// Vertex/index buffer pairs by handle
    pub meshes: HandleMap<MeshRecord>,
    /// Images with samplers and per-frame descriptor sets by handle
    pub textures: HandleMap<TextureRecord>,
    /// The in-flight frame ring
    pub frame_sync: FrameSync,
    /// Batched descriptor-set source for texture bindings
    pub desc_allocator: DescriptorSetAllocator,
    /// Target images, once a swapchain exists
    pub swapchain_images: Option<SwapchainImages>,
    /// Fixed replication factor of every per-frame resource
    pub frames_in_flight: usize,
    /// Per-frame time uniform value (bit pattern), by frame slot
    pub time_values: Vec<u32>,
    /// Per-frame camera uniform block (bit patterns), by frame slot
    pub camera_data: Vec<[u32; 32]>,
    /// Next unused buffer name to hand to the surrounding layer
    pub next_buffer_id: u64,
    /// Stereo rendering (two views, two depth layers) or windowed
    pub vr: bool,
}

impl Core {
    pub open spec fn wf(self) -> bool {
        &&& self.materials.wf()
        &&& self.meshes.wf()
        &&& self.textures.wf()
        &&& self.frame_sync.wf()
        &&& self.desc_allocator.wf()
        &&& 2 <= self.frames_in_flight
        &&& self.frame_sync.n_frames() == self.frames_in_flight
        &&& self.time_values@.len() == self.frames_in_flight
        &&& self.camera_data@.len() == self.frames_in_flight
    }

    /// A fresh core: empty registries, a pre-signaled frame ring, zeroed
    /// per-frame uniform values, and a texture descriptor template of one
    /// combined image sampler per set.
    pub fn new(frames_in_flight: usize, vr: bool) -> (r: Self)
        requires
            2 <= frames_in_flight,
        ensures
            r.wf(),
            r.frames_in_flight == frames_in_flight,
            r.vr == vr,
            r.materials.contents() == Map::<crate::handle::Handle, MaterialRecord>::empty(),
            r.meshes.contents() == Map::<crate::handle::Handle, MeshRecord>::empty(),
            r.textures.contents() == Map::<crate::handle::Handle, TextureRecord>::empty(),
            r.frame_sync.idx() == 0,
            r.desc_allocator.state().n_pools == 0,
            r.desc_allocator.state().spare.len() == 0,
            r.swapchain_images is None,
            r.next_buffer_id == 0,
            forall|i: int| 0 <= i < frames_in_flight ==> #[trigger] r.time_values@[i] == 0,
            forall|i: int, j: int|
                0 <= i < frames_in_flight && 0 <= j < 32 ==> #[trigger] r.camera_data@[i]@[j]
                    == 0,
    {
        let mut template: Vec<PoolSize> = Vec::new();
        template.push(PoolSize { kind: DescriptorKind::CombinedImageSampler, count: 1 });
        let mut time_values: Vec<u32> = Vec::new();
        let mut camera_data: Vec<[u32; 32]> = Vec::new();
        let mut i: usize = 0;
        while i < frames_in_flight
            invariant
                i <= frames_in_flight,
                time_values@.len() == i,
                camera_data@.len() == i,
                forall|k: int| 0 <= k < i ==> #[trigger] time_values@[k] == 0,
                forall|k: int, j: int|
                    0 <= k < i && 0 <= j < 32 ==> #[trigger] camera_data@[k]@[j] == 0,
            decreases frames_in_flight - i,
        {
            time_values.push(0);
            camera_data.push([0; 32]);
            i = i + 1;
        }
        Core {
            materials: HandleMap::new(),
            meshes: HandleMap::new(),
            textures: HandleMap::new(),
            frame_sync: FrameSync::new(frames_in_flight),
            desc_allocator: DescriptorSetAllocator::new(template),
            swapchain_images: None,
            frames_in_flight,
            time_values,
            camera_data,
            next_buffer_id: 0,
            vr,
        }
    }

    /// Register a material from shader bytecode. Succeeds exactly when
    /// both bytecodes decode as SPIR-V; the surrounding layer then builds
    /// the pipeline for the issued handle.
    pub fn add_material(&mut self, vertex: &[u8], fragment: &[u8], draw_type: DrawType) -> (r:
        Result<MaterialHandle, EngineError>)
        requires
            old(self).wf(),
        ensures
            final(self).wf(),
            r matches Ok(h) ==> {
                &&& spirv_valid(vertex@) && spirv_valid(fragment@)
                &&& !old(self).materials.live(h.0)
                &&& !old(self).materials.stale(h.0)
                &&& final(self).materials.contents() == old(self).materials.contents().insert(
                    h.0,
                    MaterialRecord { draw_type },
                )
                &&& final(self).meshes == old(self).meshes
                &&& final(self).textures == old(self).textures
                &&& final(self).frame_sync == old(self).frame_sync
                &&& final(self).desc_allocator == old(self).desc_allocator
                &&& final(self).next_buffer_id == old(self).next_buffer_id
                &&& final(self).time_values == old(self).time_values
                &&& final(self).camera_data == old(self).camera_data
                &&& final(self).frames_in_flight == old(self).frames_in_flight
            },
            r is Err <==> !(spirv_valid(vertex@) && spirv_valid(fragment@)),
            r is Err ==> r == Err::<MaterialHandle, EngineError>(EngineError::InvalidSpirv)
                && *final(self) == *old(self),
    {
        if !spirv_decodes(vertex) || !spirv_decodes(fragment) {
            return Err(EngineError::InvalidSpirv);
        }
        let h = self.materials.insert(MaterialRecord { draw_type });
        Ok(MaterialHandle(h))
    }

    /// Remove a material. Succeeds exactly when the handle is live; the
    /// caller must wait for device idle before destroying the pipeline.
    pub fn remove_material(&mut self, material: MaterialHandle) -> (r: Result<(), EngineError>)
        requires
            old(self).wf(),
        ensures
            final(self).wf(),
            r is Ok <==> old(self).materials.contents().contains_key(material.0),
            r is Ok ==> {
                &&& final(self).materials.contents() == old(self).materials.contents().remove(
                    material.0,
                )
                &&& final(self).materials.stale(material.0)
                &&& final(self).meshes == old(self).meshes
                &&& final(self).textures == old(self).textures
                &&& final(self).frame_sync == old(self).frame_sync
                &&& final(self).desc_allocator == old(self).desc_allocator
                &&& final(self).frames_in_flight == old(self).frames_in_flight
            },
            r is Err ==> r == Err::<(), EngineError>(EngineError::StaleHandle) && *final(self)
                == *old(self),
    {
        match self.materials.remove(material.0) {
            Some(_) => Ok(()),
            None => Err(EngineError::StaleHandle),
        }
    }

    /// Register a mesh. Rejects empty vertex or index data and an index
    /// count beyond the 16-bit-indexed draw's counter; on success the
    /// handle's record names the two buffers the surrounding layer must
    /// allocate and fill with the serialized data.
    pub fn add_mesh(&mut self, vertices: &[Vertex], indices: &[u16]) -> (r: Result<
        MeshHandle,
        EngineError,
    >)
        requires
            old(self).wf(),
        ensures
            final(self).wf(),
            r is Ok <==> (vertices@.len() > 0 && 0 < indices@.len() <= u32::MAX && old(
                self,
            ).next_buffer_id + 2 <= u64::MAX),
            r matches Ok(h) ==> {
                &&& vertices@.len() > 0 && indices@.len() > 0
                &&& indices@.len() <= u32::MAX
                &&& old(self).next_buffer_id + 2 <= u64::MAX
                &&& !old(self).meshes.live(h.0)
                &&& !old(self).meshes.stale(h.0)
                &&& final(self).meshes.contents() == old(self).meshes.contents().insert(
                    h.0,
                    MeshRecord {
                        n_indices: indices@.len() as u32,
                        vertex_buffer: old(self).next_buffer_id,
                        index_buffer: (old(self).next_buffer_id + 1) as u64,
                    },
                )
                &&& final(self).next_buffer_id == old(self).next_buffer_id + 2
                &&& final(self).materials == old(self).materials
                &&& final(self).textures == old(self).textures
                &&& final(self).frame_sync == old(self).frame_sync
                &&& final(self).desc_allocator == old(self).desc_allocator
                &&& final(self).time_values == old(self).time_values
                &&& final(self).camera_data == old(self).camera_data
                &&& final(self).frames_in_flight == old(self).frames_in_flight
            },
            r == Err::<MeshHandle, EngineError>(EngineError::EmptyMesh) <==> (vertices@.len() == 0
                || indices@.len() == 0),
            r == Err::<MeshHandle, EngineError>(EngineError::TooManyIndices) <==> (vertices@.len()
                > 0 && indices@.len() > u32::MAX),
            r == Err::<MeshHandle, EngineError>(EngineError::Overflow) <==> (vertices@.len() > 0
                && 0 < indices@.len() <= u32::MAX && old(self).next_buffer_id + 2 > u64::MAX),
            r is Err ==> *final(self) == *old(self),
    {
        if vertices.len() == 0 || indices.len() == 0 {
            return Err(EngineError::EmptyMesh);
        }
        if indices.len() > u32::MAX as usize {
            return Err(EngineError::TooManyIndices);
        }
        if self.next_buffer_id > u64::MAX - 2 {
            return Err(EngineError::Overflow);
        }
        let vertex_buffer = self.next_buffer_id;
        let index_buffer = self.next_buffer_id + 1;
        self.next_buffer_id = self.next_buffer_id + 2;
        let h = self.meshes.insert(
            MeshRecord { n_indices: indices.len() as u32, vertex_buffer, index_buffer },
        );
        Ok(MeshHandle(h))
    }

    /// Remove a mesh. Succeeds exactly when the handle is live; the caller
    /// must wait for device idle before freeing the mesh's buffers.
    pub fn remove_mesh(&mut self, mesh: MeshHandle) -> (r: Result<(), EngineError>)
        requires
            old(self).wf(),
        ensures
            final(self).wf(),
            r is Ok <==> old(self).meshes.contents().contains_key(mesh.0),
            r is Ok ==> {
                &&& final(self).meshes.contents() == old(self).meshes.contents().remove(mesh.0)
                &&& final(self).meshes.stale(mesh.0)
                &&& final(self).materials == old(self).materials
                &&& final(self).textures == old(self).textures
                &&& final(self).frame_sync == old(self).frame_sync
                &&& final(self).desc_allocator == old(self).desc_allocator
                &&& final(self).frames_in_flight == old(self).frames_in_flight
            },
            r is Err ==> r == Err::<(), EngineError>(EngineError::StaleHandle) && *final(self)
                == *old(self),
    {
        match self.meshes.remove(mesh.0) {
            Some(_) => Ok(()),
            None => Err(EngineError::StaleHandle),
        }
    }

    /// Register a texture. Rejects bytes that do not form whole RGBA
    /// pixels in whole rows; on success one descriptor set per in-flight
    /// frame has been drawn from the batcher and recorded with the
    /// texture, and the surrounding layer performs the staging upload.
    pub fn add_texture(&mut self, pixels: &Vec<u8>, width: u32, sampling: Sampling) -> (r: Result<
        TextureHandle,
        EngineError,
    >)
        requires
            old(self).wf(),
        ensures
            final(self).wf(),
            r is Ok <==> (crate::texture::texture_dims_ok(pixels@.len() as int, width as int)
                && old(self).frames_in_flight <= desc_sets_available(
                old(self).desc_allocator.state(),
            )),
            r matches Ok(h) ==> {
                &&& crate::texture::texture_dims_ok(pixels@.len() as int, width as int)
                &&& !old(self).textures.live(h.0)
                &&& !old(self).textures.stale(h.0)
                &&& final(self).textures.contents().contains_key(h.0)
                &&& final(self).textures.contents() == old(self).textures.contents().insert(
                    h.0,
                    final(self).textures.contents()[h.0],
                )
                &&& final(self).textures.contents()[h.0].width == width
                &&& final(self).textures.contents()[h.0].height == (pixels@.len() as int / 4) / (
                width as int)
                &&& final(self).textures.contents()[h.0].sampling == sampling
                &&& final(self).textures.contents()[h.0].descriptor_sets@ == ids_of_pops(
                    old(self).desc_allocator.state(),
                    old(self).frames_in_flight as nat,
                )
                &&& final(self).desc_allocator.state() == after_pops(
                    old(self).desc_allocator.state(),
                    old(self).frames_in_flight as nat,
                )
                &&& final(self).materials == old(self).materials
                &&& final(self).meshes == old(self).meshes
                &&& final(self).frame_sync == old(self).frame_sync
                &&& final(self).next_buffer_id == old(self).next_buffer_id
                &&& final(self).time_values == old(self).time_values
                &&& final(self).camera_data == old(self).camera_data
                &&& final(self).frames_in_flight == old(self).frames_in_flight
            },
            r == Err::<TextureHandle, EngineError>(EngineError::TextureDimensions)
                <==> !crate::texture::texture_dims_ok(pixels@.len() as int, width as int),
            r == Err::<TextureHandle, EngineError>(EngineError::Overflow)
                <==> crate::texture::texture_dims_ok(pixels@.len() as int, width as int)
                && old(self).frames_in_flight > desc_sets_available(
                old(self).desc_allocator.state(),
            ),
            r is Err ==> *final(self) == *old(self),
    {
        let len = pixels.len();
        if len == 0 || width == 0 || len % 4 != 0 {
            return Err(EngineError::TextureDimensions);
        }
        let pixel_count = len / 4;
        if pixel_count % (width as usize) != 0 {
            return Err(EngineError::TextureDimensions);
        }
        let height_usize = pixel_count / (width as usize);
        if height_usize > u32::MAX as usize {
            return Err(EngineError::TextureDimensions);
        }
        let height = height_usize as u32;
        let n = self.frames_in_flight;
        let pools = self.desc_allocator.pool_count();
        let spare = self.desc_allocator.spare_count();
        proof {
            vstd::arithmetic::div_mod::lemma_fundamental_div_mod(
                u64::MAX as int,
                SETS_PER_POOL as int,
            );
        }
        let headroom = (crate::desc_set_allocator::MAX_POOLS - pools) * SETS_PER_POOL;
        if (n as u64) > spare as u64 && (n as u64) - (spare as u64) > headroom {
            return Err(EngineError::Overflow);
        }
        let ghost desc0 = self.desc_allocator.state();
        let mut sets: Vec<u64> = Vec::new();
        let mut j: usize = 0;
        while j < n
            invariant
                j <= n,
                self.desc_allocator.wf(),
                self.desc_allocator.template_spec() == old(self).desc_allocator.template_spec(),
                after_pops(self.desc_allocator.state(), (n - j) as nat) == after_pops(
                    desc0,
                    n as nat,
                ),
                sets@ + ids_of_pops(self.desc_allocator.state(), (n - j) as nat) == ids_of_pops(
                    desc0,
                    n as nat,
                ),
                sets@.len() == j,
                n - j <= desc_sets_available(self.desc_allocator.state()),
                self.materials == old(self).materials,
                self.meshes == old(self).meshes,
                self.textures == old(self).textures,
                self.frame_sync == old(self).frame_sync,
                self.frames_in_flight == old(self).frames_in_flight,
                self.time_values == old(self).time_values,
                self.camera_data == old(self).camera_data,
                self.next_buffer_id == old(self).next_buffer_id,
                self.vr == old(self).vr,
                old(self).wf(),
            decreases n - j,
        {
            match self.desc_allocator.pop() {
                Ok((id, _fresh_pool)) => {
                    sets.push(id);
                    proof {
                        assert(sets@ + ids_of_pops(self.desc_allocator.state(), (n - j - 1) as nat)
                            =~= ids_of_pops(desc0, n as nat));
                    }
                }
                Err(_) => {
                    proof {
                        assert(false);
                    }
                }
            }
            j = j + 1;
        }
        proof {
            assert(sets@ =~= ids_of_pops(desc0, n as nat));
        }
        let h = self.textures.insert(
            TextureRecord { width, height, sampling, descriptor_sets: sets },
        );
        Ok(TextureHandle(h))
    }

    /// Remove a texture. Succeeds exactly when the handle is live; the
    /// caller must wait for device idle before destroying the image and
    /// sampler. The texture's descriptor sets stay with their pools, which
    /// are only ever torn down together.
    pub fn remove_texture(&mut self, texture: TextureHandle) -> (r: Result<(), EngineError>)
        requires
            old(self).wf(),
        ensures
            final(self).wf(),
            r is Ok <==> old(self).textures.contents().contains_key(texture.0),
            r is Ok ==> {
                &&& final(self).textures.contents() == old(self).textures.contents().remove(
                    texture.0,
                )
                &&& final(self).textures.stale(texture.0)
                &&& final(self).materials == old(self).materials
                &&& final(self).meshes == old(self).meshes
                &&& final(self).frame_sync == old(self).frame_sync
                &&& final(self).desc_allocator == old(self).desc_allocator
                &&& final(self).frames_in_flight == old(self).frames_in_flight
            },
            r is Err ==> r == Err::<(), EngineError>(EngineError::StaleHandle) && *final(self)
                == *old(self),
    {
        match self.textures.remove(texture.0) {
            Some(_) => Ok(()),
            None => Err(EngineError::StaleHandle),
        }
    }

    /// Store the camera uniform block (sixteen matrix entries per stereo
    /// view, as bit patterns) for one frame slot.
    pub fn update_camera_data(&mut self, frame_idx: usize, data: &[u32; 32])
        requires
            old(self).wf(),
            frame_idx < old(self).frames_in_flight,
        ensures
            final(self).wf(),
            final(self).camera_data@ == old(self).camera_data@.update(frame_idx as int, *data),
            final(self).time_values == old(self).time_values,
            final(self).materials == old(self).materials,
            final(self).meshes == old(self).meshes,
            final(self).textures == old(self).textures,
            final(self).frame_sync == old(self).frame_sync,
            final(self).frames_in_flight == old(self).frames_in_flight,
    {
        self.camera_data[frame_idx] = *data;
    }

    /// Store the time uniform value (bit pattern) for the frame slot
    /// currently in use, so the update lands in the same slot the next
    /// submission reads.
    pub fn update_time_value(&mut self, time_bits: u32) -> (r: Result<(), EngineError>)
        requires
            old(self).wf(),
        ensures
            final(self).wf(),
            r is Ok,
            final(self).time_values@ == old(self).time_values@.update(
                old(self).frame_sync.idx(),
                time_bits,
            ),
            final(self).camera_data == old(self).camera_data,
            final(self).materials == old(self).materials,
            final(self).meshes == old(self).meshes,
            final(self).textures == old(self).textures,
            final(self).frame_sync == old(self).frame_sync,
    {
        let idx = self.frame_sync.current_frame();
        self.time_values[idx] = time_bits;
        Ok(())
    }

    /// Replace the target-image set after a resize or staleness: fresh
    /// images with no frame associations, sized to the new extent. The
    /// caller must wait for device idle and rebuild the GPU-side
    /// framebuffers first.
    pub fn recreate_swapchain(&mut self, width: u32, height: u32, n_images: usize)
        requires
            old(self).wf(),
        ensures
            final(self).wf(),
            final(self).swapchain_images matches Some(s) && s.n_images() == n_images
                && s.extent_spec() == (width, height) && s.layers_spec() == if old(self).vr {
                2u32
            } else {
                1u32
            },
            final(self).materials == old(self).materials,
            final(self).meshes == old(self).meshes,
            final(self).textures == old(self).textures,
            final(self).frame_sync == old(self).frame_sync,
    {
        let vr = self.vr;
        self.swapchain_images = Some(SwapchainImages::new(width, height, n_images, vr));
    }

    /// Record one frame's full portal-compositing command stream for the
    /// given frame slot: the stream and the skip report equal the
    /// recorder's specification over the registries' current live
    /// contents, materials in registry order.
    pub fn write_command_buffers(&self, frame_idx: usize, packet: &FramePacket) -> (r:
        RecordedFrame)
        requires
            self.wf(),
            frame_idx < self.frames_in_flight,
            self.swapchain_images is Some,
        ensures
            r.commands@ == record_frame_cmds(
                self.materials.live_handles(),
                packet.objects@,
                packet.portals@,
                self.meshes.contents(),
                frame_idx,
                self.swapchain_images.unwrap().extent_spec().0,
                self.swapchain_images.unwrap().extent_spec().1,
            ),
            r.skipped@ == record_frame_skips(
                self.materials.live_handles(),
                packet.objects@,
                packet.portals@,
                self.meshes.contents(),
            ),
    {
        let extent = match &self.swapchain_images {
            Some(s) => s.extent(),
            None => {
                proof {
                    assert(false);
                }
                (0, 0)
            }
        };
        let mats = self.materials.iter();
        record_frame(&mats, &self.meshes, packet, frame_idx, extent.0, extent.1)
    }
}

/// The primitive topology a material's pipeline is assembled with.
#[derive(Copy, Clone, Debug, PartialEq, Eq, Structural)]
pub enum PrimitiveTopology {
    /// One point per index
    PointList,
    /// One line per pair of indices
    LineList,
    /// One triangle per triple of indices
    TriangleList,
}

/// The input-assembly topology each draw type selects.
pub fn primitive_topology(draw_type: DrawType) -> (r: PrimitiveTopology)
    ensures
        draw_type == DrawType::Triangles ==> r == PrimitiveTopology::TriangleList,
        draw_type == DrawType::Points ==> r == PrimitiveTopology::PointList,
        draw_type == DrawType::Lines ==> r == PrimitiveTopology::LineList,
{
    match draw_type {
        DrawType::Triangles => PrimitiveTopology::TriangleList,
        DrawType::Points => PrimitiveTopology::PointList,
        DrawType::Lines => PrimitiveTopology::LineList,
    }
}

/// Pack an API version number: ten bits each for major and minor above
/// twelve bits of patch.
pub fn make_version(major: u32, minor: u32, patch: u32) -> (r: u32)
    requires
        major < 1024,
        minor < 1024,
        patch < 4096,
    ensures
        r == major * 0x400000 + minor * 0x1000 + patch,
{
    major * 0x400000 + minor * 0x1000 + patch
}

/// The engine's own packed version number.
pub fn engine_version() -> (r: u32)
    ensures
        r == 0x400000u32,
{
    make_version(1, 0, 0)
}

/// How many swapchain images to request: one more than the surface's
/// minimum, clamped to its maximum when the surface states one.
pub fn choose_image_count(min_image_count: u32, max_image_count: u32) -> (r: u32)
    requires
        min_image_count < u32::MAX,
    ensures
        r == if max_image_count > 0 && min_image_count + 1 > max_image_count {
            max_image_count
        } else {
            (min_image_count + 1) as u32
        },
{
    let wanted = min_image_count + 1;
    if max_image_count > 0 && wanted > max_image_count {
        max_image_count
    } else {
        wanted
    }
}

/// Where the color attachment ends up after the render pass.
#[derive(Copy, Clone, Debug, PartialEq, Eq, Structural)]
pub enum ColorFinalLayout {
    /// Ready for presentation to a window surface
    PresentSource,
    /// Ready for further processing (the stereo compositor)
    ColorAttachment,
}

/// The render-pass shape decided by the rendering mode.
#[derive(Copy, Clone, Debug, PartialEq, Eq, Structural)]
pub struct RenderPassPlan {
    /// Final layout of the color attachment
    pub color_final_layout: ColorFinalLayout,
    /// Multiview mask: one bit per rendered view
    pub view_mask: u32,
    /// Array layers of the depth-stencil attachment
    pub depth_layers: u32,
}

/// Stereo rendering draws two views per draw call through multiview and a
/// two-layer depth attachment, and hands the image on for composition;
/// windowed rendering draws one view and presents directly.
pub fn render_pass_plan(vr: bool) -> (r: RenderPassPlan)
    ensures
        r.color_final_layout == if vr {
            ColorFinalLayout::ColorAttachment
        } else {
            ColorFinalLayout::PresentSource
        },
        r.view_mask == if vr { 3u32 } else { 1u32 },
        r.depth_layers == if vr { 2u32 } else { 1u32 },
{
    if vr {
        RenderPassPlan {
            color_final_layout: ColorFinalLayout::ColorAttachment,
            view_mask: 3,
            depth_layers: 2,
        }
    } else {
        RenderPassPlan {
            color_final_layout: ColorFinalLayout::PresentSource,
            view_mask: 1,
            depth_layers: 1,
        }
    }
}

/// Rank a physical device type for hardware selection: discrete GPUs
/// first, then integrated, then anything else.
pub fn device_type_rank(device_type: i32) -> (r: u8)
    ensures
        device_type == 2 ==> r == 2,
        device_type == 1 ==> r == 1,
        device_type != 1 && device_type != 2 ==> r == 0,
{
    if device_type == 2 {
        2
    } else if device_type == 1 {
        1
    } else {
        0
    }
}

/// Pick the best-ranked device, preferring the later of equals (as the
/// selection scan does). Nothing only when no device exists.
pub fn pick_best_device(ranks: &Vec<u8>) -> (r: Option<usize>)
    ensures
        r is Some <==> ranks@.len() > 0,
        r matches Some(i) ==> {
            &&& i < ranks@.len()
            &&& forall|j: int| 0 <= j < ranks@.len() ==> ranks@[j] <= ranks@[i as int]
            &&& forall|j: int| i < j < ranks@.len() ==> ranks@[j] < ranks@[i as int]
        },
{
    if ranks.len() == 0 {
        return None;
    }
    let mut best: usize = 0;
    let mut j: usize = 1;
    while j < ranks.len()
        invariant
            best < j <= ranks@.len(),
            forall|k: int| 0 <= k < j ==> ranks@[k] <= ranks@[best as int],
            forall|k: int| best < k < j ==> ranks@[k] < ranks@[best as int],
        decreases ranks@.len() - j,
    {
        if ranks[j] >= ranks[best] {
            best = j;
        }
        j = j + 1;
    }
    Some(best)
}

} // verus!
