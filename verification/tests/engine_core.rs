use klystron::engine::{
    choose_image_count, device_type_rank, engine_version, make_version, pick_best_device,
    render_pass_plan, ColorFinalLayout, Core,
};
use klystron::matrix::Mat4;
use klystron::vertex::Vertex;
use klystron::{DrawType, EngineError, Sampling};

fn spirv_le() -> Vec<u8> {
    // Magic number 0x07230203 in little-endian bytes, then one more word.
    vec![0x03, 0x02, 0x23, 0x07, 0x00, 0x01, 0x00, 0x00]
}

fn spirv_be() -> Vec<u8> {
    // The same magic byte-swapped; decoding accepts either byte order.
    vec![0x07, 0x23, 0x02, 0x03, 0x00, 0x00, 0x01, 0x00]
}

fn quad() -> (Vec<Vertex>, Vec<u16>) {
    let v = |x: u32, y: u32| Vertex::new([x, y, 0], [0, 0, 0]);
    (
        vec![v(0, 0), v(1, 0), v(1, 1), v(0, 1)],
        vec![0, 1, 2, 2, 3, 0],
    )
}

#[test]
fn add_material_accepts_both_spirv_byte_orders() {
    let mut core = Core::new(2, false);
    assert!(core
        .add_material(&spirv_le(), &spirv_le(), DrawType::Triangles)
        .is_ok());
    assert!(core
        .add_material(&spirv_be(), &spirv_be(), DrawType::Lines)
        .is_ok());
}

#[test]
fn add_material_rejects_bad_bytecode() {
    let mut core = Core::new(2, false);
    // Wrong length.
    let r = core.add_material(&[0x03, 0x02, 0x23], &spirv_le(), DrawType::Triangles);
    assert_eq!(r.err(), Some(EngineError::InvalidSpirv));
    // Whole words but a wrong magic number.
    let r = core.add_material(&[0, 0, 0, 0], &spirv_le(), DrawType::Triangles);
    assert_eq!(r.err(), Some(EngineError::InvalidSpirv));
    // Empty.
    let r = core.add_material(&[], &spirv_le(), DrawType::Points);
    assert_eq!(r.err(), Some(EngineError::InvalidSpirv));
}

#[test]
fn removed_material_handles_go_stale() {
    let mut core = Core::new(2, false);
    let m = core
        .add_material(&spirv_le(), &spirv_le(), DrawType::Triangles)
        .unwrap();
    assert!(core.remove_material(m).is_ok());
    assert_eq!(core.remove_material(m).err(), Some(EngineError::StaleHandle));
}

#[test]
fn add_mesh_rejects_empty_input() {
    let mut core = Core::new(2, false);
    let (vertices, indices) = quad();
    assert_eq!(
        core.add_mesh(&[], &indices).err(),
        Some(EngineError::EmptyMesh)
    );
    assert_eq!(
        core.add_mesh(&vertices, &[]).err(),
        Some(EngineError::EmptyMesh)
    );
    assert!(core.add_mesh(&vertices, &indices).is_ok());
}

#[test]
fn remove_mesh_only_once() {
    let mut core = Core::new(2, false);
    let (vertices, indices) = quad();
    let h = core.add_mesh(&vertices, &indices).unwrap();
    assert!(core.remove_mesh(h).is_ok());
    assert_eq!(core.remove_mesh(h).err(), Some(EngineError::StaleHandle));
}

#[test]
fn add_texture_draws_one_descriptor_set_per_frame() {
    let frames = 2;
    let mut core = Core::new(frames, false);
    let pixels = vec![9u8; 16];
    let t = core.add_texture(&pixels, 2, Sampling::Nearest).unwrap();
    let record = core.textures.get(t.0).unwrap();
    assert_eq!(record.width, 2);
    assert_eq!(record.height, 2);
    assert_eq!(record.sampling, Sampling::Nearest);
    assert_eq!(record.descriptor_sets.len(), frames);
    assert_ne!(record.descriptor_sets[0], record.descriptor_sets[1]);
    assert_eq!(core.desc_allocator.pool_count(), 1);
}

#[test]
fn texture_descriptor_sets_stay_distinct_across_textures() {
    let mut core = Core::new(3, false);
    let pixels = vec![1u8; 4];
    let mut all: Vec<u64> = Vec::new();
    for _ in 0..7 {
        let t = core.add_texture(&pixels, 1, Sampling::Linear).unwrap();
        all.extend(core.textures.get(t.0).unwrap().descriptor_sets.iter());
    }
    for (i, a) in all.iter().enumerate() {
        for b in all.iter().skip(i + 1) {
            assert_ne!(a, b);
        }
    }
    // 21 sets at 15 per pool: the second batch began.
    assert_eq!(core.desc_allocator.pool_count(), 2);
}

#[test]
fn add_texture_rejects_malformed_bytes() {
    let mut core = Core::new(2, false);
    assert_eq!(
        core.add_texture(&vec![1, 2, 3], 1, Sampling::Nearest).err(),
        Some(EngineError::TextureDimensions)
    );
    assert_eq!(
        core.add_texture(&vec![0; 12], 2, Sampling::Nearest).err(),
        Some(EngineError::TextureDimensions)
    );
}

#[test]
fn time_value_lands_in_the_current_frame_slot() {
    let mut core = Core::new(2, false);
    let (slot, _) = core.frame_sync.next_frame();
    assert_eq!(slot, 1);
    core.update_time_value(0x3F80_0000).unwrap();
    assert_eq!(core.time_values[1], 0x3F80_0000);
    assert_eq!(core.time_values[0], 0);
}

#[test]
fn camera_data_is_stored_per_frame_slot() {
    let mut core = Core::new(2, false);
    let block = [7u32; 32];
    core.update_camera_data(1, &block);
    assert_eq!(core.camera_data[1], block);
    assert_eq!(core.camera_data[0], [0u32; 32]);
}

#[test]
fn recreate_swapchain_resets_image_associations() {
    let mut core = Core::new(2, true);
    core.recreate_swapchain(800, 600, 3);
    let images = core.swapchain_images.as_mut().unwrap();
    assert_eq!(images.image_count(), 3);
    assert_eq!(images.extent(), (800, 600));
    // First use of image 0: nothing to wait for; afterwards frame 1 owns it.
    assert_eq!(images.next_image(0, 1), None);
    assert_eq!(images.next_image(0, 0), Some(1));
}

#[test]
fn version_packing_is_exact() {
    assert_eq!(make_version(1, 2, 3), 1 * 0x400000 + 2 * 0x1000 + 3);
    assert_eq!(engine_version(), 0x400000);
}

#[test]
fn image_count_is_min_plus_one_clamped_to_max() {
    assert_eq!(choose_image_count(2, 0), 3);
    assert_eq!(choose_image_count(2, 8), 3);
    assert_eq!(choose_image_count(3, 3), 3);
}

#[test]
fn render_pass_plan_follows_the_mode() {
    let windowed = render_pass_plan(false);
    assert_eq!(windowed.color_final_layout, ColorFinalLayout::PresentSource);
    assert_eq!(windowed.view_mask, 1);
    assert_eq!(windowed.depth_layers, 1);
    let stereo = render_pass_plan(true);
    assert_eq!(stereo.color_final_layout, ColorFinalLayout::ColorAttachment);
    assert_eq!(stereo.view_mask, 3);
    assert_eq!(stereo.depth_layers, 2);
}

#[test]
fn device_selection_prefers_discrete_then_integrated() {
    assert_eq!(device_type_rank(2), 2);
    assert_eq!(device_type_rank(1), 1);
    assert_eq!(device_type_rank(4), 0);
    assert_eq!(pick_best_device(&vec![]), None);
    assert_eq!(pick_best_device(&vec![0, 2, 1]), Some(1));
    // Of equal ranks, the later device wins, as the scan does.
    assert_eq!(pick_best_device(&vec![2, 0, 2]), Some(2));
}

#[test]
fn mesh_records_name_consecutive_buffers() {
    let mut core = Core::new(2, false);
    let (vertices, indices) = quad();
    let a = core.add_mesh(&vertices, &indices).unwrap();
    let b = core.add_mesh(&vertices, &indices).unwrap();
    let ra = core.meshes.get(a.0).unwrap();
    let rb = core.meshes.get(b.0).unwrap();
    assert_eq!(ra.n_indices, 6);
    assert_eq!(ra.vertex_buffer, 0);
    assert_eq!(ra.index_buffer, 1);
    assert_eq!(rb.vertex_buffer, 2);
    assert_eq!(rb.index_buffer, 3);
}

#[test]
fn engine_transform_fields_start_at_identity() {
    // The identity transform is the no-op base for the packet.
    let ident = Mat4::identity();
    assert_eq!(ident.m00, klystron::matrix::FP_ONE);
    assert_eq!(ident.m03, 0);
}
