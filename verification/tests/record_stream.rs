use klystron::engine::Core;
use klystron::matrix::{Mat4, FP_ONE};
use klystron::record::{RenderCmd, CAMERA_BLUE_PORTAL, CAMERA_ORANGE_PORTAL, CAMERA_REGULAR};
use klystron::vertex::Vertex;
use klystron::{DrawType, FramePacket, Object, Portal, Sampling};

fn spirv() -> Vec<u8> {
    vec![0x03, 0x02, 0x23, 0x07, 0x00, 0x01, 0x00, 0x00]
}

fn quad() -> (Vec<Vertex>, Vec<u16>) {
    let v = |x: u32, y: u32| Vertex::new([x, y, 0], [0, 0, 0]);
    (
        vec![v(0, 0), v(1, 0), v(1, 1), v(0, 1)],
        vec![0, 1, 2, 2, 3, 0],
    )
}

#[test]
fn one_object_two_portals_records_the_four_stage_stream() {
    let mut core = Core::new(2, false);
    core.recreate_swapchain(640, 480, 3);
    let (vertices, indices) = quad();
    let material = core
        .add_material(&spirv(), &spirv(), DrawType::Triangles)
        .unwrap();
    let cube = core.add_mesh(&vertices, &indices).unwrap();
    let portal_quad = core.add_mesh(&vertices, &indices).unwrap();
    let model = Mat4::translation(0, -FP_ONE, 0);
    let orange_at = Mat4::translation(0, 0, 2 * FP_ONE);
    let blue_at = Mat4::translation(4 * FP_ONE, 0, 0);
    let packet = FramePacket {
        objects: vec![Object { material, mesh: cube, transform: model }],
        portals: [
            Portal { mesh: portal_quad, transform: orange_at },
            Portal { mesh: portal_quad, transform: blue_at },
        ],
        base_transform: None,
    };
    let frame = 0;
    let recorded = core.write_command_buffers(frame, &packet);
    assert_eq!(recorded.skipped, vec![]);

    let scene_pass = |camera: u32| -> Vec<RenderCmd> {
        vec![
            RenderCmd::BindPipeline { material },
            RenderCmd::SetViewport { width: 640, height: 480 },
            RenderCmd::SetScissor { width: 640, height: 480 },
            RenderCmd::BindDescriptorSet { frame },
            RenderCmd::BindMesh { mesh: cube },
            RenderCmd::PushConstants { transform: model, camera_index: camera },
            RenderCmd::DrawIndexed { index_count: 6 },
        ]
    };
    let mut expected: Vec<RenderCmd> = Vec::new();
    // Outer pass: the scene as seen directly.
    expected.push(RenderCmd::SetStencilReference { reference: 0 });
    expected.extend(scene_pass(CAMERA_REGULAR));
    // Portal-mask pass: each portal stamps its own stencil value.
    expected.push(RenderCmd::BindPortalPipeline);
    expected.push(RenderCmd::BindDescriptorSet { frame });
    expected.push(RenderCmd::SetStencilReference { reference: 1 });
    expected.push(RenderCmd::BindMesh { mesh: portal_quad });
    expected.push(RenderCmd::PushConstants {
        transform: orange_at,
        camera_index: CAMERA_REGULAR,
    });
    expected.push(RenderCmd::DrawIndexed { index_count: 6 });
    expected.push(RenderCmd::SetStencilReference { reference: 2 });
    expected.push(RenderCmd::BindMesh { mesh: portal_quad });
    expected.push(RenderCmd::PushConstants {
        transform: blue_at,
        camera_index: CAMERA_REGULAR,
    });
    expected.push(RenderCmd::DrawIndexed { index_count: 6 });
    // Depth restarts fresh; stencil survives for the through passes.
    expected.push(RenderCmd::ClearDepth);
    // Through-portal passes, one per portal, alternate cameras.
    expected.push(RenderCmd::SetStencilReference { reference: 1 });
    expected.extend(scene_pass(CAMERA_ORANGE_PORTAL));
    expected.push(RenderCmd::SetStencilReference { reference: 2 });
    expected.extend(scene_pass(CAMERA_BLUE_PORTAL));

    assert_eq!(recorded.commands, expected);
}

#[test]
fn draws_with_removed_meshes_are_skipped_not_fatal() {
    let mut core = Core::new(2, false);
    core.recreate_swapchain(100, 100, 2);
    let (vertices, indices) = quad();
    let material = core
        .add_material(&spirv(), &spirv(), DrawType::Triangles)
        .unwrap();
    let gone = core.add_mesh(&vertices, &indices).unwrap();
    let portal_quad = core.add_mesh(&vertices, &indices).unwrap();
    core.remove_mesh(gone).unwrap();
    let packet = FramePacket {
        objects: vec![Object { material, mesh: gone, transform: Mat4::identity() }],
        portals: [
            Portal { mesh: portal_quad, transform: Mat4::identity() },
            Portal { mesh: portal_quad, transform: Mat4::identity() },
        ],
        base_transform: None,
    };
    let recorded = core.write_command_buffers(0, &packet);
    // The object is skipped in the outer pass and in both through passes.
    assert_eq!(recorded.skipped, vec![gone, gone, gone]);
    // No draw of the removed mesh appears anywhere in the stream.
    for cmd in &recorded.commands {
        assert_ne!(*cmd, RenderCmd::BindMesh { mesh: gone });
    }
}

#[test]
fn objects_draw_grouped_by_material() {
    let mut core = Core::new(2, false);
    core.recreate_swapchain(64, 64, 2);
    let (vertices, indices) = quad();
    let first = core
        .add_material(&spirv(), &spirv(), DrawType::Triangles)
        .unwrap();
    let second = core
        .add_material(&spirv(), &spirv(), DrawType::Lines)
        .unwrap();
    let mesh = core.add_mesh(&vertices, &indices).unwrap();
    let portal_mesh = core.add_mesh(&vertices, &indices).unwrap();
    // Interleave materials in the packet; the stream regroups them.
    let obj = |m, t| Object { mesh, material: m, transform: Mat4::translation(t, 0, 0) };
    let packet = FramePacket {
        objects: vec![obj(first, 0), obj(second, FP_ONE), obj(first, 2 * FP_ONE)],
        portals: [
            Portal { mesh: portal_mesh, transform: Mat4::identity() },
            Portal { mesh: portal_mesh, transform: Mat4::identity() },
        ],
        base_transform: None,
    };
    let recorded = core.write_command_buffers(1, &packet);
    let pipeline_binds: Vec<&RenderCmd> = recorded
        .commands
        .iter()
        .filter(|c| matches!(c, RenderCmd::BindPipeline { .. }))
        .collect();
    // Two materials per scene pass, three passes.
    assert_eq!(pipeline_binds.len(), 6);
    assert_eq!(*pipeline_binds[0], RenderCmd::BindPipeline { material: first });
    assert_eq!(*pipeline_binds[1], RenderCmd::BindPipeline { material: second });
    // Both objects of the first material draw before the second's.
    let draws: Vec<&RenderCmd> = recorded
        .commands
        .iter()
        .filter(|c| matches!(c, RenderCmd::PushConstants { .. }))
        .collect();
    assert_eq!(
        *draws[0],
        RenderCmd::PushConstants {
            transform: Mat4::translation(0, 0, 0),
            camera_index: 0
        }
    );
    assert_eq!(
        *draws[1],
        RenderCmd::PushConstants {
            transform: Mat4::translation(2 * FP_ONE, 0, 0),
            camera_index: 0
        }
    );
    assert_eq!(
        *draws[2],
        RenderCmd::PushConstants {
            transform: Mat4::translation(FP_ONE, 0, 0),
            camera_index: 0
        }
    );
}
