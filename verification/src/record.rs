//! The portal-compositing command recorder.
//!
//! One frame's render pass is recorded as four stages in strict order:
//! the outer scene pass (stencil reference 0, regular camera), the
//! portal-mask pass (a dedicated pipeline stamping each portal's footprint
//! into the stencil buffer with reference portal-index + 1), a clear of
//! the depth aspect alone (stencil survives), and one through-portal pass
//! per portal that redraws the whole scene with that portal's alternate
//! camera while the stencil test confines it to the portal's silhouette.
//!
//! The recorder produces the command stream as data; the surrounding layer
//! turns each command into the matching GPU call. A draw whose mesh handle
//! is no longer live is skipped and reported, never fatal; the contract
//! pins the entire stream, command for command.
use vstd::prelude::*;

verus! {

use crate::handle::{Handle, HandleMap};
use crate::matrix::Mat4;
use crate::{FramePacket, MaterialHandle, MeshHandle, MeshRecord, Object, Portal};

/// Camera slot selecting the player's own view.
pub const CAMERA_REGULAR: u32 = 0;

/// Camera slot selecting the view through the orange portal.
pub const CAMERA_ORANGE_PORTAL: u32 = 1;

/// Camera slot selecting the view through the blue portal.
pub const CAMERA_BLUE_PORTAL: u32 = 2;

/// One recorded command; the surrounding layer maps each to a GPU call.
#[derive(Copy, Clone, Debug, PartialEq, Eq, Structural)]
pub enum RenderCmd {
    /// Set the stencil reference for the following draws
    SetStencilReference { reference: u32 },
    /// Bind the named material's graphics pipeline
    BindPipeline { material: MaterialHandle },
    /// Bind the dedicated portal-mask pipeline
    BindPortalPipeline,
    /// Set the viewport to the target's full extent
    SetViewport { width: u32, height: u32 },
    /// Set the scissor to the target's full extent
    SetScissor { width: u32, height: u32 },
    /// Bind the per-frame descriptor set (camera and time uniforms)
    BindDescriptorSet { frame: usize },
    /// Bind the named mesh's vertex and index buffers
    BindMesh { mesh: MeshHandle },
    /// Upload the push-constant block: model matrix plus camera slot
    PushConstants { transform: Mat4, camera_index: u32 },
    /// Issue the indexed draw
    DrawIndexed { index_count: u32 },
    /// Clear the depth aspect only; stencil contents survive
    ClearDepth,
}

/// A recorded frame: the command stream and the mesh handles of draws that
/// were skipped because their mesh is no longer live (for the caller to
/// log).
pub struct RecordedFrame {
    pub commands: Vec<RenderCmd>,
    pub skipped: Vec<MeshHandle>,
}

/// The commands one object contributes: bind its mesh, push its model
/// matrix with the pass's camera slot, draw — or nothing if its mesh is
/// gone.
pub open spec fn object_draw_cmds(o: Object, mm: Map<Handle, MeshRecord>, camera: u32) -> Seq<
    RenderCmd,
> {
    if mm.contains_key(o.mesh.0) {
        seq![
            RenderCmd::BindMesh { mesh: o.mesh },
            RenderCmd::PushConstants { transform: o.transform, camera_index: camera },
            RenderCmd::DrawIndexed { index_count: mm[o.mesh.0].n_indices },
        ]
    } else {
        Seq::empty()
    }
}

/// The skip report one object contributes.
pub open spec fn object_skip(o: Object, mm: Map<Handle, MeshRecord>) -> Seq<MeshHandle> {
    if mm.contains_key(o.mesh.0) {
        Seq::empty()
    } else {
        seq![o.mesh]
    }
}

/// Draw commands of the first `n` objects that use material `m`.
pub open spec fn material_draws_upto(
    m: Handle,
    objs: Seq<Object>,
    mm: Map<Handle, MeshRecord>,
    camera: u32,
    n: int,
) -> Seq<RenderCmd>
    decreases n,
{
    if n <= 0 {
        Seq::empty()
    } else {
        material_draws_upto(m, objs, mm, camera, n - 1) + if objs[n - 1].material.0 == m {
            object_draw_cmds(objs[n - 1], mm, camera)
        } else {
            Seq::empty()
        }
    }
}

/// Skip reports of the first `n` objects that use material `m`.
pub open spec fn material_skips_upto(
    m: Handle,
    objs: Seq<Object>,
    mm: Map<Handle, MeshRecord>,
    n: int,
) -> Seq<MeshHandle>
    decreases n,
{
    if n <= 0 {
        Seq::empty()
    } else {
        material_skips_upto(m, objs, mm, n - 1) + if objs[n - 1].material.0 == m {
            object_skip(objs[n - 1], mm)
        } else {
            Seq::empty()
        }
    }
}

/// One material's contribution to a scene pass: bind its pipeline, set the
/// dynamic state and the per-frame descriptor set, then draw every object
/// of this material.
pub open spec fn material_cmds(
    m: Handle,
    objs: Seq<Object>,
    mm: Map<Handle, MeshRecord>,
    camera: u32,
    frame: usize,
    width: u32,
    height: u32,
) -> Seq<RenderCmd> {
    seq![
        RenderCmd::BindPipeline { material: MaterialHandle(m) },
        RenderCmd::SetViewport { width, height },
        RenderCmd::SetScissor { width, height },
        RenderCmd::BindDescriptorSet { frame },
    ] + material_draws_upto(m, objs, mm, camera, objs.len() as int)
}

/// A whole scene pass over the first `n` materials.
pub open spec fn scene_cmds_upto(
    mats: Seq<Handle>,
    objs: Seq<Object>,
    mm: Map<Handle, MeshRecord>,
    camera: u32,
    frame: usize,
    width: u32,
    height: u32,
    n: int,
) -> Seq<RenderCmd>
    decreases n,
{
    if n <= 0 {
        Seq::empty()
    } else {
        scene_cmds_upto(mats, objs, mm, camera, frame, width, height, n - 1) + material_cmds(
            mats[n - 1],
            objs,
            mm,
            camera,
            frame,
            width,
            height,
        )
    }
}

/// A whole scene pass's skip reports over the first `n` materials.
pub open spec fn scene_skips_upto(
    mats: Seq<Handle>,
    objs: Seq<Object>,
    mm: Map<Handle, MeshRecord>,
    n: int,
) -> Seq<MeshHandle>
    decreases n,
{
    if n <= 0 {
        Seq::empty()
    } else {
        scene_skips_upto(mats, objs, mm, n - 1) + material_skips_upto(
            mats[n - 1],
            objs,
            mm,
            objs.len() as int,
        )
    }
}

/// One portal's mask draw: stamp stencil reference `index + 1` and draw
/// the portal's quad with the regular camera.
pub open spec fn portal_cmds(p: Portal, index: u32, mm: Map<Handle, MeshRecord>) -> Seq<
    RenderCmd,
> {
    seq![RenderCmd::SetStencilReference { reference: (index + 1) as u32 }] + if mm.contains_key(
        p.mesh.0,
    ) {
        seq![
            RenderCmd::BindMesh { mesh: p.mesh },
            RenderCmd::PushConstants { transform: p.transform, camera_index: CAMERA_REGULAR },
            RenderCmd::DrawIndexed { index_count: mm[p.mesh.0].n_indices },
        ]
    } else {
        Seq::empty()
    }
}

/// One portal's skip report.
pub open spec fn portal_skip(p: Portal, mm: Map<Handle, MeshRecord>) -> Seq<MeshHandle> {
    if mm.contains_key(p.mesh.0) {
        Seq::empty()
    } else {
        seq![p.mesh]
    }
}

/// The full frame: outer pass at stencil 0 with the regular camera, the
/// portal-mask pass, the depth-only clear, then one through-portal rerun
/// of the scene per portal with its alternate camera.
pub open spec fn record_frame_cmds(
    mats: Seq<Handle>,
    objs: Seq<Object>,
    portals: Seq<Portal>,
    mm: Map<Handle, MeshRecord>,
    frame: usize,
    width: u32,
    height: u32,
) -> Seq<RenderCmd> {
    seq![RenderCmd::SetStencilReference { reference: 0u32 }] + scene_cmds_upto(
        mats,
        objs,
        mm,
        CAMERA_REGULAR,
        frame,
        width,
        height,
        mats.len() as int,
    ) + seq![RenderCmd::BindPortalPipeline, RenderCmd::BindDescriptorSet { frame }] + portal_cmds(
        portals[0],
        0,
        mm,
    ) + portal_cmds(portals[1], 1, mm) + seq![RenderCmd::ClearDepth] + seq![
        RenderCmd::SetStencilReference { reference: 1u32 },
    ] + scene_cmds_upto(
        mats,
        objs,
        mm,
        CAMERA_ORANGE_PORTAL,
        frame,
        width,
        height,
        mats.len() as int,
    ) + seq![RenderCmd::SetStencilReference { reference: 2u32 }] + scene_cmds_upto(
        mats,
        objs,
        mm,
        CAMERA_BLUE_PORTAL,
        frame,
        width,
        height,
        mats.len() as int,
    )
}

/// The full frame's skip reports, in recording order.
pub open spec fn record_frame_skips(
    mats: Seq<Handle>,
    objs: Seq<Object>,
    portals: Seq<Portal>,
    mm: Map<Handle, MeshRecord>,
) -> Seq<MeshHandle> {
    scene_skips_upto(mats, objs, mm, mats.len() as int) + portal_skip(portals[0], mm)
        + portal_skip(portals[1], mm) + scene_skips_upto(mats, objs, mm, mats.len() as int)
        + scene_skips_upto(mats, objs, mm, mats.len() as int)
}

/// Record one object's draw, or report the skip.
fn record_object(
    o: &Object,
    meshes: &HandleMap<MeshRecord>,
    camera: u32,
    cmds: &mut Vec<RenderCmd>,
    skipped: &mut Vec<MeshHandle>,
)
    ensures
        final(cmds)@ == old(cmds)@ + object_draw_cmds(*o, meshes.contents(), camera),
        final(skipped)@ == old(skipped)@ + object_skip(*o, meshes.contents()),
{
    match meshes.get(o.mesh.0) {
        Some(rec) => {
            cmds.push(RenderCmd::BindMesh { mesh: o.mesh });
            cmds.push(
                RenderCmd::PushConstants { transform: o.transform, camera_index: camera },
            );
            cmds.push(RenderCmd::DrawIndexed { index_count: rec.n_indices });
            proof {
                assert(final(cmds)@ =~= old(cmds)@ + object_draw_cmds(
                    *o,
                    meshes.contents(),
                    camera,
                ));
                assert(final(skipped)@ =~= old(skipped)@ + object_skip(*o, meshes.contents()));
            }
        }
        None => {
            skipped.push(o.mesh);
            proof {
                assert(final(cmds)@ =~= old(cmds)@ + object_draw_cmds(
                    *o,
                    meshes.contents(),
                    camera,
                ));
                assert(final(skipped)@ =~= old(skipped)@ + object_skip(*o, meshes.contents()));
            }
        }
    }
}

/// Record one material's slice of a scene pass.
fn record_material(
    m: Handle,
    objects: &Vec<Object>,
    meshes: &HandleMap<MeshRecord>,
    camera: u32,
    frame: usize,
    width: u32,
    height: u32,
    cmds: &mut Vec<RenderCmd>,
    skipped: &mut Vec<MeshHandle>,
)
    ensures
        final(cmds)@ == old(cmds)@ + material_cmds(
            m,
            objects@,
            meshes.contents(),
            camera,
            frame,
            width,
            height,
        ),
        final(skipped)@ == old(skipped)@ + material_skips_upto(
            m,
            objects@,
            meshes.contents(),
            objects@.len() as int,
        ),
{
    let ghost cmds0 = cmds@;
    let ghost skipped0 = skipped@;
    cmds.push(RenderCmd::BindPipeline { material: MaterialHandle(m) });
    cmds.push(RenderCmd::SetViewport { width, height });
    cmds.push(RenderCmd::SetScissor { width, height });
    cmds.push(RenderCmd::BindDescriptorSet { frame });
    let ghost header = seq![
        RenderCmd::BindPipeline { material: MaterialHandle(m) },
        RenderCmd::SetViewport { width, height },
        RenderCmd::SetScissor { width, height },
        RenderCmd::BindDescriptorSet { frame },
    ];
    proof {
        assert(cmds@ =~= cmds0 + header);
    }
    let mut i: usize = 0;
    while i < objects.len()
        invariant
            i <= objects@.len(),
            cmds@ == cmds0 + header + material_draws_upto(
                m,
                objects@,
                meshes.contents(),
                camera,
                i as int,
            ),
            skipped@ == skipped0 + material_skips_upto(m, objects@, meshes.contents(), i as int),
        decreases objects@.len() - i,
    {
        if objects[i].material.0 == m {
            record_object(&objects[i], meshes, camera, cmds, skipped);
        }
        proof {
            assert(cmds@ =~= cmds0 + header + material_draws_upto(
                m,
                objects@,
                meshes.contents(),
                camera,
                i + 1,
            ));
            assert(skipped@ =~= skipped0 + material_skips_upto(
                m,
                objects@,
                meshes.contents(),
                i + 1,
            ));
        }
        i = i + 1;
    }
    proof {
        assert(final(cmds)@ =~= old(cmds)@ + material_cmds(
            m,
            objects@,
            meshes.contents(),
            camera,
            frame,
            width,
            height,
        ));
    }
}

/// Record one whole scene pass: every material, every matching object.
fn record_scene_pass(
    mats: &Vec<Handle>,
    objects: &Vec<Object>,
    meshes: &HandleMap<MeshRecord>,
    camera: u32,
    frame: usize,
    width: u32,
    height: u32,
    cmds: &mut Vec<RenderCmd>,
    skipped: &mut Vec<MeshHandle>,
)
    ensures
        final(cmds)@ == old(cmds)@ + scene_cmds_upto(
            mats@,
            objects@,
            meshes.contents(),
            camera,
            frame,
            width,
            height,
            mats@.len() as int,
        ),
        final(skipped)@ == old(skipped)@ + scene_skips_upto(
            mats@,
            objects@,
            meshes.contents(),
            mats@.len() as int,
        ),
{
    let ghost cmds0 = cmds@;
    let ghost skipped0 = skipped@;
    let mut i: usize = 0;
    while i < mats.len()
        invariant
            i <= mats@.len(),
            cmds@ == cmds0 + scene_cmds_upto(
                mats@,
                objects@,
                meshes.contents(),
                camera,
                frame,
                width,
                height,
                i as int,
            ),
            skipped@ == skipped0 + scene_skips_upto(mats@, objects@, meshes.contents(), i as int),
        decreases mats@.len() - i,
    {
        record_material(mats[i], objects, meshes, camera, frame, width, height, cmds, skipped);
        proof {
            assert(cmds@ =~= cmds0 + scene_cmds_upto(
                mats@,
                objects@,
                meshes.contents(),
                camera,
                frame,
                width,
                height,
                i + 1,
            ));
            assert(skipped@ =~= skipped0 + scene_skips_upto(
                mats@,
                objects@,
                meshes.contents(),
                i + 1,
            ));
        }
        i = i + 1;
    }
}

/// Record one portal's stencil stamp and quad draw.
fn record_portal(
    p: &Portal,
    index: u32,
    meshes: &HandleMap<MeshRecord>,
    cmds: &mut Vec<RenderCmd>,
    skipped: &mut Vec<MeshHandle>,
)
    requires
        index <= 1,
    ensures
        final(cmds)@ == old(cmds)@ + portal_cmds(*p, index, meshes.contents()),
        final(skipped)@ == old(skipped)@ + portal_skip(*p, meshes.contents()),
{
    cmds.push(RenderCmd::SetStencilReference { reference: index + 1 });
    match meshes.get(p.mesh.0) {
        Some(rec) => {
            cmds.push(RenderCmd::BindMesh { mesh: p.mesh });
            cmds.push(
                RenderCmd::PushConstants {
                    transform: p.transform,
                    camera_index: CAMERA_REGULAR,
                },
            );
            cmds.push(RenderCmd::DrawIndexed { index_count: rec.n_indices });
        }
        None => {
            skipped.push(p.mesh);
        }
    }
    proof {
        assert(final(cmds)@ =~= old(cmds)@ + portal_cmds(*p, index, meshes.contents()));
        assert(final(skipped)@ =~= old(skipped)@ + portal_skip(*p, meshes.contents()));
    }
}

/// Record one whole frame's multi-pass portal-compositing command stream,
/// materials in the given order. The stream equals the four-stage
/// specification exactly, and the skip report names exactly the draws
/// whose mesh handle is no longer live, in recording order.
pub fn record_frame(
    mats: &Vec<Handle>,
    meshes: &HandleMap<MeshRecord>,
    packet: &FramePacket,
    frame: usize,
    width: u32,
    height: u32,
) -> (r: RecordedFrame)
    ensures
        r.commands@ == record_frame_cmds(
            mats@,
            packet.objects@,
            packet.portals@,
            meshes.contents(),
            frame,
            width,
            height,
        ),
        r.skipped@ == record_frame_skips(
            mats@,
            packet.objects@,
            packet.portals@,
            meshes.contents(),
        ),
{
    let mut cmds: Vec<RenderCmd> = Vec::new();
    let mut skipped: Vec<MeshHandle> = Vec::new();
    // Outer pass: the scene as the player sees it directly.
    cmds.push(RenderCmd::SetStencilReference { reference: 0 });
    record_scene_pass(
        mats,
        &packet.objects,
        meshes,
        CAMERA_REGULAR,
        frame,
        width,
        height,
        &mut cmds,
        &mut skipped,
    );
    // Portal-mask pass: stamp each portal's footprint into the stencil.
    cmds.push(RenderCmd::BindPortalPipeline);
    cmds.push(RenderCmd::BindDescriptorSet { frame });
    record_portal(&packet.portals[0], 0, meshes, &mut cmds, &mut skipped);
    record_portal(&packet.portals[1], 1, meshes, &mut cmds, &mut skipped);
    // Fresh depth for the through-portal passes; stencil survives.
    cmds.push(RenderCmd::ClearDepth);
    // Through-portal passes, confined by the stencil test.
    cmds.push(RenderCmd::SetStencilReference { reference: 1 });
    record_scene_pass(
        mats,
        &packet.objects,
        meshes,
        CAMERA_ORANGE_PORTAL,
        frame,
        width,
        height,
        &mut cmds,
        &mut skipped,
    );
    cmds.push(RenderCmd::SetStencilReference { reference: 2 });
    record_scene_pass(
        mats,
        &packet.objects,
        meshes,
        CAMERA_BLUE_PORTAL,
        frame,
        width,
        height,
        &mut cmds,
        &mut skipped,
    );
    proof {
        assert(cmds@ =~= record_frame_cmds(
            mats@,
            packet.objects@,
            packet.portals@,
            meshes.contents(),
            frame,
            width,
            height,
        ));
        assert(skipped@ =~= record_frame_skips(
            mats@,
            packet.objects@,
            packet.portals@,
            meshes.contents(),
        ));
    }
    RecordedFrame { commands: cmds, skipped }
}

/// Every mesh the stream binds is live in the registry view.
pub open spec fn binds_only_live(s: Seq<RenderCmd>, mm: Map<Handle, MeshRecord>) -> bool {
    forall|i: int|
        0 <= i < s.len() ==> ((#[trigger] s[i]) matches RenderCmd::BindMesh { mesh }
            ==> mm.contains_key(mesh.0))
}

proof fn lemma_binds_concat(a: Seq<RenderCmd>, b: Seq<RenderCmd>, mm: Map<Handle, MeshRecord>)
    requires
        binds_only_live(a, mm),
        binds_only_live(b, mm),
    ensures
        binds_only_live(a + b, mm),
{
    assert forall|i: int|
        0 <= i < (a + b).len() implies ((#[trigger] (a + b)[i]) matches RenderCmd::BindMesh {
        mesh } ==> mm.contains_key(mesh.0)) by {
        if i < a.len() {
            assert((a + b)[i] == a[i]);
        } else {
            assert((a + b)[i] == b[i - a.len()]);
        }
    }
}

proof fn lemma_object_binds_live(o: Object, mm: Map<Handle, MeshRecord>, camera: u32)
    ensures
        binds_only_live(object_draw_cmds(o, mm, camera), mm),
{
}

proof fn lemma_material_draws_bind_live(
    m: Handle,
    objs: Seq<Object>,
    mm: Map<Handle, MeshRecord>,
    camera: u32,
    n: int,
)
    ensures
        binds_only_live(material_draws_upto(m, objs, mm, camera, n), mm),
    decreases n,
{
    if n <= 0 {
    } else {
        lemma_material_draws_bind_live(m, objs, mm, camera, n - 1);
        if objs[n - 1].material.0 == m {
            lemma_object_binds_live(objs[n - 1], mm, camera);
            lemma_binds_concat(
                material_draws_upto(m, objs, mm, camera, n - 1),
                object_draw_cmds(objs[n - 1], mm, camera),
                mm,
            );
        } else {
            lemma_binds_concat(
                material_draws_upto(m, objs, mm, camera, n - 1),
                Seq::empty(),
                mm,
            );
        }
    }
}

proof fn lemma_scene_binds_live(
    mats: Seq<Handle>,
    objs: Seq<Object>,
    mm: Map<Handle, MeshRecord>,
    camera: u32,
    frame: usize,
    width: u32,
    height: u32,
    n: int,
)
    ensures
        binds_only_live(scene_cmds_upto(mats, objs, mm, camera, frame, width, height, n), mm),
    decreases n,
{
    if n <= 0 {
    } else {
        lemma_scene_binds_live(mats, objs, mm, camera, frame, width, height, n - 1);
        lemma_material_draws_bind_live(mats[n - 1], objs, mm, camera, objs.len() as int);
        let header = seq![
            RenderCmd::BindPipeline { material: MaterialHandle(mats[n - 1]) },
            RenderCmd::SetViewport { width, height },
            RenderCmd::SetScissor { width, height },
            RenderCmd::BindDescriptorSet { frame },
        ];
        lemma_binds_concat(
            header,
            material_draws_upto(mats[n - 1], objs, mm, camera, objs.len() as int),
            mm,
        );
        lemma_binds_concat(
            scene_cmds_upto(mats, objs, mm, camera, frame, width, height, n - 1),
            material_cmds(mats[n - 1], objs, mm, camera, frame, width, height),
            mm,
        );
    }
}

proof fn lemma_portal_binds_live(p: Portal, index: u32, mm: Map<Handle, MeshRecord>)
    ensures
        binds_only_live(portal_cmds(p, index, mm), mm),
{
}

/// A draw whose mesh handle is no longer live is skipped, never recorded:
/// the whole frame's command stream binds only meshes that are live in the
/// registry, in every pass.
pub proof fn lemma_stream_binds_only_live_meshes(
    mats: Seq<Handle>,
    objs: Seq<Object>,
    portals: Seq<Portal>,
    mm: Map<Handle, MeshRecord>,
    frame: usize,
    width: u32,
    height: u32,
)
    ensures
        binds_only_live(record_frame_cmds(mats, objs, portals, mm, frame, width, height), mm),
{
    let n = mats.len() as int;
    lemma_scene_binds_live(mats, objs, mm, CAMERA_REGULAR, frame, width, height, n);
    lemma_scene_binds_live(mats, objs, mm, CAMERA_ORANGE_PORTAL, frame, width, height, n);
    lemma_scene_binds_live(mats, objs, mm, CAMERA_BLUE_PORTAL, frame, width, height, n);
    lemma_portal_binds_live(portals[0], 0, mm);
    lemma_portal_binds_live(portals[1], 1, mm);
    let s0 = seq![RenderCmd::SetStencilReference { reference: 0u32 }];
    let outer = scene_cmds_upto(mats, objs, mm, CAMERA_REGULAR, frame, width, height, n);
    let mask_header = seq![RenderCmd::BindPortalPipeline, RenderCmd::BindDescriptorSet { frame }];
    let p0 = portal_cmds(portals[0], 0, mm);
    let p1 = portal_cmds(portals[1], 1, mm);
    let clear = seq![RenderCmd::ClearDepth];
    let s1 = seq![RenderCmd::SetStencilReference { reference: 1u32 }];
    let through1 = scene_cmds_upto(mats, objs, mm, CAMERA_ORANGE_PORTAL, frame, width, height, n);
    let s2 = seq![RenderCmd::SetStencilReference { reference: 2u32 }];
    let through2 = scene_cmds_upto(mats, objs, mm, CAMERA_BLUE_PORTAL, frame, width, height, n);
    lemma_binds_concat(s0, outer, mm);
    lemma_binds_concat(s0 + outer, mask_header, mm);
    lemma_binds_concat(s0 + outer + mask_header, p0, mm);
    lemma_binds_concat(s0 + outer + mask_header + p0, p1, mm);
    lemma_binds_concat(s0 + outer + mask_header + p0 + p1, clear, mm);
    lemma_binds_concat(s0 + outer + mask_header + p0 + p1 + clear, s1, mm);
    lemma_binds_concat(s0 + outer + mask_header + p0 + p1 + clear + s1, through1, mm);
    lemma_binds_concat(s0 + outer + mask_header + p0 + p1 + clear + s1 + through1, s2, mm);
    lemma_binds_concat(
        s0 + outer + mask_header + p0 + p1 + clear + s1 + through1 + s2,
        through2,
        mm,
    );
}

} // verus!
