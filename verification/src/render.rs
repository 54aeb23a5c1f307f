//! The Render Handoff: what the render stage may draw each tick, and the
//! offscreen multisample target it draws into.
//!
//! The render stage consumes the geometry even mid-growth, but only the
//! already-computed portion: `current_iteration - 1` quads per line, clamped
//! at zero, never the full allocation. The buffers are copied before the
//! draw, so render-stage reads never race compute-stage writes from the
//! same submission.

use vstd::prelude::*;

verus! {

use crate::binding::BindingSlot;
use crate::binding::BindingSlotKind;
use crate::buffers::FlowFieldLineMeshBuffers;
use crate::buffers::ResourceIdAllocator;
use crate::compute::CurrentIterationCount;
use crate::params::FlowFieldGlobals;

/// Samples per pixel of the offscreen multisample target.
pub const MS_SAMPLE_COUNT: u32 = 8;

/// Bytes per rendered vertex: four position/UV floats and four color floats.
pub const VERTEX_STRIDE_BYTES: u64 = 32;

/// Indices the render stage may draw: 6 per quad, one quad per line per
/// consecutive vertex pair already computed — `current_iteration - 1` per
/// line, clamped at zero.
pub open spec fn drawable_index_count_spec(num_lines: u32, current_iteration: u32) -> int {
    if current_iteration >= 1 {
        6 * num_lines * (current_iteration - 1)
    } else {
        0
    }
}

/// Indices the render stage draws this tick: only the already-computed
/// portion of the geometry, so growth stays visible frame by frame.
pub fn drawable_index_count(globals: &FlowFieldGlobals, iteration: &CurrentIterationCount) -> (n:
    u64)
    requires
        globals.valid(),
        iteration.value <= globals.max_iterations,
    ensures
        n == drawable_index_count_spec(globals.num_lines, iteration.value),
{
    if iteration.value < 1 {
        return 0;
    }
    let nl: u128 = globals.num_lines as u128;
    let iv: u128 = iteration.value as u128;
    let mi: u128 = globals.max_iterations as u128;
    proof {
        assert(6 * nl <= u128::MAX && 6 * nl * (iv - 1) <= 24 * nl * (mi - 1)) by (
        nonlinear_arith)
            requires
                nl <= u32::MAX,
                1 <= iv <= mi,
                mi <= u32::MAX,
        ;
    }
    let count: u128 = 6 * nl * (iv - 1);
    count as u64
}

/// A 2-D texture as the core sees it: the identity the device assigned and
/// the extent and sampling it was created with.
#[derive(Clone, Copy, Debug, PartialEq, Eq, Structural)]
pub struct TextureAllocation {
    /// Device-assigned identity, unique per allocation.
    pub id: u64,
    /// Width in pixels.
    pub width: u32,
    /// Height in pixels.
    pub height: u32,
    /// Samples per pixel.
    pub sample_count: u32,
}

/// A view onto a texture, by identity.
#[derive(Clone, Copy, Debug, PartialEq, Eq, Structural)]
pub struct TextureViewModel {
    /// Device-assigned identity of the view.
    pub id: u64,
    /// Identity of the texture the view reads.
    pub texture_id: u64,
}

/// The offscreen multisample render target, resolved into the presentable
/// image after each draw; `None` until first created.
#[derive(Clone, Copy, Debug, PartialEq, Eq, Structural)]
pub struct MSRenderTarget {
    /// The multisampled texture drawn into.
    pub texture: Option<TextureAllocation>,
    /// The view the render pass attaches.
    pub view: Option<TextureViewModel>,
}

impl MSRenderTarget {
    /// The target exists, its view reads its texture, and the texture has
    /// the viewport's extent at the fixed sample count.
    pub open spec fn sized_for(self, globals: FlowFieldGlobals) -> bool {
        &&& self.texture matches Some(t) && t.width == globals.viewport_width && t.height
            == globals.viewport_height && t.sample_count == MS_SAMPLE_COUNT
        &&& self.view matches Some(v) && v.texture_id == self.texture->Some_0.id
    }
}

impl Default for MSRenderTarget {
    /// No render target exists before the first prepare phase.
    fn default() -> (d: Self)
        ensures
            d.texture is None,
            d.view is None,
    {
        MSRenderTarget { texture: None, view: None }
    }
}

/// The prepare-phase (re)creation of the multisample target: on first use
/// or on reset, a fresh texture at the current viewport extent and a fresh
/// view onto it; otherwise nothing changes.
pub fn create_ms_render_target(
    ms_render_target: &mut MSRenderTarget,
    globals: &FlowFieldGlobals,
    ids: &mut ResourceIdAllocator,
)
    requires
        old(ids).next_id + 2 <= u64::MAX,
    ensures
        (old(ms_render_target).texture is None || old(ms_render_target).view is None
            || globals.should_reset) ==> {
            &&& final(ms_render_target).texture == Some(TextureAllocation {
                id: old(ids).next_id,
                width: globals.viewport_width,
                height: globals.viewport_height,
                sample_count: MS_SAMPLE_COUNT,
            })
            &&& final(ms_render_target).view == Some(TextureViewModel {
                id: (old(ids).next_id + 1) as u64,
                texture_id: old(ids).next_id,
            })
            &&& final(ids).next_id == old(ids).next_id + 2
            &&& final(ms_render_target).sized_for(*globals)
        },
        !(old(ms_render_target).texture is None || old(ms_render_target).view is None
            || globals.should_reset) ==> {
            &&& *final(ms_render_target) == *old(ms_render_target)
            &&& *final(ids) == *old(ids)
        },
{
    if ms_render_target.texture.is_none() || ms_render_target.view.is_none()
        || globals.should_reset {
        let texture_id = ids.fresh();
        let view_id = ids.fresh();
        ms_render_target.texture = Some(
            TextureAllocation {
                id: texture_id,
                width: globals.viewport_width,
                height: globals.viewport_height,
                sample_count: MS_SAMPLE_COUNT,
            },
        );
        ms_render_target.view = Some(TextureViewModel { id: view_id, texture_id });
    }
}

/// One vertex attribute of the render stage's vertex layout: four 4-byte
/// floats at a fixed offset within the stride.
#[derive(Clone, Copy, Debug, PartialEq, Eq, Structural)]
pub struct VertexAttributeModel {
    /// The shader location the attribute feeds.
    pub shader_location: u32,
    /// Byte offset within one vertex.
    pub offset: u64,
}

/// The render resources the runtime prepares once: the identity of the
/// queued render pipeline, the layout its stages bind — the view uniform
/// and the Parameter Set — and the vertex layout the vertex stage reads.
#[derive(Clone, Debug)]
pub struct FlowFieldRenderResources {
    /// Identity of the queued render pipeline.
    pub pipeline_id: u64,
    /// The slots the render stages bind, in slot order.
    pub bind_group_layout: Vec<BindingSlot>,
    /// The attributes of one vertex, in shader-location order.
    pub vertex_attributes: Vec<VertexAttributeModel>,
}

impl FlowFieldRenderResources {
    /// The render stages bind the view uniform and the Parameter Set.
    pub open spec fn layout_spec() -> Seq<BindingSlot> {
        seq![
            BindingSlot { binding: 0u32, kind: BindingSlotKind::ViewUniform },
            BindingSlot { binding: 1u32, kind: BindingSlotKind::GlobalsUniform },
        ]
    }

    /// One vertex is four position/UV floats followed by four color floats:
    /// two attributes of 16 bytes filling the stride exactly.
    pub open spec fn vertex_attributes_spec() -> Seq<VertexAttributeModel> {
        seq![
            VertexAttributeModel { shader_location: 0u32, offset: 0u64 },
            VertexAttributeModel { shader_location: 1u32, offset: 16u64 },
        ]
    }

    /// Records the pipeline identity the runtime queued, with the binding
    /// and vertex layouts of the render stage; every attribute lies within
    /// one vertex stride.
    pub fn new(pipeline_id: u64) -> (r: Self)
        ensures
            r.pipeline_id == pipeline_id,
            r.bind_group_layout@ == Self::layout_spec(),
            r.vertex_attributes@ == Self::vertex_attributes_spec(),
            forall|i: int|
                0 <= i < r.vertex_attributes@.len() ==> r.vertex_attributes@[i].offset + 16
                    <= VERTEX_STRIDE_BYTES,
    {
        let mut layout: Vec<BindingSlot> = Vec::new();
        layout.push(BindingSlot { binding: 0, kind: BindingSlotKind::ViewUniform });
        layout.push(BindingSlot { binding: 1, kind: BindingSlotKind::GlobalsUniform });
        let mut attributes: Vec<VertexAttributeModel> = Vec::new();
        attributes.push(VertexAttributeModel { shader_location: 0, offset: 0 });
        attributes.push(VertexAttributeModel { shader_location: 1, offset: 16 });
        proof {
            assert(layout@ =~= Self::layout_spec());
            assert(attributes@ =~= Self::vertex_attributes_spec());
        }
        FlowFieldRenderResources { pipeline_id, bind_group_layout: layout, vertex_attributes: attributes }
    }
}

/// The render stage's binding set: the view uniform window it reads.
#[derive(Clone, Copy, Debug, PartialEq, Eq, Structural)]
pub struct RenderBindingSet {
    /// Dynamic offset into the view uniform buffer.
    pub view_offset: u32,
}

/// The current render binding set, `None` until one could be built.
#[derive(Clone, Copy, Debug, PartialEq, Eq, Structural)]
pub struct FlowFieldRenderBindGroup(pub Option<RenderBindingSet>);

impl Default for FlowFieldRenderBindGroup {
    /// No binding set exists before the first queue phase.
    fn default() -> (d: Self)
        ensures
            d.0 is None,
    {
        FlowFieldRenderBindGroup(None)
    }
}

/// The queue phase for the render stage: when the view uniform is
/// available, the binding set is replaced by one at the current offset;
/// otherwise the old set stays.
pub fn queue_render_bind_group(
    flow_field_bind_group: &mut FlowFieldRenderBindGroup,
    view_available: bool,
    view_offset: u32,
)
    ensures
        view_available ==> final(flow_field_bind_group).0 == Some(RenderBindingSet {
            view_offset,
        }),
        !view_available ==> *final(flow_field_bind_group) == *old(flow_field_bind_group),
{
    if view_available {
        *flow_field_bind_group = FlowFieldRenderBindGroup(Some(RenderBindingSet { view_offset }));
    }
}

/// One draw the render stage must record: copy the geometry out of the
/// compute-owned buffers (the synchronization barrier between the stages),
/// then draw exactly the already-computed indices.
#[derive(Clone, Copy, Debug, PartialEq, Eq, Structural)]
pub struct DrawCommand {
    /// Identity of the vertex buffer the geometry is copied from.
    pub copy_vertex_from: u64,
    /// Identity of the index buffer the geometry is copied from.
    pub copy_index_from: u64,
    /// How many indices to draw.
    pub index_count: u64,
}

/// The render-stage driver: decides, per tick, whether anything can be
/// drawn and what.
pub struct FlowFieldRenderNode;

impl FlowFieldRenderNode {
    /// The handoff decision: a draw is recorded exactly when the pipeline
    /// has compiled, a binding set and the target view exist and both
    /// geometry buffers exist; it copies from the current buffers and draws
    /// only the already-computed portion of the geometry. On any missing
    /// piece the tick's draw is skipped entirely and retried next tick.
    pub fn run(
        &self,
        globals: &FlowFieldGlobals,
        mesh_buffers: &FlowFieldLineMeshBuffers,
        iteration: &CurrentIterationCount,
        bind_group: &FlowFieldRenderBindGroup,
        target: &MSRenderTarget,
        pipeline_ready: bool,
    ) -> (draw: Option<DrawCommand>)
        requires
            globals.valid(),
            iteration.value <= globals.max_iterations,
        ensures
            draw is Some <==> (pipeline_ready && bind_group.0 is Some && target.view is Some
                && mesh_buffers.vertex_buffer is Some && mesh_buffers.index_buffer is Some),
            draw matches Some(d) ==> d == (DrawCommand {
                copy_vertex_from: mesh_buffers.vertex_buffer->Some_0.id,
                copy_index_from: mesh_buffers.index_buffer->Some_0.id,
                index_count: drawable_index_count_spec(globals.num_lines, iteration.value) as u64,
            }),
    {
        if !pipeline_ready {
            return None;
        }
        if bind_group.0.is_none() {
            return None;
        }
        if target.view.is_none() {
            return None;
        }
        if let (Some(vertex), Some(index)) = (&mesh_buffers.vertex_buffer, &mesh_buffers.index_buffer) {
            let index_count = drawable_index_count(globals, iteration);
            Some(
                DrawCommand {
                    copy_vertex_from: vertex.id,
                    copy_index_from: index.id,
                    index_count,
                },
            )
        } else {
            None
        }
    }
}

/// Law: the vertex-buffer allocation and the render stage's vertex layout
/// agree — the 16 floats the sizer reserves per line and step are exactly
/// two vertices of the render stride, the two sides of the ribbon segment.
pub proof fn lemma_vertex_layout_consistent(g: FlowFieldGlobals)
    requires
        g.valid(),
    ensures
        g.vertex_buffer_bytes() == 2 * VERTEX_STRIDE_BYTES * g.num_lines * (g.max_iterations + 1),
{
    assert(g.vertex_buffer_bytes() == 2 * VERTEX_STRIDE_BYTES * g.num_lines * (g.max_iterations
        + 1)) by (nonlinear_arith);
}

} // verus!
