//! The Resource Binding Set: the ordered wiring of buffers and uniforms to
//! the slots the compute kernels expect.
//!
//! A binding set is immutable once built and only ever replaced: it is
//! rebuilt whenever any referenced buffer's identity changes (after a
//! reallocation) or the view uniform window moves, and the iteration counter
//! is bound as an explicit parameter so a kernel can never silently read a
//! stale count.

use vstd::prelude::*;

verus! {

use crate::buffers::BufferAllocation;
use crate::buffers::FlowFieldLineMeshBuffers;
use crate::compute::CurrentIterationCount;

/// What a binding slot carries.
#[derive(Clone, Copy, Debug, PartialEq, Eq, Structural)]
pub enum BindingSlotKind {
    /// The view/camera uniform, with a dynamic offset per view.
    ViewUniform,
    /// The Parameter Set uniform.
    GlobalsUniform,
    /// The iteration-counter uniform.
    IterationUniform,
    /// The vertex buffer, read and written by the kernels.
    VertexStorage,
    /// The index buffer, read and written by the kernels.
    IndexStorage,
    /// The discretized field grid.
    GridStorage,
}

/// One (slot index, resource kind) pair of the shared kernel layout.
#[derive(Clone, Copy, Debug, PartialEq, Eq, Structural)]
pub struct BindingSlot {
    /// Slot index in the layout.
    pub binding: u32,
    /// What the slot carries.
    pub kind: BindingSlotKind,
}

/// The compute resources the runtime prepares once: the identities of the
/// three queued kernel pipelines, and the binding layout they all share.
#[derive(Clone, Debug)]
pub struct FlowFieldComputeResources {
    /// Identity of the queued line-initialization pipeline.
    pub init_pipeline_id: u64,
    /// Identity of the queued line-update pipeline.
    pub update_pipeline_id: u64,
    /// Identity of the queued field-discretization pipeline.
    pub discretize_pipeline_id: u64,
    /// The slot layout every kernel binds against.
    pub bind_group_layout: Vec<BindingSlot>,
}

impl FlowFieldComputeResources {
    /// The one binding layout of the kernel family, in slot order: view
    /// uniform, Parameter Set, iteration counter, vertex buffer, index
    /// buffer, field grid.
    pub open spec fn layout_spec() -> Seq<BindingSlot> {
        seq![
            BindingSlot { binding: 0u32, kind: BindingSlotKind::ViewUniform },
            BindingSlot { binding: 1u32, kind: BindingSlotKind::GlobalsUniform },
            BindingSlot { binding: 2u32, kind: BindingSlotKind::IterationUniform },
            BindingSlot { binding: 3u32, kind: BindingSlotKind::VertexStorage },
            BindingSlot { binding: 4u32, kind: BindingSlotKind::IndexStorage },
            BindingSlot { binding: 5u32, kind: BindingSlotKind::GridStorage },
        ]
    }

    /// Records the pipeline identities the runtime queued and lays out the
    /// shared binding slots, each slot at its own index.
    pub fn new(init_pipeline_id: u64, update_pipeline_id: u64, discretize_pipeline_id: u64) -> (r:
        Self)
        ensures
            r.init_pipeline_id == init_pipeline_id,
            r.update_pipeline_id == update_pipeline_id,
            r.discretize_pipeline_id == discretize_pipeline_id,
            r.bind_group_layout@ == Self::layout_spec(),
            forall|i: int|
                0 <= i < r.bind_group_layout@.len() ==> r.bind_group_layout@[i].binding == i,
    {
        let mut layout: Vec<BindingSlot> = Vec::new();
        layout.push(BindingSlot { binding: 0, kind: BindingSlotKind::ViewUniform });
        layout.push(BindingSlot { binding: 1, kind: BindingSlotKind::GlobalsUniform });
        layout.push(BindingSlot { binding: 2, kind: BindingSlotKind::IterationUniform });
        layout.push(BindingSlot { binding: 3, kind: BindingSlotKind::VertexStorage });
        layout.push(BindingSlot { binding: 4, kind: BindingSlotKind::IndexStorage });
        layout.push(BindingSlot { binding: 5, kind: BindingSlotKind::GridStorage });
        proof {
            assert(layout@ =~= Self::layout_spec());
        }
        FlowFieldComputeResources {
            init_pipeline_id,
            update_pipeline_id,
            discretize_pipeline_id,
            bind_group_layout: layout,
        }
    }
}

/// One built binding set: the resources wired to the shared layout's slots,
/// by identity, with the iteration counter's bound value.
#[derive(Clone, Copy, Debug, PartialEq, Eq, Structural)]
pub struct ComputeBindingSet {
    /// Dynamic offset into the view uniform buffer.
    pub view_offset: u32,
    /// The iteration count bound for the kernels to read.
    pub iteration_value: u32,
    /// Identity of the bound vertex buffer.
    pub vertex_buffer_id: u64,
    /// Identity of the bound index buffer.
    pub index_buffer_id: u64,
    /// Identity of the bound field-grid buffer.
    pub grid_buffer_id: u64,
}

impl ComputeBindingSet {
    /// The set references exactly the given buffers, by identity.
    pub open spec fn binds(
        self,
        mesh: FlowFieldLineMeshBuffers,
        grid: Option<BufferAllocation>,
    ) -> bool {
        &&& mesh.vertex_buffer matches Some(v) && self.vertex_buffer_id == v.id
        &&& mesh.index_buffer matches Some(i) && self.index_buffer_id == i.id
        &&& grid matches Some(g) && self.grid_buffer_id == g.id
    }
}

/// The current compute binding set, `None` until one could be built (and
/// again after a reset dropped the buffers it referenced).
#[derive(Clone, Copy, Debug, PartialEq, Eq, Structural)]
pub struct FlowFieldComputeBindGroup(pub Option<ComputeBindingSet>);

impl Default for FlowFieldComputeBindGroup {
    /// No binding set exists before the first queue phase.
    fn default() -> (d: Self)
        ensures
            d.0 is None,
    {
        FlowFieldComputeBindGroup(None)
    }
}

/// The queue phase: when the view uniform is available and every buffer of
/// the layout exists, the old binding set is replaced by a fresh one wired
/// to the current buffer identities and the current counter value;
/// otherwise the old set is left as it was and the tick's dispatch is
/// skipped by the caller.
pub fn queue_compute_bind_group(
    compute_bind_group: &mut FlowFieldComputeBindGroup,
    mesh_buffers: &FlowFieldLineMeshBuffers,
    grid_buffer: &Option<BufferAllocation>,
    iteration_count: &CurrentIterationCount,
    view_available: bool,
    view_offset: u32,
)
    ensures
        (view_available && mesh_buffers.vertex_buffer is Some && mesh_buffers.index_buffer is Some
            && (*grid_buffer) is Some) ==> final(compute_bind_group).0 == Some(ComputeBindingSet {
            view_offset,
            iteration_value: iteration_count.value,
            vertex_buffer_id: mesh_buffers.vertex_buffer->Some_0.id,
            index_buffer_id: mesh_buffers.index_buffer->Some_0.id,
            grid_buffer_id: grid_buffer->Some_0.id,
        }),
        !(view_available && mesh_buffers.vertex_buffer is Some && mesh_buffers.index_buffer
            is Some && (*grid_buffer) is Some) ==> *final(compute_bind_group) == *old(
            compute_bind_group,
        ),
        (view_available && mesh_buffers.vertex_buffer is Some && mesh_buffers.index_buffer is Some
            && (*grid_buffer) is Some) ==> final(compute_bind_group).0->Some_0.binds(
            *mesh_buffers,
            *grid_buffer,
        ),
{
    if view_available {
        if let (Some(vertex), Some(index), Some(grid)) = (
            &mesh_buffers.vertex_buffer,
            &mesh_buffers.index_buffer,
            grid_buffer,
        ) {
            *compute_bind_group = FlowFieldComputeBindGroup(
                Some(
                    ComputeBindingSet {
                        view_offset,
                        iteration_value: iteration_count.value,
                        vertex_buffer_id: vertex.id,
                        index_buffer_id: index.id,
                        grid_buffer_id: grid.id,
                    },
                ),
            );
        }
    }
}

} // verus!
