//! The simulation context: everything the staged pipeline owns across
//! ticks, and the tick function that drives one frame — observe the reset
//! flag, prepare buffers, advance the stage machine, rebuild the binding
//! set, and name the kernel dispatches the runtime must issue.
//!
//! The context is an explicit object owned by the caller and passed into
//! every tick; there is no hidden process-wide state. A tick either makes
//! its whole step — transition, accounting, binding set, dispatch plan — or
//! is a no-op retried next tick; a transition is never left half applied.

use vstd::prelude::*;

verus! {

use crate::binding::ComputeBindingSet;
use crate::binding::FlowFieldComputeBindGroup;
use crate::binding::queue_compute_bind_group;
use crate::buffers::BufferAllocation;
use crate::buffers::FlowFieldLineMeshBuffers;
use crate::buffers::ResourceIdAllocator;
use crate::buffers::create_field_grid_buffer;
use crate::buffers::create_line_mesh_buffers;
use crate::compute::CurrentIterationCount;
use crate::compute::FieldGridState;
use crate::compute::FlowFieldComputeNode;
use crate::compute::FlowFieldComputeState;
use crate::compute::KernelDispatch;
use crate::compute::apply_discretize;
use crate::compute::discretize_result_spec;
use crate::compute::kernel_plan_spec;
use crate::compute::transition_spec;
use crate::params::FlowFieldGlobals;

/// What the runtime reports at the start of a tick: whether the pacing
/// stopwatch made the tick due, whether the compute kernels have compiled,
/// and whether (and where) the view uniform window is bound.
#[derive(Clone, Copy, Debug, PartialEq, Eq, Structural)]
pub struct TickEvents {
    /// The pacing gate: while false (paused, or the step interval has not
    /// elapsed), the tick advances nothing.
    pub should_update: bool,
    /// Both geometry kernels have finished compiling and validating.
    pub kernels_ready: bool,
    /// The view uniform binding exists, so a binding set can be built.
    pub view_available: bool,
    /// Dynamic offset of the current view's uniform window.
    pub view_offset: u32,
}

/// Everything the staged pipeline owns across ticks.
pub struct FlowFieldContext {
    /// The stage machine's current state.
    pub state: FlowFieldComputeState,
    /// Integration steps taken by every line so far.
    pub iteration: CurrentIterationCount,
    /// The vertex and index buffers the kernels write.
    pub mesh_buffers: FlowFieldLineMeshBuffers,
    /// The buffer holding the discretized field grid.
    pub grid_buffer: Option<BufferAllocation>,
    /// The extent the discretization kernel last wrote, `None` until it ran.
    pub grid_state: Option<FieldGridState>,
    /// The binding set wiring the buffers and counters to the kernels.
    pub compute_bind_group: FlowFieldComputeBindGroup,
    /// Vertices each line holds so far; all lines advance in lockstep.
    pub vertices_per_line: u32,
    /// Ribbon quads each line holds so far.
    pub quads_per_line: u32,
    /// Source of device-resource identities.
    pub ids: ResourceIdAllocator,
}

impl FlowFieldContext {
    /// Every buffer identity the context holds was handed out by its own
    /// allocator, so a future allocation can never collide with it.
    pub open spec fn ids_wf(self) -> bool {
        &&& self.mesh_buffers.ids_below(self.ids.next_id)
        &&& self.grid_buffer matches Some(g) ==> g.id < self.ids.next_id
    }

    /// The per-state accounting invariant: the counter and the written
    /// geometry agree. While loading nothing is written; initialization
    /// seeds two vertices and one quad; afterwards each line holds one
    /// vertex per step taken and one quad per consecutive pair.
    pub open spec fn geometry_wf(self, globals: FlowFieldGlobals) -> bool {
        match self.state {
            FlowFieldComputeState::Loading => self.iteration.value == 0
                && self.vertices_per_line == 0 && self.quads_per_line == 0,
            FlowFieldComputeState::Initializing => self.iteration.value == 2
                && self.vertices_per_line == 2 && self.quads_per_line == 1,
            FlowFieldComputeState::Updating => 2 <= self.iteration.value
                <= globals.max_iterations && self.vertices_per_line == self.iteration.value
                && self.quads_per_line == self.iteration.value - 1,
            FlowFieldComputeState::Finished => 2 <= self.iteration.value
                <= globals.max_iterations && self.vertices_per_line == self.iteration.value
                && self.quads_per_line == self.iteration.value - 1,
        }
    }

    /// The geometry buffers are all absent (before the first prepare phase)
    /// or all sized for the Parameter Set.
    pub open spec fn buffers_wf(self, globals: FlowFieldGlobals) -> bool {
        ||| {
            &&& self.mesh_buffers.vertex_buffer is None
            &&& self.mesh_buffers.index_buffer is None
            &&& self.grid_buffer is None
        }
        ||| {
            &&& self.mesh_buffers.sized_for(globals)
            &&& self.grid_buffer matches Some(g) && g.size_bytes == globals.grid_buffer_bytes()
        }
    }

    /// Once past `Loading`, the wiring is complete: a binding set exists,
    /// references exactly the current buffers, and binds the current
    /// counter value; and the grid holds the discretization the Parameter
    /// Set implies.
    pub open spec fn resources_wf(self, globals: FlowFieldGlobals) -> bool {
        self.state is Loading || {
            &&& self.compute_bind_group.0 matches Some(b) && b.binds(
                self.mesh_buffers,
                self.grid_buffer,
            ) && b.iteration_value == self.iteration.value
            &&& self.grid_state == Some(discretize_result_spec(globals))
        }
    }

    /// The context invariant under a Parameter Set: identities are sound
    /// always; and unless this tick was asked to reset, the accounting,
    /// sizing and wiring invariants all hold.
    pub open spec fn wf(self, globals: FlowFieldGlobals) -> bool {
        &&& self.ids_wf()
        &&& globals.should_reset || {
            &&& self.geometry_wf(globals)
            &&& self.buffers_wf(globals)
            &&& self.resources_wf(globals)
        }
    }

    /// A fresh context: loading, counter at zero, nothing allocated, no
    /// binding set. Well formed under every Parameter Set.
    pub fn new() -> (c: Self)
        ensures
            c.state is Loading,
            c.iteration.value == 0,
            c.mesh_buffers.vertex_buffer is None,
            c.mesh_buffers.index_buffer is None,
            c.grid_buffer is None,
            c.grid_state is None,
            c.compute_bind_group.0 is None,
            c.vertices_per_line == 0,
            c.quads_per_line == 0,
            c.ids.next_id == 0,
            forall|g: FlowFieldGlobals| c.wf(g),
    {
        FlowFieldContext {
            state: FlowFieldComputeState::Loading,
            iteration: CurrentIterationCount::default(),
            mesh_buffers: FlowFieldLineMeshBuffers::default(),
            grid_buffer: None,
            grid_state: None,
            compute_bind_group: FlowFieldComputeBindGroup::default(),
            vertices_per_line: 0,
            quads_per_line: 0,
            ids: ResourceIdAllocator::new(),
        }
    }

    /// One tick of the staged pipeline.
    ///
    /// A reset observed at the start overrides everything: the stage
    /// machine returns to `Loading` with a zero counter, every geometry
    /// buffer is dropped and recreated with a fresh identity, the binding
    /// set and the discretized grid are invalidated, and nothing is
    /// dispatched. Without the pacing gate, or without the view uniform a
    /// binding set needs, the tick is a no-op, retried next tick. Otherwise
    /// the stage machine takes exactly one transition, the written-geometry
    /// accounting follows it, a binding set wired to the current buffers
    /// and the new counter value replaces the old one, and the returned
    /// plan names the kernel dispatches the new state requires.
    pub fn tick(&mut self, globals: &FlowFieldGlobals, events: &TickEvents) -> (plan: Vec<
        KernelDispatch,
    >)
        requires
            globals.valid(),
            old(self).wf(*globals),
            old(self).ids.next_id + 3 <= u64::MAX,
        ensures
            final(self).wf(*globals),
            final(self).wf(FlowFieldGlobals { should_reset: false, ..*globals }),
            final(self).ids.next_id >= old(self).ids.next_id,
            final(self).ids.next_id <= old(self).ids.next_id + 3,
            // the reset protocol: back to the start, everything reallocated
            globals.should_reset ==> {
                &&& final(self).state is Loading
                &&& final(self).iteration.value == 0
                &&& final(self).vertices_per_line == 0
                &&& final(self).quads_per_line == 0
                &&& final(self).compute_bind_group.0 is None
                &&& final(self).grid_state is None
                &&& final(self).mesh_buffers.sized_for(*globals)
                &&& final(self).mesh_buffers.vertex_buffer->Some_0.id >= old(self).ids.next_id
                &&& final(self).mesh_buffers.index_buffer->Some_0.id >= old(self).ids.next_id
                &&& final(self).grid_buffer matches Some(g) && g.id >= old(self).ids.next_id
                    && g.size_bytes == globals.grid_buffer_bytes()
                &&& plan@.len() == 0
            },
            // gated ticks are whole no-ops, retried next tick
            !globals.should_reset && !(events.should_update && events.view_available) ==> {
                &&& final(self).state == old(self).state
                &&& final(self).iteration == old(self).iteration
                &&& final(self).mesh_buffers == old(self).mesh_buffers
                &&& final(self).grid_buffer == old(self).grid_buffer
                &&& final(self).grid_state == old(self).grid_state
                &&& final(self).compute_bind_group == old(self).compute_bind_group
                &&& final(self).vertices_per_line == old(self).vertices_per_line
                &&& final(self).quads_per_line == old(self).quads_per_line
                &&& final(self).ids == old(self).ids
                &&& plan@.len() == 0
            },
            // progressing ticks take exactly one transition and dispatch for it
            !globals.should_reset && events.should_update && events.view_available ==> {
                &&& final(self).state == transition_spec(
                    old(self).state,
                    old(self).iteration.value,
                    globals.max_iterations,
                    false,
                    true,
                    events.kernels_ready,
                ).0
                &&& final(self).iteration.value == transition_spec(
                    old(self).state,
                    old(self).iteration.value,
                    globals.max_iterations,
                    false,
                    true,
                    events.kernels_ready,
                ).1
                &&& plan@ == kernel_plan_spec(final(self).state, *globals)
                // buffers exist, sized; never reallocated outside a reset
                &&& final(self).mesh_buffers.sized_for(*globals)
                &&& old(self).mesh_buffers.vertex_buffer is Some ==> final(self).mesh_buffers
                    == old(self).mesh_buffers
                &&& old(self).grid_buffer is Some ==> final(self).grid_buffer == old(
                    self,
                ).grid_buffer
                // the binding set is replaced by one wired to the current
                // buffers and the new counter value
                &&& final(self).compute_bind_group.0 == Some(ComputeBindingSet {
                    view_offset: events.view_offset,
                    iteration_value: final(self).iteration.value,
                    vertex_buffer_id: final(self).mesh_buffers.vertex_buffer->Some_0.id,
                    index_buffer_id: final(self).mesh_buffers.index_buffer->Some_0.id,
                    grid_buffer_id: final(self).grid_buffer->Some_0.id,
                })
                // the grid is discretized on the initializing tick and kept
                &&& final(self).state is Initializing ==> final(self).grid_state == Some(
                    discretize_result_spec(*globals),
                )
                &&& !(final(self).state is Initializing) ==> final(self).grid_state == old(
                    self,
                ).grid_state
            },
            // the counter never moves backwards between resets, and never
            // exceeds the iteration budget
            !globals.should_reset ==> final(self).iteration.value >= old(self).iteration.value,
            final(self).iteration.value <= globals.max_iterations,
    {
        let node = FlowFieldComputeNode;
        if globals.should_reset {
            create_line_mesh_buffers(&mut self.mesh_buffers, globals, &mut self.ids);
            create_field_grid_buffer(&mut self.grid_buffer, globals, &mut self.ids);
            self.grid_state = None;
            self.compute_bind_group = FlowFieldComputeBindGroup(None);
            self.state = FlowFieldComputeState::Loading;
            self.iteration.value = 0;
            self.vertices_per_line = 0;
            self.quads_per_line = 0;
            return Vec::new();
        }
        if !events.should_update || !events.view_available {
            return Vec::new();
        }
        if self.mesh_buffers.vertex_buffer.is_none() {
            create_line_mesh_buffers(&mut self.mesh_buffers, globals, &mut self.ids);
            create_field_grid_buffer(&mut self.grid_buffer, globals, &mut self.ids);
        }
        node.update(
            &mut self.state,
            &mut self.iteration,
            globals.max_iterations,
            false,
            true,
            events.kernels_ready,
        );
        match self.state {
            FlowFieldComputeState::Initializing => {
                apply_discretize(&mut self.grid_state, globals);
                self.vertices_per_line = 2;
                self.quads_per_line = 1;
            },
            FlowFieldComputeState::Updating => {
                self.vertices_per_line = self.vertices_per_line + 1;
                self.quads_per_line = self.quads_per_line + 1;
            },
            FlowFieldComputeState::Loading => {},
            FlowFieldComputeState::Finished => {},
        }
        queue_compute_bind_group(
            &mut self.compute_bind_group,
            &self.mesh_buffers,
            &self.grid_buffer,
            &self.iteration,
            true,
            events.view_offset,
        );
        node.run(&self.state, globals)
    }
}

} // verus!
