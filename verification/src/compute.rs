//! The Stage Machine and the Kernel Dispatcher: which state the simulation
//! is in, how the iteration counter advances each tick, and which compute
//! kernels — with which workgroup counts — the runtime must dispatch for the
//! state just entered.
//!
//! One transition and at most one geometry-writing dispatch happen per tick;
//! the discretization kernel runs once alongside (before) line
//! initialization. The convention pinned here keeps the counter within the
//! iteration budget in every state: a budget of exactly two steps is spent
//! entirely by initialization, so the machine moves straight from
//! `Initializing` to `Finished` without an update dispatch.

use vstd::prelude::*;

verus! {

use crate::buffers::BufferAllocation;
use crate::buffers::FlowFieldLineMeshBuffers;
use crate::params::FlowFieldGlobals;

/// Threads per compute workgroup, fixed by the kernels.
pub const WORK_GROUP_SIZE: u32 = 16;

/// The iteration counter: how many integration steps each line has taken.
/// Advanced only by the stage machine, bound as a kernel parameter.
#[derive(Clone, Copy, Debug, PartialEq, Eq, Structural)]
pub struct CurrentIterationCount {
    /// Steps taken so far; between 0 and the iteration budget.
    pub value: u32,
}

impl Default for CurrentIterationCount {
    /// The counter starts at zero.
    fn default() -> (d: Self)
        ensures
            d.value == 0,
    {
        CurrentIterationCount { value: 0 }
    }
}

/// The four states of the simulation's stage machine.
#[derive(Clone, Copy, Debug, PartialEq, Eq, Structural)]
pub enum FlowFieldComputeState {
    /// Waiting for the compute kernels to finish compiling; nothing runs.
    Loading,
    /// The tick that seeds every line with its first two vertices.
    Initializing,
    /// One update dispatch per tick extends every line by one vertex.
    Updating,
    /// The iteration budget is spent; nothing runs until a reset.
    Finished,
}

/// Number of workgroups that covers `items` work items: `items / 16`,
/// rounded up.
pub open spec fn workgroups_spec(items: int) -> int {
    (items + WORK_GROUP_SIZE - 1) / WORK_GROUP_SIZE as int
}

/// The stage-machine transition observed once per tick, before dispatch:
/// a reset overrides everything and restores the start state; a paused or
/// not-yet-due tick changes nothing; otherwise the state advances and the
/// counter grows by the steps the tick's dispatch will perform (two for
/// initialization, one per update), never past the budget.
pub open spec fn transition_spec(
    state: FlowFieldComputeState,
    iteration: u32,
    max_iterations: u32,
    should_reset: bool,
    should_update: bool,
    kernels_ready: bool,
) -> (FlowFieldComputeState, u32) {
    if should_reset {
        (FlowFieldComputeState::Loading, 0u32)
    } else if !should_update {
        (state, iteration)
    } else {
        match state {
            FlowFieldComputeState::Loading => if kernels_ready {
                (FlowFieldComputeState::Initializing, 2u32)
            } else {
                (FlowFieldComputeState::Loading, iteration)
            },
            FlowFieldComputeState::Initializing => if iteration >= max_iterations {
                (FlowFieldComputeState::Finished, iteration)
            } else {
                (FlowFieldComputeState::Updating, (iteration + 1) as u32)
            },
            FlowFieldComputeState::Updating => if iteration >= max_iterations {
                (FlowFieldComputeState::Finished, iteration)
            } else {
                (FlowFieldComputeState::Updating, (iteration + 1) as u32)
            },
            FlowFieldComputeState::Finished => (FlowFieldComputeState::Finished, iteration),
        }
    }
}

/// The stage machine's per-state invariant on the counter: zero while
/// loading, exactly the two initialization steps on the initializing tick,
/// and between two and the budget afterwards.
pub open spec fn state_iteration_wf(
    state: FlowFieldComputeState,
    iteration: u32,
    max_iterations: u32,
) -> bool {
    match state {
        FlowFieldComputeState::Loading => iteration == 0,
        FlowFieldComputeState::Initializing => iteration == 2,
        FlowFieldComputeState::Updating => 2 <= iteration <= max_iterations,
        FlowFieldComputeState::Finished => 2 <= iteration <= max_iterations,
    }
}

/// Law: for every valid Parameter Set and reachable stage, a tick without a
/// reset never decreases the iteration counter, and the counter never
/// exceeds the iteration budget; the per-state invariant is preserved.
pub proof fn lemma_iteration_monotonic_bounded(
    state: FlowFieldComputeState,
    iteration: u32,
    max_iterations: u32,
    should_update: bool,
    kernels_ready: bool,
)
    requires
        max_iterations >= 2,
        state_iteration_wf(state, iteration, max_iterations),
    ensures
        transition_spec(state, iteration, max_iterations, false, should_update, kernels_ready).1
            >= iteration,
        transition_spec(state, iteration, max_iterations, false, should_update, kernels_ready).1
            <= max_iterations,
        state_iteration_wf(
            transition_spec(state, iteration, max_iterations, false, should_update,
            kernels_ready).0,
            transition_spec(state, iteration, max_iterations, false, should_update,
            kernels_ready).1,
            max_iterations,
        ),
{
}

/// Law: a reset observed at the start of a tick restores the start state —
/// `Loading` with a zero counter — whatever state it was observed in.
pub proof fn lemma_reset_restores_start(
    state: FlowFieldComputeState,
    iteration: u32,
    max_iterations: u32,
    should_update: bool,
    kernels_ready: bool,
)
    ensures
        transition_spec(state, iteration, max_iterations, true, should_update, kernels_ready).0
            is Loading,
        transition_spec(state, iteration, max_iterations, true, should_update, kernels_ready).1
            == 0,
{
}

/// Law: once the counter has reached the iteration budget, a due tick
/// moves the machine to `Finished` (or keeps it there) with the counter
/// unchanged; only a reset leaves that state.
pub proof fn lemma_budget_reached_finishes(
    state: FlowFieldComputeState,
    iteration: u32,
    max_iterations: u32,
    kernels_ready: bool,
)
    requires
        iteration >= max_iterations,
        state is Updating || state is Finished,
    ensures
        transition_spec(state, iteration, max_iterations, false, true, kernels_ready).0
            is Finished,
        transition_spec(state, iteration, max_iterations, false, true, kernels_ready).1
            == iteration,
{
}

/// The three compute kernels.
#[derive(Clone, Copy, Debug, PartialEq, Eq, Structural)]
pub enum KernelKind {
    /// Evaluates the field over the grid, one value per cell.
    Discretize,
    /// Seeds each line with its first two vertices and first quad.
    InitLines,
    /// Extends each line by one vertex and one quad.
    UpdateLines,
}

/// One kernel dispatch the runtime must issue: which kernel, and the
/// workgroup grid to launch it with.
#[derive(Clone, Copy, Debug, PartialEq, Eq, Structural)]
pub struct KernelDispatch {
    /// The kernel to run.
    pub kind: KernelKind,
    /// Workgroups along x.
    pub groups_x: u32,
    /// Workgroups along y.
    pub groups_y: u32,
    /// Workgroups along z.
    pub groups_z: u32,
}

/// The kernels the state just entered requires, in issue order: the
/// initializing tick discretizes the field and then seeds the lines; an
/// updating tick extends the lines once; the other states dispatch nothing.
pub open spec fn kernel_plan_spec(state: FlowFieldComputeState, globals: FlowFieldGlobals) -> Seq<
    KernelDispatch,
>
    recommends
        globals.valid(),
{
    match state {
        FlowFieldComputeState::Initializing => seq![
            KernelDispatch {
                kind: KernelKind::Discretize,
                groups_x: workgroups_spec(globals.grid_width_spec()) as u32,
                groups_y: workgroups_spec(globals.grid_height_spec()) as u32,
                groups_z: 1u32,
            },
            KernelDispatch {
                kind: KernelKind::InitLines,
                groups_x: workgroups_spec(globals.num_lines as int) as u32,
                groups_y: 1u32,
                groups_z: 1u32,
            },
        ],
        FlowFieldComputeState::Updating => seq![
            KernelDispatch {
                kind: KernelKind::UpdateLines,
                groups_x: workgroups_spec(globals.num_lines as int) as u32,
                groups_y: 1u32,
                groups_z: 1u32,
            },
        ],
        FlowFieldComputeState::Loading => Seq::empty(),
        FlowFieldComputeState::Finished => Seq::empty(),
    }
}

/// Law: a tick dispatches at most one geometry-writing kernel — line
/// initialization or line update, never both — with discretization the only
/// companion; and `Loading` and `Finished` dispatch nothing at all.
pub proof fn lemma_single_geometry_kernel_per_tick(
    state: FlowFieldComputeState,
    globals: FlowFieldGlobals,
)
    ensures
        kernel_plan_spec(state, globals).len() <= 2,
        forall|i: int, j: int|
            0 <= i < kernel_plan_spec(state, globals).len() && 0 <= j < kernel_plan_spec(
                state,
                globals,
            ).len() && kernel_plan_spec(state, globals)[i].kind != KernelKind::Discretize
                && kernel_plan_spec(state, globals)[j].kind != KernelKind::Discretize ==> i == j,
        kernel_plan_spec(FlowFieldComputeState::Loading, globals).len() == 0,
        kernel_plan_spec(FlowFieldComputeState::Finished, globals).len() == 0,
{
}

/// Workgroups covering `items` work items, one thread each.
pub fn dispatch_workgroups(items: u32) -> (groups: u32)
    ensures
        groups == workgroups_spec(items as int),
{
    (((items as u64) + (WORK_GROUP_SIZE as u64) - 1) / (WORK_GROUP_SIZE as u64)) as u32
}

/// The field grid as the core models it: the extent the discretization
/// kernel last wrote. The kernel maps the field function over exactly these
/// cells, reading nothing but the Parameter Set bound to it, so the
/// contents are a pure function of that set and the extent identifies them.
#[derive(Clone, Copy, Debug, PartialEq, Eq, Structural)]
pub struct FieldGridState {
    /// Grid width in cells.
    pub width: u32,
    /// Grid height in cells.
    pub height: u32,
}

/// What one discretization dispatch writes under a given Parameter Set.
pub open spec fn discretize_result_spec(globals: FlowFieldGlobals) -> FieldGridState
    recommends
        globals.valid(),
{
    FieldGridState {
        width: globals.grid_width_spec() as u32,
        height: globals.grid_height_spec() as u32,
    }
}

/// The discretization kernel's effect on the grid: whatever was there
/// before is overwritten by the result the Parameter Set implies.
pub open spec fn discretize_step_spec(
    prior: Option<FieldGridState>,
    globals: FlowFieldGlobals,
) -> Option<FieldGridState>
    recommends
        globals.valid(),
{
    Some(discretize_result_spec(globals))
}

/// Records one discretization dispatch: the grid now holds the field
/// evaluated over the extent the Parameter Set implies.
pub fn apply_discretize(grid: &mut Option<FieldGridState>, globals: &FlowFieldGlobals)
    requires
        globals.valid(),
    ensures
        *final(grid) == discretize_step_spec(*old(grid), *globals),
{
    *grid = Some(FieldGridState { width: globals.grid_width(), height: globals.grid_height() });
}

/// Law: dispatching the discretization kernel twice under an unchanged
/// Parameter Set leaves the grid exactly as the first dispatch wrote it —
/// the contents depend on the Parameter Set alone, never on dispatch count.
pub proof fn lemma_discretize_idempotent(prior: Option<FieldGridState>, globals: FlowFieldGlobals)
    ensures
        discretize_step_spec(discretize_step_spec(prior, globals), globals)
            == discretize_step_spec(prior, globals),
{
}

/// The stage-machine driver: its `update` advances the state once per tick
/// and its `run` names the kernels the runtime must dispatch for the state
/// just entered.
pub struct FlowFieldComputeNode;

impl FlowFieldComputeNode {
    /// Observes the tick's flags and advances the stage machine and the
    /// iteration counter by exactly one transition.
    pub fn update(
        &self,
        state: &mut FlowFieldComputeState,
        iteration: &mut CurrentIterationCount,
        max_iterations: u32,
        should_reset: bool,
        should_update: bool,
        kernels_ready: bool,
    )
        ensures
            *final(state) == transition_spec(
                *old(state),
                old(iteration).value,
                max_iterations,
                should_reset,
                should_update,
                kernels_ready,
            ).0,
            final(iteration).value == transition_spec(
                *old(state),
                old(iteration).value,
                max_iterations,
                should_reset,
                should_update,
                kernels_ready,
            ).1,
    {
        if should_reset {
            *state = FlowFieldComputeState::Loading;
            iteration.value = 0;
            return ;
        }
        if !should_update {
            return ;
        }
        match *state {
            FlowFieldComputeState::Loading => {
                if kernels_ready {
                    // Initialization performs the equivalent of 2 iterations.
                    iteration.value = 2;
                    *state = FlowFieldComputeState::Initializing;
                }
            },
            FlowFieldComputeState::Initializing => {
                if iteration.value >= max_iterations {
                    *state = FlowFieldComputeState::Finished;
                } else {
                    iteration.value = iteration.value + 1;
                    *state = FlowFieldComputeState::Updating;
                }
            },
            FlowFieldComputeState::Updating => {
                if iteration.value >= max_iterations {
                    *state = FlowFieldComputeState::Finished;
                } else {
                    iteration.value = iteration.value + 1;
                }
            },
            FlowFieldComputeState::Finished => {},
        }
    }

    /// Names the kernel dispatches the tick's new state requires, in issue
    /// order, with workgroup counts covering the work items.
    pub fn run(&self, state: &FlowFieldComputeState, globals: &FlowFieldGlobals) -> (plan: Vec<
        KernelDispatch,
    >)
        requires
            globals.valid(),
        ensures
            plan@ == kernel_plan_spec(*state, *globals),
    {
        let mut plan: Vec<KernelDispatch> = Vec::new();
        match *state {
            FlowFieldComputeState::Initializing => {
                plan.push(
                    KernelDispatch {
                        kind: KernelKind::Discretize,
                        groups_x: dispatch_workgroups(globals.grid_width()),
                        groups_y: dispatch_workgroups(globals.grid_height()),
                        groups_z: 1,
                    },
                );
                plan.push(
                    KernelDispatch {
                        kind: KernelKind::InitLines,
                        groups_x: dispatch_workgroups(globals.num_lines),
                        groups_y: 1,
                        groups_z: 1,
                    },
                );
            },
            FlowFieldComputeState::Updating => {
                plan.push(
                    KernelDispatch {
                        kind: KernelKind::UpdateLines,
                        groups_x: dispatch_workgroups(globals.num_lines),
                        groups_y: 1,
                        groups_z: 1,
                    },
                );
            },
            FlowFieldComputeState::Loading => {},
            FlowFieldComputeState::Finished => {},
        }
        proof {
            assert(plan@ =~= kernel_plan_spec(*state, *globals));
        }
        plan
    }
}

} // verus!
