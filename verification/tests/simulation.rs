//! End-to-end scenarios for the staged simulation pipeline: the stage
//! machine's transitions, the reset protocol, and the per-tick dispatch
//! plans, driven through the simulation context exactly as a runtime shell
//! would drive them.

use flow_field::compute::{
    apply_discretize, CurrentIterationCount, FieldGridState, FlowFieldComputeNode,
    FlowFieldComputeState, KernelKind,
};
use flow_field::context::{FlowFieldContext, TickEvents};
use flow_field::params::FlowFieldGlobals;
use flow_field::render::drawable_index_count;

fn globals(num_lines: u32, max_iterations: u32) -> FlowFieldGlobals {
    FlowFieldGlobals {
        should_reset: false,
        paused: false,
        viewport_width: 640,
        viewport_height: 480,
        num_lines,
        max_iterations,
        grid_point_distance: 10,
        grid_margin: 20,
    }
}

fn running_events() -> TickEvents {
    TickEvents { should_update: true, kernels_ready: true, view_available: true, view_offset: 0 }
}

#[test]
fn scenario_minimal_budget_finishes_after_init() {
    // One line, a budget of two steps: initialization spends the whole
    // budget, so the machine moves Loading -> Initializing -> Finished
    // with exactly two vertices and one quad per line.
    let g = globals(1, 2);
    assert!(g.validate().is_ok());
    let mut ctx = FlowFieldContext::new();
    let ev = running_events();

    let plan = ctx.tick(&g, &ev);
    assert_eq!(ctx.state, FlowFieldComputeState::Initializing);
    assert_eq!(ctx.iteration.value, 2);
    assert_eq!(plan.len(), 2);
    assert_eq!(plan[0].kind, KernelKind::Discretize);
    assert_eq!(plan[1].kind, KernelKind::InitLines);

    let plan = ctx.tick(&g, &ev);
    assert_eq!(ctx.state, FlowFieldComputeState::Finished);
    assert_eq!(ctx.iteration.value, 2);
    assert_eq!(ctx.vertices_per_line, 2);
    assert_eq!(ctx.quads_per_line, 1);
    assert!(plan.is_empty());

    // Only the already-computed portion is drawable: one quad, six indices.
    assert_eq!(drawable_index_count(&g, &ctx.iteration), 6);
}

#[test]
fn scenario_full_run_reaches_finished() {
    // 100 lines, budget 50: after 52 ticks the machine is Finished with the
    // counter at the budget and 100 x 49 quads drawable.
    let g = globals(100, 50);
    assert!(g.validate().is_ok());
    let mut ctx = FlowFieldContext::new();
    let ev = running_events();

    for _ in 0..52 {
        ctx.tick(&g, &ev);
    }
    assert_eq!(ctx.state, FlowFieldComputeState::Finished);
    assert_eq!(ctx.iteration.value, 50);
    assert_eq!(ctx.quads_per_line, 49);
    assert_eq!(drawable_index_count(&g, &ctx.iteration), 6 * 100 * 49);
}

#[test]
fn scenario_reset_mid_updating_reallocates() {
    // Reset observed at iteration 30 of 50: next tick is Loading with a
    // zero counter, and every geometry buffer has a new identity before
    // any kernel runs again.
    let g = globals(100, 50);
    let mut ctx = FlowFieldContext::new();
    let ev = running_events();

    for _ in 0..29 {
        ctx.tick(&g, &ev);
    }
    assert_eq!(ctx.state, FlowFieldComputeState::Updating);
    assert_eq!(ctx.iteration.value, 30);

    let old_vertex = ctx.mesh_buffers.vertex_buffer.unwrap();
    let old_index = ctx.mesh_buffers.index_buffer.unwrap();
    let old_grid = ctx.grid_buffer.unwrap();

    let mut reset_g = g;
    reset_g.request_reset();
    let plan = ctx.tick(&reset_g, &ev);
    assert!(plan.is_empty());
    assert_eq!(ctx.state, FlowFieldComputeState::Loading);
    assert_eq!(ctx.iteration.value, 0);
    assert_eq!(ctx.vertices_per_line, 0);
    assert_eq!(ctx.quads_per_line, 0);
    assert!(ctx.compute_bind_group.0.is_none());
    assert!(ctx.grid_state.is_none());

    let new_vertex = ctx.mesh_buffers.vertex_buffer.unwrap();
    let new_index = ctx.mesh_buffers.index_buffer.unwrap();
    let new_grid = ctx.grid_buffer.unwrap();
    assert_ne!(new_vertex.id, old_vertex.id);
    assert_ne!(new_index.id, old_index.id);
    assert_ne!(new_grid.id, old_grid.id);

    // The next tick starts over from Loading.
    let plan = ctx.tick(&g, &ev);
    assert_eq!(ctx.state, FlowFieldComputeState::Initializing);
    assert_eq!(ctx.iteration.value, 2);
    assert_eq!(plan.len(), 2);
}

#[test]
fn scenario_resize_recomputes_grid_before_discretize() {
    // A viewport resize while Updating requests a reset; the next
    // discretization runs over the grid implied by the new viewport.
    let mut g = globals(10, 50);
    let mut ctx = FlowFieldContext::new();
    let ev = running_events();

    for _ in 0..5 {
        ctx.tick(&g, &ev);
    }
    assert_eq!(ctx.state, FlowFieldComputeState::Updating);

    g.apply_resize(800, 600);
    assert!(g.should_reset);
    assert_eq!(g.grid_width(), (800 + 40) / 10);
    assert_eq!(g.grid_height(), (600 + 40) / 10);

    ctx.tick(&g, &ev);
    assert_eq!(ctx.state, FlowFieldComputeState::Loading);

    g.should_reset = false;
    let plan = ctx.tick(&g, &ev);
    assert_eq!(ctx.state, FlowFieldComputeState::Initializing);
    assert_eq!(plan[0].kind, KernelKind::Discretize);
    // ceil(84 / 16) x ceil(64 / 16) workgroups over the new grid.
    assert_eq!(plan[0].groups_x, 6);
    assert_eq!(plan[0].groups_y, 4);
    assert_eq!(ctx.grid_state, Some(FieldGridState { width: 84, height: 64 }));
}

#[test]
fn reset_restores_start_from_every_state() {
    // Whatever state the machine is in, a reset tick restores Loading and
    // a zero counter.
    let g = globals(3, 4);
    let ev = running_events();
    let mut reset_g = g;
    reset_g.request_reset();

    for ticks_before_reset in 0..6 {
        let mut ctx = FlowFieldContext::new();
        for _ in 0..ticks_before_reset {
            ctx.tick(&g, &ev);
        }
        ctx.tick(&reset_g, &ev);
        assert_eq!(ctx.state, FlowFieldComputeState::Loading);
        assert_eq!(ctx.iteration.value, 0);
    }
}

#[test]
fn iteration_is_monotonic_and_bounded() {
    let g = globals(7, 9);
    let ev = running_events();
    let mut ctx = FlowFieldContext::new();
    let mut last = ctx.iteration.value;
    for _ in 0..20 {
        ctx.tick(&g, &ev);
        assert!(ctx.iteration.value >= last);
        assert!(ctx.iteration.value <= g.max_iterations);
        last = ctx.iteration.value;
    }
    assert_eq!(ctx.state, FlowFieldComputeState::Finished);
    assert_eq!(ctx.iteration.value, 9);
}

#[test]
fn paused_tick_is_a_no_op() {
    let g = globals(5, 10);
    let mut ctx = FlowFieldContext::new();
    let ev = running_events();
    ctx.tick(&g, &ev);
    ctx.tick(&g, &ev);
    let state = ctx.state;
    let iteration = ctx.iteration;
    let gated = TickEvents { should_update: false, ..running_events() };
    let plan = ctx.tick(&g, &gated);
    assert!(plan.is_empty());
    assert_eq!(ctx.state, state);
    assert_eq!(ctx.iteration, iteration);
}

#[test]
fn missing_view_skips_the_whole_tick() {
    // Without the view uniform no binding set can be built, so the dispatch
    // is skipped entirely and the state machine is not advanced.
    let g = globals(5, 10);
    let mut ctx = FlowFieldContext::new();
    let no_view = TickEvents { view_available: false, ..running_events() };
    let plan = ctx.tick(&g, &no_view);
    assert!(plan.is_empty());
    assert_eq!(ctx.state, FlowFieldComputeState::Loading);
    assert!(ctx.mesh_buffers.vertex_buffer.is_none());
    assert!(ctx.compute_bind_group.0.is_none());
}

#[test]
fn loading_waits_for_kernel_compilation() {
    let g = globals(5, 10);
    let mut ctx = FlowFieldContext::new();
    let not_ready = TickEvents { kernels_ready: false, ..running_events() };
    let plan = ctx.tick(&g, &not_ready);
    assert!(plan.is_empty());
    assert_eq!(ctx.state, FlowFieldComputeState::Loading);
    assert_eq!(ctx.iteration.value, 0);
    // Once compilation finishes, the next tick initializes.
    ctx.tick(&g, &running_events());
    assert_eq!(ctx.state, FlowFieldComputeState::Initializing);
}

#[test]
fn update_plan_covers_all_lines() {
    // 100 lines at 16 threads per workgroup need ceil(100 / 16) = 7 groups.
    let g = globals(100, 50);
    let mut ctx = FlowFieldContext::new();
    let ev = running_events();
    ctx.tick(&g, &ev);
    let plan = ctx.tick(&g, &ev);
    assert_eq!(ctx.state, FlowFieldComputeState::Updating);
    assert_eq!(plan.len(), 1);
    assert_eq!(plan[0].kind, KernelKind::UpdateLines);
    assert_eq!(plan[0].groups_x, 7);
    assert_eq!(plan[0].groups_y, 1);
    assert_eq!(plan[0].groups_z, 1);
}

#[test]
fn bind_group_tracks_buffers_and_counter() {
    let g = globals(4, 6);
    let mut ctx = FlowFieldContext::new();
    let ev = TickEvents { view_offset: 256, ..running_events() };
    ctx.tick(&g, &ev);
    let set = ctx.compute_bind_group.0.unwrap();
    assert_eq!(set.view_offset, 256);
    assert_eq!(set.iteration_value, ctx.iteration.value);
    assert_eq!(set.vertex_buffer_id, ctx.mesh_buffers.vertex_buffer.unwrap().id);
    assert_eq!(set.index_buffer_id, ctx.mesh_buffers.index_buffer.unwrap().id);
    assert_eq!(set.grid_buffer_id, ctx.grid_buffer.unwrap().id);
}

#[test]
fn discretize_twice_writes_identical_grid() {
    // Dispatching the discretization kernel twice under an unchanged
    // Parameter Set produces identical grid contents.
    let g = globals(4, 6);
    let mut grid_a: Option<FieldGridState> = None;
    apply_discretize(&mut grid_a, &g);
    let after_once = grid_a;
    apply_discretize(&mut grid_a, &g);
    assert_eq!(grid_a, after_once);
    assert_eq!(grid_a, Some(FieldGridState { width: 68, height: 52 }));
}

#[test]
fn node_update_matches_original_transitions() {
    let node = FlowFieldComputeNode;
    let mut state = FlowFieldComputeState::Loading;
    let mut iteration = CurrentIterationCount { value: 0 };

    // Loading -> Initializing seeds the two init steps.
    node.update(&mut state, &mut iteration, 5, false, true, true);
    assert_eq!(state, FlowFieldComputeState::Initializing);
    assert_eq!(iteration.value, 2);

    // Initializing -> Updating advances by one.
    node.update(&mut state, &mut iteration, 5, false, true, true);
    assert_eq!(state, FlowFieldComputeState::Updating);
    assert_eq!(iteration.value, 3);

    // Updating -> Updating until the budget is reached.
    node.update(&mut state, &mut iteration, 5, false, true, true);
    node.update(&mut state, &mut iteration, 5, false, true, true);
    assert_eq!(state, FlowFieldComputeState::Updating);
    assert_eq!(iteration.value, 5);

    // At the budget: Updating -> Finished, counter unchanged.
    node.update(&mut state, &mut iteration, 5, false, true, true);
    assert_eq!(state, FlowFieldComputeState::Finished);
    assert_eq!(iteration.value, 5);

    // Finished stays Finished.
    node.update(&mut state, &mut iteration, 5, false, true, true);
    assert_eq!(state, FlowFieldComputeState::Finished);

    // A reset overrides everything.
    node.update(&mut state, &mut iteration, 5, true, true, true);
    assert_eq!(state, FlowFieldComputeState::Loading);
    assert_eq!(iteration.value, 0);
}
