//! The Parameter Set: per-run simulation configuration and the formulas
//! derived from it (field-grid resolution, geometry-buffer byte sizes).
//!
//! A Parameter Set is a snapshot taken at a tick boundary; it never changes
//! mid-dispatch. Every size-affecting change arrives together with the reset
//! flag, so buffers sized from one snapshot are never reinterpreted under
//! another.

use vstd::prelude::*;

verus! {

/// Why a Parameter Set was rejected. Validation runs before any buffer
/// allocation; a rejected set never reaches the sizer.
#[derive(Clone, Copy, Debug, PartialEq, Eq, Structural)]
pub enum ConfigError {
    /// `num_lines` is zero: there is nothing to simulate.
    NoLines,
    /// `max_iterations` is below two: initialization alone performs the
    /// equivalent of two integration steps, so a smaller budget produces a
    /// degenerate (negative-sized) index buffer.
    IterationBudgetTooSmall,
    /// `grid_point_distance` is zero: the field grid would be unbounded.
    GridDistanceZero,
    /// A geometry buffer's byte size would overflow the device's 64-bit
    /// buffer-address space.
    BufferTooLarge,
    /// The field grid would exceed the device's 32-bit dispatch limit in one
    /// dimension, or its buffer would overflow the 64-bit address space.
    GridTooLarge,
}

/// The Parameter Set: simulation configuration, mutable only between ticks.
///
/// Appearance-only settings of the full configuration (step size, line
/// width, colors, noise shape, modulation) influence neither buffer sizing
/// nor state transitions; they stay with the rendering shell, which keeps
/// its own copy beside these fields.
#[derive(Clone, Copy, Debug, PartialEq, Eq, Structural)]
pub struct FlowFieldGlobals {
    /// Observed at the start of a tick; forces the stage machine back to
    /// `Loading` and reallocates every geometry buffer.
    pub should_reset: bool,
    /// While set, ticks advance neither the stage machine nor the counter.
    pub paused: bool,
    /// Viewport width in pixels.
    pub viewport_width: u32,
    /// Viewport height in pixels.
    pub viewport_height: u32,
    /// Number of independently simulated line trajectories. Must be > 0.
    pub num_lines: u32,
    /// Upper bound on growth steps per line. Must be >= 2.
    pub max_iterations: u32,
    /// Distance in pixels between neighbouring field-grid points. Must be > 0.
    pub grid_point_distance: u32,
    /// Margin in pixels added on both sides of each viewport dimension
    /// before the field grid is laid out.
    pub grid_margin: u32,
}

impl FlowFieldGlobals {
    /// Field-grid width in cells: `(viewport_width + 2 * margin) / distance`.
    pub open spec fn grid_width_spec(self) -> int
        recommends
            self.grid_point_distance > 0,
    {
        (self.viewport_width + 2 * self.grid_margin) / self.grid_point_distance as int
    }

    /// Field-grid height in cells: `(viewport_height + 2 * margin) / distance`.
    pub open spec fn grid_height_spec(self) -> int
        recommends
            self.grid_point_distance > 0,
    {
        (self.viewport_height + 2 * self.grid_margin) / self.grid_point_distance as int
    }

    /// Vertex-buffer byte size: 16 floats of 4 bytes per line and step, one
    /// step per iteration plus one for the seed vertex.
    pub open spec fn vertex_buffer_bytes(self) -> int {
        16 * 4 * self.num_lines * (self.max_iterations + 1)
    }

    /// Index-buffer byte size: one quad of 6 four-byte indices per line and
    /// per consecutive vertex pair, `max_iterations - 1` pairs per line.
    pub open spec fn index_buffer_bytes(self) -> int
        recommends
            self.max_iterations >= 1,
    {
        6 * 4 * self.num_lines * (self.max_iterations - 1)
    }

    /// Field-grid buffer byte size: one 4-byte scalar per grid cell.
    pub open spec fn grid_buffer_bytes(self) -> int
        recommends
            self.grid_point_distance > 0,
    {
        4 * self.grid_width_spec() * self.grid_height_spec()
    }

    /// A Parameter Set the simulation accepts: the structural invariants,
    /// and the derived sizes within what the device can address or dispatch.
    pub open spec fn valid(self) -> bool {
        &&& self.num_lines > 0
        &&& self.max_iterations >= 2
        &&& self.grid_point_distance > 0
        &&& self.vertex_buffer_bytes() <= u64::MAX as int
        &&& self.index_buffer_bytes() <= u64::MAX as int
        &&& self.grid_width_spec() <= u32::MAX as int
        &&& self.grid_height_spec() <= u32::MAX as int
        &&& self.grid_buffer_bytes() <= u64::MAX as int
    }

    /// The canonical validation outcome: the first violated invariant, in
    /// the order the checks run, or `Ok` exactly for a valid set.
    pub open spec fn validation_result(self) -> Result<(), ConfigError> {
        if self.num_lines == 0 {
            Err(ConfigError::NoLines)
        } else if self.max_iterations < 2 {
            Err(ConfigError::IterationBudgetTooSmall)
        } else if self.grid_point_distance == 0 {
            Err(ConfigError::GridDistanceZero)
        } else if self.vertex_buffer_bytes() > u64::MAX as int || self.index_buffer_bytes()
            > u64::MAX as int {
            Err(ConfigError::BufferTooLarge)
        } else if self.grid_width_spec() > u32::MAX as int || self.grid_height_spec()
            > u32::MAX as int || self.grid_buffer_bytes() > u64::MAX as int {
            Err(ConfigError::GridTooLarge)
        } else {
            Ok(())
        }
    }

    /// Rejects a Parameter Set that would produce degenerate or unallocatable
    /// buffers. Accepts exactly the valid sets, and reports for each rejected
    /// set the first violated invariant.
    pub fn validate(&self) -> (r: Result<(), ConfigError>)
        ensures
            r is Ok <==> self.valid(),
            r == self.validation_result(),
    {
        if self.num_lines == 0 {
            return Err(ConfigError::NoLines);
        }
        if self.max_iterations < 2 {
            return Err(ConfigError::IterationBudgetTooSmall);
        }
        if self.grid_point_distance == 0 {
            return Err(ConfigError::GridDistanceZero);
        }
        let nl: u128 = self.num_lines as u128;
        let mi: u128 = self.max_iterations as u128;
        proof {
            assert(64 * nl * (mi + 1) < 0x10000000000000000000) by (nonlinear_arith)
                requires
                    nl <= u32::MAX,
                    mi <= u32::MAX,
            ;
            assert(24 * nl * (mi - 1) < 0x10000000000000000000) by (nonlinear_arith)
                requires
                    nl <= u32::MAX,
                    mi <= u32::MAX,
                    mi >= 2,
            ;
        }
        let vertex_bytes: u128 = 64 * nl * (mi + 1);
        let index_bytes: u128 = 24 * nl * (mi - 1);
        if vertex_bytes > u64::MAX as u128 || index_bytes > u64::MAX as u128 {
            return Err(ConfigError::BufferTooLarge);
        }
        let gw: u64 = (self.viewport_width as u64 + 2 * self.grid_margin as u64)
            / self.grid_point_distance as u64;
        let gh: u64 = (self.viewport_height as u64 + 2 * self.grid_margin as u64)
            / self.grid_point_distance as u64;
        if gw > u32::MAX as u64 || gh > u32::MAX as u64 {
            return Err(ConfigError::GridTooLarge);
        }
        proof {
            assert(4 * (gw as int) * (gh as int) < 0x10000000000000000000) by (nonlinear_arith)
                requires
                    gw <= u32::MAX,
                    gh <= u32::MAX,
            ;
        }
        let grid_bytes: u128 = 4 * (gw as u128) * (gh as u128);
        if grid_bytes > u64::MAX as u128 {
            return Err(ConfigError::GridTooLarge);
        }
        Ok(())
    }

    /// Field-grid width in cells, for a validated Parameter Set.
    pub fn grid_width(&self) -> (w: u32)
        requires
            self.valid(),
        ensures
            w == self.grid_width_spec(),
    {
        let gw: u64 = (self.viewport_width as u64 + 2 * self.grid_margin as u64)
            / self.grid_point_distance as u64;
        gw as u32
    }

    /// Field-grid height in cells, for a validated Parameter Set.
    pub fn grid_height(&self) -> (h: u32)
        requires
            self.valid(),
        ensures
            h == self.grid_height_spec(),
    {
        let gh: u64 = (self.viewport_height as u64 + 2 * self.grid_margin as u64)
            / self.grid_point_distance as u64;
        gh as u32
    }

    /// Applies a viewport resize event: the new dimensions are recorded and a
    /// reset is requested, so grid and geometry are rebuilt from the new
    /// viewport before anything is dispatched against it.
    pub fn apply_resize(&mut self, width: u32, height: u32)
        ensures
            *final(self) == (FlowFieldGlobals {
                viewport_width: width,
                viewport_height: height,
                should_reset: true,
                ..*old(self)
            }),
    {
        self.viewport_width = width;
        self.viewport_height = height;
        self.should_reset = true;
    }

    /// Requests a reset at the next tick boundary, as the configuration UI
    /// does whenever a simulation-shaping setting changes.
    pub fn request_reset(&mut self)
        ensures
            *final(self) == (FlowFieldGlobals { should_reset: true, ..*old(self) }),
    {
        self.should_reset = true;
    }
}

impl Default for FlowFieldGlobals {
    /// The startup configuration: 40000 lines, 300 iterations, a 640 x 480
    /// viewport, a grid point every 10 pixels with a 20-pixel margin, no
    /// reset pending and not paused.
    fn default() -> (d: Self)
        ensures
            d == (FlowFieldGlobals {
                should_reset: false,
                paused: false,
                viewport_width: 640,
                viewport_height: 480,
                num_lines: 40000,
                max_iterations: 300,
                grid_point_distance: 10,
                grid_margin: 20,
            }),
            d.valid(),
    {
        let d = FlowFieldGlobals {
            should_reset: false,
            paused: false,
            viewport_width: 640,
            viewport_height: 480,
            num_lines: 40000,
            max_iterations: 300,
            grid_point_distance: 10,
            grid_margin: 20,
        };
        proof {
            assert(16 * 4 * 40000 * (300 + 1) == 770560000int) by (nonlinear_arith);
            assert(6 * 4 * 40000 * (300 - 1) == 287040000int) by (nonlinear_arith);
            assert(d.vertex_buffer_bytes() == 770560000);
            assert(d.index_buffer_bytes() == 287040000);
            assert(d.grid_width_spec() == 68);
            assert(d.grid_height_spec() == 52);
            assert(d.grid_buffer_bytes() == 14144);
        }
        d
    }
}

} // verus!
