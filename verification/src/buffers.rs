//! The Buffer Sizer: byte sizes for the geometry buffers, and the
//! (re)allocation policy — allocate on first use or on reset, never grow in
//! place, never allocate mid-dispatch.
//!
//! The device itself creates and destroys buffers; the core sees each buffer
//! as the identity the device assigned plus the byte size it was created
//! with. A reset therefore shows up here as buffers with fresh identities.

use vstd::prelude::*;

verus! {

use crate::params::FlowFieldGlobals;

/// A GPU buffer as the core sees it: the identity the device assigned and
/// the byte size it was created with. The contents stay on the device.
#[derive(Clone, Copy, Debug, PartialEq, Eq, Structural)]
pub struct BufferAllocation {
    /// Device-assigned identity, unique per allocation.
    pub id: u64,
    /// Byte size the buffer was created with.
    pub size_bytes: u64,
}

/// Hands out device-resource identities: each allocation takes the next
/// counter value, so no two allocations ever share an identity.
#[derive(Clone, Copy, Debug, PartialEq, Eq, Structural)]
pub struct ResourceIdAllocator {
    /// The identity the next allocation will receive.
    pub next_id: u64,
}

impl ResourceIdAllocator {
    /// A fresh allocator; no identity has been handed out yet.
    pub fn new() -> (a: Self)
        ensures
            a.next_id == 0,
    {
        ResourceIdAllocator { next_id: 0 }
    }

    /// Takes the next identity. Every identity handed out earlier is
    /// strictly below `next_id`, so the result is distinct from all of them.
    pub fn fresh(&mut self) -> (id: u64)
        requires
            old(self).next_id < u64::MAX,
        ensures
            id == old(self).next_id,
            final(self).next_id == old(self).next_id + 1,
    {
        let id = self.next_id;
        self.next_id = self.next_id + 1;
        id
    }
}

/// The geometry buffers the compute kernels write and the render stage
/// reads: `None` until the sizer first runs.
#[derive(Clone, Copy, Debug, PartialEq, Eq, Structural)]
pub struct FlowFieldLineMeshBuffers {
    /// Per-line, per-step vertices (position and color attributes).
    pub vertex_buffer: Option<BufferAllocation>,
    /// Triangle indices forming one quad per line per consecutive vertex pair.
    pub index_buffer: Option<BufferAllocation>,
}

impl FlowFieldLineMeshBuffers {
    /// The sizer must run when a buffer has never been allocated or a reset
    /// was requested.
    pub open spec fn needs_allocation(self, globals: FlowFieldGlobals) -> bool {
        self.vertex_buffer is None || self.index_buffer is None || globals.should_reset
    }

    /// Both buffers exist and their byte sizes are the ones the Parameter
    /// Set implies.
    pub open spec fn sized_for(self, globals: FlowFieldGlobals) -> bool {
        &&& self.vertex_buffer matches Some(v) && v.size_bytes == globals.vertex_buffer_bytes()
        &&& self.index_buffer matches Some(i) && i.size_bytes == globals.index_buffer_bytes()
    }

    /// Every identity held was handed out by an allocator now at `next_id`.
    pub open spec fn ids_below(self, next_id: u64) -> bool {
        &&& self.vertex_buffer matches Some(v) ==> v.id < next_id
        &&& self.index_buffer matches Some(i) ==> i.id < next_id
    }
}

impl Default for FlowFieldLineMeshBuffers {
    /// Before the first prepare phase no geometry buffer exists.
    fn default() -> (d: Self)
        ensures
            d.vertex_buffer is None,
            d.index_buffer is None,
    {
        FlowFieldLineMeshBuffers { vertex_buffer: None, index_buffer: None }
    }
}

/// Vertex-buffer byte size for a validated Parameter Set: 16 floats of 4
/// bytes per line and step, one step per iteration plus one for the seed.
pub fn vertex_buffer_size(globals: &FlowFieldGlobals) -> (s: u64)
    requires
        globals.valid(),
    ensures
        s == globals.vertex_buffer_bytes(),
{
    let nl: u128 = globals.num_lines as u128;
    let mi: u128 = globals.max_iterations as u128;
    proof {
        assert(64 * nl <= u128::MAX && 64 * nl * (mi + 1) <= u128::MAX) by (nonlinear_arith)
            requires
                nl <= u32::MAX,
                mi <= u32::MAX,
        ;
    }
    let bytes: u128 = 64 * nl * (mi + 1);
    bytes as u64
}

/// Index-buffer byte size for a validated Parameter Set: one quad of 6
/// four-byte indices per line per consecutive vertex pair.
pub fn index_buffer_size(globals: &FlowFieldGlobals) -> (s: u64)
    requires
        globals.valid(),
    ensures
        s == globals.index_buffer_bytes(),
{
    let nl: u128 = globals.num_lines as u128;
    let mi: u128 = globals.max_iterations as u128;
    proof {
        assert(24 * nl <= u128::MAX && 24 * nl * (mi - 1) <= u128::MAX) by (nonlinear_arith)
            requires
                nl <= u32::MAX,
                mi >= 2,
                mi <= u32::MAX,
        ;
    }
    let bytes: u128 = 24 * nl * (mi - 1);
    bytes as u64
}

/// Field-grid buffer byte size for a validated Parameter Set: one 4-byte
/// scalar per grid cell.
pub fn grid_buffer_size(globals: &FlowFieldGlobals) -> (s: u64)
    requires
        globals.valid(),
    ensures
        s == globals.grid_buffer_bytes(),
{
    let gw: u64 = globals.grid_width() as u64;
    let gh: u64 = globals.grid_height() as u64;
    proof {
        assert(4 * (gw as int) * (gh as int) < 0x10000000000000000000) by (nonlinear_arith)
            requires
                gw <= u32::MAX,
                gh <= u32::MAX,
        ;
    }
    let bytes: u128 = 4 * (gw as u128) * (gh as u128);
    bytes as u64
}

/// The prepare-phase sizer for the line geometry: when a buffer has never
/// been allocated, or a reset was requested, both buffers are dropped and
/// recreated with fresh identities at the sizes the Parameter Set implies;
/// otherwise nothing changes. Runs before bind groups are built, never
/// mid-dispatch.
pub fn create_line_mesh_buffers(
    mesh_data: &mut FlowFieldLineMeshBuffers,
    globals: &FlowFieldGlobals,
    ids: &mut ResourceIdAllocator,
)
    requires
        globals.valid(),
        old(ids).next_id + 2 <= u64::MAX,
    ensures
        old(mesh_data).needs_allocation(*globals) ==> {
            &&& final(mesh_data).vertex_buffer == Some(BufferAllocation {
                id: old(ids).next_id,
                size_bytes: globals.vertex_buffer_bytes() as u64,
            })
            &&& final(mesh_data).index_buffer == Some(BufferAllocation {
                id: (old(ids).next_id + 1) as u64,
                size_bytes: globals.index_buffer_bytes() as u64,
            })
            &&& final(ids).next_id == old(ids).next_id + 2
        },
        !old(mesh_data).needs_allocation(*globals) ==> {
            &&& *final(mesh_data) == *old(mesh_data)
            &&& *final(ids) == *old(ids)
        },
        final(mesh_data).sized_for(*globals) || !old(mesh_data).needs_allocation(*globals),
{
    if mesh_data.vertex_buffer.is_none() || mesh_data.index_buffer.is_none()
        || globals.should_reset {
        let vertex_id = ids.fresh();
        let index_id = ids.fresh();
        mesh_data.vertex_buffer = Some(
            BufferAllocation { id: vertex_id, size_bytes: vertex_buffer_size(globals) },
        );
        mesh_data.index_buffer = Some(
            BufferAllocation { id: index_id, size_bytes: index_buffer_size(globals) },
        );
    }
}

/// The prepare-phase sizer for the field-grid buffer: same policy as the
/// line geometry — recreate with a fresh identity on first use or on reset.
pub fn create_field_grid_buffer(
    grid: &mut Option<BufferAllocation>,
    globals: &FlowFieldGlobals,
    ids: &mut ResourceIdAllocator,
)
    requires
        globals.valid(),
        old(ids).next_id < u64::MAX,
    ensures
        ((*old(grid)) is None || globals.should_reset) ==> {
            &&& *final(grid) == Some(BufferAllocation {
                id: old(ids).next_id,
                size_bytes: globals.grid_buffer_bytes() as u64,
            })
            &&& final(ids).next_id == old(ids).next_id + 1
        },
        !((*old(grid)) is None || globals.should_reset) ==> {
            &&& *final(grid) == *old(grid)
            &&& *final(ids) == *old(ids)
        },
{
    if grid.is_none() || globals.should_reset {
        let id = ids.fresh();
        *grid = Some(BufferAllocation { id, size_bytes: grid_buffer_size(globals) });
    }
}

/// The pinned sizing convention, spelled out: for any geometry buffers the
/// sizer accepts as sized for a valid Parameter Set, the vertex buffer holds
/// 16 x 4 bytes per line for `max_iterations + 1` steps, and the index
/// buffer 6 x 4 bytes per line for `max_iterations - 1` quads.
pub proof fn lemma_buffer_size_formula(m: FlowFieldLineMeshBuffers, g: FlowFieldGlobals)
    requires
        g.valid(),
        m.sized_for(g),
    ensures
        m.vertex_buffer matches Some(v) && v.size_bytes == 16 * 4 * g.num_lines * (
        g.max_iterations + 1),
        m.index_buffer matches Some(i) && i.size_bytes == 6 * 4 * g.num_lines * (g.max_iterations
            - 1),
{
}

} // verus!
