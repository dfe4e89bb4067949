//! The mesh manipulation scene: a compute shader that rewrites the vertex
//! buffer of a plane in place, first with its init and then with its update
//! entry point.
use vstd::prelude::*;
use crate::pipeline::{BufferBinding, ComputeDispatch, PipelineKind, PipelineStatus, Workgroups, binding_size};

verus! {

/// The number of workgroups of each dispatch, in the x dimension.
pub const WORKGROUP_SIZE: u32 = 1;

/// The bytes that one vertex takes in the storage buffer that the shader sees.
pub const VERTEX_STRIDE: u64 = 48;

/// The bytes of the debug value that the shader writes.
pub const DEBUG_VALUE_SIZE: u64 = 4;

/// The number of panes of the plane, per axis, handed to the shader.
#[derive(Debug, Clone, Copy, PartialEq, Eq, Structural)]
pub struct MeshManipulationUniforms {
    pub pane_x_count: u32,
    pub pane_y_count: u32,
}

impl MeshManipulationUniforms {
    /// The plane that the scene starts with: 64 by 64 panes.
    pub fn initial() -> (u: Self)
        ensures
            u.pane_x_count == 64,
            u.pane_y_count == 64,
    {
        MeshManipulationUniforms { pane_x_count: 64, pane_y_count: 64 }
    }
}

/// The state of the scene in the render world.
#[derive(Debug, Clone, Copy, PartialEq, Eq, Structural)]
pub enum RenderState {
    /// Waiting for the init pipeline.
    Loading,
    /// The init pipeline runs.
    Init,
    /// The update pipeline runs.
    Update,
}

impl Default for RenderState {
    fn default() -> (s: Self)
        ensures
            s == RenderState::Loading,
    {
        RenderState::Loading
    }
}

/// One step of the scene's state machine, given the states of the init and
/// the update pipeline.
pub open spec fn next_state(state: RenderState, init: PipelineStatus, update: PipelineStatus) -> RenderState {
    match state {
        RenderState::Loading => if init == PipelineStatus::Ready {
            RenderState::Init
        } else {
            RenderState::Loading
        },
        RenderState::Init => if update == PipelineStatus::Ready {
            RenderState::Update
        } else {
            RenderState::Init
        },
        RenderState::Update => RenderState::Update,
    }
}

/// The dispatch that the render graph issues in a state.
pub open spec fn dispatch_of(state: RenderState) -> Option<ComputeDispatch> {
    match state {
        RenderState::Loading => None,
        RenderState::Init => Some(
            ComputeDispatch {
                pipeline: PipelineKind::Init,
                bind_group: 0,
                workgroups: Workgroups { x: WORKGROUP_SIZE, y: 1, z: 1 },
            },
        ),
        RenderState::Update => Some(
            ComputeDispatch {
                pipeline: PipelineKind::Update,
                bind_group: 0,
                workgroups: Workgroups { x: WORKGROUP_SIZE, y: 1, z: 1 },
            },
        ),
    }
}

/// Advances the scene's state: from `Loading` to `Init` once the init pipeline
/// is ready, from `Init` to `Update` once the update pipeline is ready; `Update`
/// stays. A failed init pipeline while loading is fatal to the scene and is not
/// an input here.
pub fn update(state: &mut RenderState, init: PipelineStatus, update: PipelineStatus)
    requires
        !(*old(state) == RenderState::Loading && init == PipelineStatus::Failed),
    ensures
        *final(state) == next_state(*old(state), init, update),
{
    match *state {
        RenderState::Loading => {
            match init {
                PipelineStatus::Ready => {
                    *state = RenderState::Init;
                },
                // The shader has not loaded yet, or the pipeline is still being made: wait.
                _ => {},
            }
        },
        RenderState::Init => {
            if update == PipelineStatus::Ready {
                *state = RenderState::Update;
            }
        },
        RenderState::Update => {},
    }
}

/// Puts the scene back to `Loading` when at least one reset was asked for this
/// frame, and leaves it as it is otherwise.
pub fn reset_render_state(reset_count: usize, state: &mut RenderState)
    ensures
        *final(state) == (if reset_count > 0 {
            RenderState::Loading
        } else {
            *old(state)
        }),
{
    if reset_count > 0 {
        *state = RenderState::Loading;
    }
}

/// The compute work of a frame: nothing while loading, else the entry point of
/// the state on the scene's only bind group.
pub fn mesh_manipulation(state: &RenderState) -> (d: Option<ComputeDispatch>)
    ensures
        d == dispatch_of(*state),
{
    match *state {
        RenderState::Loading => None,
        RenderState::Init => Some(
            ComputeDispatch {
                pipeline: PipelineKind::Init,
                bind_group: 0,
                workgroups: Workgroups { x: WORKGROUP_SIZE, y: 1, z: 1 },
            },
        ),
        RenderState::Update => Some(
            ComputeDispatch {
                pipeline: PipelineKind::Update,
                bind_group: 0,
                workgroups: Workgroups { x: WORKGROUP_SIZE, y: 1, z: 1 },
            },
        ),
    }
}

/// The number of vertices in the slice `[start, end)` of the vertex buffer;
/// none where `end` does not lie past `start`.
pub open spec fn vertex_count(start: u32, end: u32) -> nat {
    if start < end {
        (end - start) as nat
    } else {
        0
    }
}

/// The binding of the plane's vertices that `prepare_bind_group` makes from the
/// mesh allocator's slice `[start, end)`: it starts at `start`, taken as a byte
/// offset, and spans `VERTEX_STRIDE` bytes per vertex of the slice; an empty
/// slice binds the rest of the buffer.
pub fn vertex_binding(start: u32, end: u32) -> (b: BufferBinding)
    ensures
        b.offset == start,
        b.size == binding_size(vertex_count(start, end) * VERTEX_STRIDE),
{
    let count: u64 = if start < end {
        (end - start) as u64
    } else {
        0
    };
    let bytes: u64 = count * VERTEX_STRIDE;
    BufferBinding { offset: start as u64, size: if bytes == 0 {
        None
    } else {
        Some(bytes)
    } }
}

/// The binding of the debug value: its first four bytes.
pub fn debug_binding() -> (b: BufferBinding)
    ensures
        b == (BufferBinding { offset: 0, size: Some(DEBUG_VALUE_SIZE) }),
{
    BufferBinding { offset: 0, size: Some(DEBUG_VALUE_SIZE) }
}

/// The scene waits while a pipeline it needs is not ready: `Loading` stays
/// until the init pipeline is ready and `Init` until the update pipeline is;
/// `Update` stays until a reset.
pub proof fn lemma_waits_for_pipelines(state: RenderState, init: PipelineStatus, update: PipelineStatus)
    ensures
        state == RenderState::Loading && init != PipelineStatus::Ready ==> next_state(
            state,
            init,
            update,
        ) == state,
        state == RenderState::Init && update != PipelineStatus::Ready ==> next_state(
            state,
            init,
            update,
        ) == state,
        state == RenderState::Update ==> next_state(state, init, update) == RenderState::Update,
{
}

/// The init entry point runs before the update entry point: a state that
/// dispatches the update entry point is reached only from one that dispatched
/// the init entry point or the update entry point itself.
pub proof fn lemma_init_before_update(state: RenderState, init: PipelineStatus, update: PipelineStatus)
    ensures
        next_state(state, init, update) == RenderState::Update ==> state != RenderState::Loading,
        dispatch_of(state) matches Some(d) ==> d.pipeline == (if state == RenderState::Init {
            PipelineKind::Init
        } else {
            PipelineKind::Update
        }),
{
}

/// The scene starts as soon as its pipelines are ready: from `Loading`, a
/// ready init pipeline leads to `Init` whatever the state of the update
/// pipeline, and from `Init` a ready update pipeline leads to `Update` whatever
/// the state of the init pipeline.
pub proof fn lemma_starts_when_ready(init: PipelineStatus, update: PipelineStatus)
    ensures
        next_state(RenderState::Loading, PipelineStatus::Ready, update) == RenderState::Init,
        next_state(RenderState::Init, init, PipelineStatus::Ready) == RenderState::Update,
{
}

/// What each state dispatches: nothing while loading; the init entry point in
/// `Init`; the update entry point in `Update`; always on bind group 0 over one
/// workgroup.
pub proof fn lemma_dispatch_table()
    ensures
        dispatch_of(RenderState::Loading).is_none(),
        dispatch_of(RenderState::Init) == Some(
            (ComputeDispatch {
                pipeline: PipelineKind::Init,
                bind_group: 0,
                workgroups: Workgroups { x: 1, y: 1, z: 1 },
            }),
        ),
        dispatch_of(RenderState::Update) == Some(
            (ComputeDispatch {
                pipeline: PipelineKind::Update,
                bind_group: 0,
                workgroups: Workgroups { x: 1, y: 1, z: 1 },
            }),
        ),
{
}

/// The vertex count of a slice is the distance from its start to its end, and
/// zero where the end does not lie past the start.
pub proof fn lemma_vertex_count(start: u32, end: u32)
    ensures
        start < end ==> vertex_count(start, end) == end - start,
        end <= start ==> vertex_count(start, end) == 0,
{
}

} // verus!
