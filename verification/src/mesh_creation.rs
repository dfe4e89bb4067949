//! The mesh creation scene: a compute shader that reads the vertices of a cube
//! and writes a new mesh, once per press of the deformation key.
use vstd::prelude::*;
use crate::pipeline::{BufferBinding, PipelineStatus, Workgroups, binding_size};

verus! {

/// The number of workgroups of the dispatch, in the x dimension.
pub const WORKGROUP_SIZE_X: u32 = 1;

/// The number of workgroups of the dispatch, in the y dimension.
pub const WORKGROUP_SIZE_Y: u32 = 1;

/// The bytes of each of the two output buffers.
pub const OUTPUT_BUFFER_SIZE: u64 = 1024;

/// The bytes of the debug value that the shader writes.
pub const DEBUG_VALUE_SIZE: u64 = 4;

/// The ranges of the mesh that the shader works on, handed to it as uniforms.
#[derive(Debug, Clone, Copy, PartialEq, Eq, Structural)]
pub struct MeshCreationUniforms {
    pub num_vertices: u32,
    pub vertex_start: u32,
    pub vertex_end: u32,
    pub index_start: u32,
    pub index_end: u32,
}

impl Default for MeshCreationUniforms {
    fn default() -> (u: Self)
        ensures
            u == (MeshCreationUniforms {
                num_vertices: 0,
                vertex_start: 0,
                vertex_end: 0,
                index_start: 0,
                index_end: 0,
            }),
    {
        MeshCreationUniforms {
            num_vertices: 0,
            vertex_start: 0,
            vertex_end: 0,
            index_start: 0,
            index_end: 0,
        }
    }
}

/// The state of the scene in the render world.
#[derive(Debug, Clone, Copy, PartialEq, Eq, Structural)]
pub enum MeshCreationState {
    /// Waiting for the pipeline.
    Loading,
    /// The pipeline is ready; waiting for the deformation key.
    Waiting,
    /// The deformation runs this frame.
    Execute,
    /// The deformation has run.
    Finished,
}

impl Default for MeshCreationState {
    fn default() -> (s: Self)
        ensures
            s == MeshCreationState::Loading,
    {
        MeshCreationState::Loading
    }
}

/// What the main world asks of the render world.
#[derive(Debug, Clone, Copy, PartialEq, Eq, Structural)]
pub enum RenderPluginActions {
    /// Start over: wait for the pipeline again.
    Reset,
    /// Run the deformation, if the pipeline is waiting for it.
    StartDeformation,
}

/// The state after one message.
pub open spec fn handle_one(state: MeshCreationState, action: RenderPluginActions) -> MeshCreationState {
    match action {
        RenderPluginActions::Reset => MeshCreationState::Loading,
        RenderPluginActions::StartDeformation => if state == MeshCreationState::Waiting {
            MeshCreationState::Execute
        } else {
            state
        },
    }
}

/// The state after the messages, read in order.
pub open spec fn handle_all(state: MeshCreationState, actions: Seq<RenderPluginActions>) -> MeshCreationState
    decreases actions.len(),
{
    if actions.len() == 0 {
        state
    } else {
        handle_one(handle_all(state, actions.drop_last()), actions.last())
    }
}

/// Applies this frame's messages in the order in which they were sent.
pub fn handle_messages(messages: &Vec<RenderPluginActions>, state: &mut MeshCreationState)
    ensures
        *final(state) == handle_all(*old(state), messages@),
{
    let ghost start = *state;
    let mut i: usize = 0;
    while i < messages.len()
        invariant
            i <= messages.len(),
            *state == handle_all(start, messages@.take(i as int)),
        decreases messages.len() - i,
    {
        assert(messages@.take(i + 1).drop_last() =~= messages@.take(i as int));
        match messages[i] {
            RenderPluginActions::Reset => {
                *state = MeshCreationState::Loading;
            },
            RenderPluginActions::StartDeformation => {
                if *state == MeshCreationState::Waiting {
                    *state = MeshCreationState::Execute;
                }
            },
        }
        i = i + 1;
    }
    assert(messages@.take(i as int) =~= messages@);
}

/// The state after the pipeline has been polled.
pub open spec fn polled(state: MeshCreationState, status: PipelineStatus) -> MeshCreationState {
    if state == MeshCreationState::Loading && status == PipelineStatus::Ready {
        MeshCreationState::Waiting
    } else {
        state
    }
}

/// Moves a loading scene to `Waiting` once its pipeline is ready; every other
/// state, and a pipeline that is not ready yet, leave the state as it is. A
/// failed pipeline while loading is fatal to the scene and is not an input
/// here.
pub fn poll_pipeline_loading(state: &mut MeshCreationState, status: PipelineStatus)
    requires
        !(*old(state) == MeshCreationState::Loading && status == PipelineStatus::Failed),
    ensures
        *final(state) == polled(*old(state), status),
{
    match *state {
        MeshCreationState::Loading => {
            match status {
                PipelineStatus::Ready => {
                    *state = MeshCreationState::Waiting;
                },
                // The shader has not loaded yet, or the pipeline is still being made: wait.
                _ => {},
            }
        },
        _ => {},
    }
}

/// The state after a frame of the render graph.
pub open spec fn executed(state: MeshCreationState) -> MeshCreationState {
    if state == MeshCreationState::Execute {
        MeshCreationState::Finished
    } else {
        state
    }
}

/// Runs the deformation once: in `Execute` it moves to `Finished` and returns
/// the workgroups to dispatch; in every other state it does nothing.
pub fn execute_pipeline(state: &mut MeshCreationState) -> (w: Option<Workgroups>)
    ensures
        *final(state) == executed(*old(state)),
        w == (if *old(state) == MeshCreationState::Execute {
            Some(Workgroups { x: WORKGROUP_SIZE_X, y: WORKGROUP_SIZE_Y, z: 1 })
        } else {
            None
        }),
{
    if *state != MeshCreationState::Execute {
        return None;
    }
    *state = MeshCreationState::Finished;
    Some(Workgroups { x: WORKGROUP_SIZE_X, y: WORKGROUP_SIZE_Y, z: 1 })
}

/// The binding of the input vertices: the vertex slice `[start, end)` of the
/// mesh allocator's buffer, at `stride` bytes per vertex; an empty slice binds
/// the rest of the buffer.
pub fn vertex_slice_binding(start: u32, end: u32, stride: u64) -> (b: BufferBinding)
    requires
        start <= end,
        (end - start) * stride <= u64::MAX,
        start * stride <= u64::MAX,
    ensures
        b.offset == start * stride,
        b.size == binding_size((end - start) * stride),
{
    let input_size: u64 = (end - start) as u64 * stride;
    let input_offset: u64 = start as u64 * stride;
    BufferBinding { offset: input_offset, size: if input_size == 0 {
        None
    } else {
        Some(input_size)
    } }
}

/// Handling messages in two batches, one after the other, gives the state that
/// handling them all in one batch gives.
pub proof fn lemma_handle_batches(
    state: MeshCreationState,
    first: Seq<RenderPluginActions>,
    second: Seq<RenderPluginActions>,
)
    ensures
        handle_all(handle_all(state, first), second) == handle_all(state, first + second),
    decreases second.len(),
{
    if second.len() == 0 {
        assert(first + second =~= first);
    } else {
        lemma_handle_batches(state, first, second.drop_last());
        assert((first + second).drop_last() =~= first + second.drop_last());
        assert((first + second).last() == second.last());
    }
}

/// A batch with a reset leaves the scene waiting for its pipeline again,
/// whatever the other messages and the state before.
pub proof fn lemma_reset_wins(state: MeshCreationState, actions: Seq<RenderPluginActions>)
    requires
        actions.contains(RenderPluginActions::Reset),
    ensures
        handle_all(state, actions) == MeshCreationState::Loading,
    decreases actions.len(),
{
    if actions.last() != RenderPluginActions::Reset {
        let k: int = choose|k: int| 0 <= k < actions.len() && actions[k] == RenderPluginActions::Reset;
        assert(k < actions.len() - 1);
        assert(actions.drop_last()[k] == RenderPluginActions::Reset);
        lemma_reset_wins(state, actions.drop_last());
    }
}

/// Without a reset, a batch starts the deformation exactly when the scene was
/// waiting for it and the batch asks for it; otherwise the state stays.
pub proof fn lemma_start_without_reset(state: MeshCreationState, actions: Seq<RenderPluginActions>)
    requires
        !actions.contains(RenderPluginActions::Reset),
    ensures
        handle_all(state, actions) == (if state == MeshCreationState::Waiting && actions.contains(
            RenderPluginActions::StartDeformation,
        ) {
            MeshCreationState::Execute
        } else {
            state
        }),
    decreases actions.len(),
{
    if actions.len() > 0 {
        let prefix = actions.drop_last();
        assert forall|k: int| 0 <= k < prefix.len() implies prefix[k]
            != RenderPluginActions::Reset by {
            assert(prefix[k] == actions[k]);
        }
        lemma_start_without_reset(state, prefix);
        assert(actions.last() == actions[actions.len() - 1]);
        if prefix.contains(RenderPluginActions::StartDeformation) {
            let k: int = choose|k: int|
                0 <= k < prefix.len() && prefix[k] == RenderPluginActions::StartDeformation;
            assert(actions[k] == prefix[k]);
        } else if actions.contains(RenderPluginActions::StartDeformation) {
            let k: int = choose|k: int|
                0 <= k < actions.len() && actions[k] == RenderPluginActions::StartDeformation;
            if k < prefix.len() {
                assert(prefix[k] == actions[k]);
            }
        }
    }
}

/// The deformation runs at most once per start: a frame of the render graph in
/// `Execute` leaves `Finished`, from which further frames dispatch nothing, and
/// only a start message while waiting leads to `Execute`.
pub proof fn lemma_runs_once(
    state: MeshCreationState,
    action: RenderPluginActions,
    status: PipelineStatus,
)
    ensures
        executed(executed(state)) == executed(state),
        executed(state) != MeshCreationState::Execute,
        handle_one(state, action) == MeshCreationState::Execute ==> state
            == MeshCreationState::Execute || (state == MeshCreationState::Waiting && action
            == RenderPluginActions::StartDeformation),
        polled(state, status) == MeshCreationState::Execute ==> state == MeshCreationState::Execute,
{
}

/// The input binding covers the vertex slice exactly: it starts at the slice's
/// first vertex and ends where the slice's last vertex ends.
pub proof fn lemma_binding_covers_slice(start: u32, end: u32, stride: u64)
    requires
        start <= end,
    ensures
        start * stride + (end - start) * stride == end * stride,
{
    assert(start * stride + (end - start) * stride == end * stride) by (nonlinear_arith);
}

/// Polling acts on a loading scene only: every other state stays whatever the
/// pipeline's state, and a loading scene moves to `Waiting` exactly when the
/// pipeline is ready.
pub proof fn lemma_poll_only_loading(state: MeshCreationState, status: PipelineStatus)
    ensures
        state != MeshCreationState::Loading ==> polled(state, status) == state,
        polled(MeshCreationState::Loading, PipelineStatus::Ready) == MeshCreationState::Waiting,
        status != PipelineStatus::Ready ==> polled(MeshCreationState::Loading, status)
            == MeshCreationState::Loading,
{
}

/// A frame of the render graph changes only the `Execute` state, which it
/// turns into `Finished`.
pub proof fn lemma_execute_only_execute(state: MeshCreationState)
    ensures
        state != MeshCreationState::Execute ==> executed(state) == state,
        executed(MeshCreationState::Execute) == MeshCreationState::Finished,
{
}

/// A reset always leaves `Loading`; a start moves `Waiting` to `Execute` and
/// leaves every other state as it is; a batch of one message does what that
/// message does, and an empty batch nothing.
pub proof fn lemma_message_table(state: MeshCreationState, action: RenderPluginActions)
    ensures
        handle_all(state, seq![action]) == handle_one(state, action),
        handle_one(state, RenderPluginActions::Reset) == MeshCreationState::Loading,
        handle_one(MeshCreationState::Waiting, RenderPluginActions::StartDeformation)
            == MeshCreationState::Execute,
        state != MeshCreationState::Waiting ==> handle_one(
            state,
            RenderPluginActions::StartDeformation,
        ) == state,
        handle_all(state, Seq::empty()) == state,
{
    assert(seq![action].drop_last() =~= Seq::<RenderPluginActions>::empty());
}

} // verus!
