//! The Game of Life compute scene: two textures that a compute shader writes
//! in turn, and the state machine that decides which entry point runs.
use vstd::prelude::*;
use crate::pipeline::{ComputeDispatch, PipelineKind, PipelineStatus, Workgroups};

verus! {

/// How many screen pixels one cell of the simulation covers, per axis.
pub const DISPLAY_FACTOR: u32 = 4;

/// The width of the simulation texture, in cells.
pub const SIZE_X: u32 = 1280 / DISPLAY_FACTOR;

/// The height of the simulation texture, in cells.
pub const SIZE_Y: u32 = 720 / DISPLAY_FACTOR;

/// The side of a square compute workgroup, in cells.
pub const WORKGROUP_SIZE: u32 = 8;

/// The state of the simulation in the render world.
#[derive(Debug, Clone, Copy, PartialEq, Eq, Structural)]
pub enum GameOfLifeState {
    /// Waiting for the init pipeline.
    Loading,
    /// The init pipeline runs.
    Init,
    /// The update pipeline runs, reading the texture of the given bind group.
    Update(usize),
}

impl GameOfLifeState {
    /// Only the two bind groups 0 and 1 exist.
    pub open spec fn wf(self) -> bool {
        match self {
            GameOfLifeState::Update(i) => i < 2,
            _ => true,
        }
    }
}

impl Default for GameOfLifeState {
    fn default() -> (s: Self)
        ensures
            s == GameOfLifeState::Loading,
    {
        GameOfLifeState::Loading
    }
}

/// One step of the simulation's state machine, given the states of the init
/// and the update pipeline.
pub open spec fn next_state(
    state: GameOfLifeState,
    init: PipelineStatus,
    update: PipelineStatus,
) -> GameOfLifeState {
    match state {
        GameOfLifeState::Loading => if init == PipelineStatus::Ready {
            GameOfLifeState::Init
        } else {
            GameOfLifeState::Loading
        },
        GameOfLifeState::Init => if update == PipelineStatus::Ready {
            GameOfLifeState::Update(1)
        } else {
            GameOfLifeState::Init
        },
        GameOfLifeState::Update(i) => GameOfLifeState::Update((1 - i) as usize),
    }
}

/// The dispatch that the render graph issues in a state.
pub open spec fn dispatch_of(state: GameOfLifeState) -> Option<ComputeDispatch> {
    match state {
        GameOfLifeState::Loading => None,
        GameOfLifeState::Init => Some(
            ComputeDispatch {
                pipeline: PipelineKind::Init,
                bind_group: 0,
                workgroups: Workgroups {
                    x: SIZE_X / WORKGROUP_SIZE,
                    y: SIZE_Y / WORKGROUP_SIZE,
                    z: 1,
                },
            },
        ),
        GameOfLifeState::Update(i) => Some(
            ComputeDispatch {
                pipeline: PipelineKind::Update,
                bind_group: i,
                workgroups: Workgroups {
                    x: SIZE_X / WORKGROUP_SIZE,
                    y: SIZE_Y / WORKGROUP_SIZE,
                    z: 1,
                },
            },
        ),
    }
}

/// Advances the simulation's state: from `Loading` to `Init` once the init
/// pipeline is ready, from `Init` to `Update(1)` once the update pipeline is
/// ready, and from `Update(i)` to the other bind group. A failed init pipeline
/// while loading is fatal to the scene and is not an input here.
pub fn update(state: &mut GameOfLifeState, init: PipelineStatus, update: PipelineStatus)
    requires
        old(state).wf(),
        !(*old(state) == GameOfLifeState::Loading && init == PipelineStatus::Failed),
    ensures
        *final(state) == next_state(*old(state), init, update),
        final(state).wf(),
{
    match *state {
        GameOfLifeState::Loading => {
            match init {
                PipelineStatus::Ready => {
                    *state = GameOfLifeState::Init;
                },
                // The shader has not loaded yet, or the pipeline is still being made: wait.
                _ => {},
            }
        },
        GameOfLifeState::Init => {
            if update == PipelineStatus::Ready {
                *state = GameOfLifeState::Update(1);
            }
        },
        GameOfLifeState::Update(0) => {
            *state = GameOfLifeState::Update(1);
        },
        GameOfLifeState::Update(_) => {
            *state = GameOfLifeState::Update(0);
        },
    }
}

/// Puts the simulation back to `Loading` when at least one reset was asked
/// for this frame, and leaves it as it is otherwise.
pub fn reset_render_state(reset_count: usize, state: &mut GameOfLifeState)
    ensures
        *final(state) == (if reset_count > 0 {
            GameOfLifeState::Loading
        } else {
            *old(state)
        }),
{
    if reset_count > 0 {
        *state = GameOfLifeState::Loading;
    }
}

/// The workgroups that cover the simulation texture.
pub fn workgroup_count() -> (w: Workgroups)
    ensures
        w == (Workgroups { x: SIZE_X / WORKGROUP_SIZE, y: SIZE_Y / WORKGROUP_SIZE, z: 1 }),
        w.x == 40,
        w.y == 22,
{
    Workgroups { x: SIZE_X / WORKGROUP_SIZE, y: SIZE_Y / WORKGROUP_SIZE, z: 1 }
}

/// The compute work of a frame: nothing while loading, the init entry point on
/// bind group 0, or the update entry point on the bind group of the state.
pub fn game_of_life(state: &GameOfLifeState) -> (d: Option<ComputeDispatch>)
    requires
        state.wf(),
    ensures
        d == dispatch_of(*state),
        d matches Some(c) ==> c.bind_group < 2,
{
    match *state {
        GameOfLifeState::Loading => None,
        GameOfLifeState::Init => Some(
            ComputeDispatch {
                pipeline: PipelineKind::Init,
                bind_group: 0,
                workgroups: workgroup_count(),
            },
        ),
        GameOfLifeState::Update(index) => Some(
            ComputeDispatch {
                pipeline: PipelineKind::Update,
                bind_group: index,
                workgroups: workgroup_count(),
            },
        ),
    }
}

/// One of the two simulation textures.
#[derive(Debug, Clone, Copy, PartialEq, Eq, Structural)]
pub enum TextureSlot {
    A,
    B,
}

/// The textures of a bind group: the one the shader reads and the one it
/// writes. Bind group 0 reads the first texture and writes the second; bind
/// group 1 the other way round.
pub open spec fn roles_of(bind_group: usize) -> (TextureSlot, TextureSlot) {
    if bind_group == 0 {
        (TextureSlot::A, TextureSlot::B)
    } else {
        (TextureSlot::B, TextureSlot::A)
    }
}

/// The texture that bind group `bind_group` reads and the one it writes.
pub fn texture_roles(bind_group: usize) -> (r: (TextureSlot, TextureSlot))
    requires
        bind_group < 2,
    ensures
        r == roles_of(bind_group),
{
    if bind_group == 0 {
        (TextureSlot::A, TextureSlot::B)
    } else {
        (TextureSlot::B, TextureSlot::A)
    }
}

/// The texture that the sprite shows after a switch, given whether it shows
/// the first texture now.
pub open spec fn switched(showing_a: bool) -> TextureSlot {
    if showing_a {
        TextureSlot::B
    } else {
        TextureSlot::A
    }
}

/// The texture that the sprite shows next: the second one while it shows the
/// first, the first otherwise.
pub fn switch_textures(showing_a: bool) -> (t: TextureSlot)
    ensures
        t == switched(showing_a),
{
    if showing_a {
        TextureSlot::B
    } else {
        TextureSlot::A
    }
}

/// While the update pipeline runs, each step reads the other bind group: the
/// state never repeats from one frame to the next, and two steps bring it back.
pub proof fn lemma_update_alternates(i: usize, init: PipelineStatus, update: PipelineStatus)
    requires
        i < 2,
    ensures
        next_state(GameOfLifeState::Update(i), init, update) == GameOfLifeState::Update(
            (1 - i) as usize,
        ),
        next_state(GameOfLifeState::Update(i), init, update) != GameOfLifeState::Update(i),
        next_state(next_state(GameOfLifeState::Update(i), init, update), init, update)
            == GameOfLifeState::Update(i),
{
}

/// The simulation waits while a pipeline it needs is not ready: `Loading`
/// stays until the init pipeline is ready and `Init` until the update pipeline
/// is; once it runs the update pipeline, only a reset leaves `Update`, and it
/// reaches `Update` only through `Init`.
pub proof fn lemma_waits_for_pipelines(
    state: GameOfLifeState,
    init: PipelineStatus,
    update: PipelineStatus,
)
    ensures
        state == GameOfLifeState::Loading && init != PipelineStatus::Ready ==> next_state(
            state,
            init,
            update,
        ) == state,
        state == GameOfLifeState::Init && update != PipelineStatus::Ready ==> next_state(
            state,
            init,
            update,
        ) == state,
        state is Update ==> next_state(state, init, update) is Update,
        next_state(state, init, update) is Update ==> state != GameOfLifeState::Loading,
{
}

/// The dispatched workgroups lie inside the simulation texture, and what they
/// leave out of it is less than one workgroup per axis.
pub proof fn lemma_dispatch_within_texture()
    ensures
        (SIZE_X / WORKGROUP_SIZE) * WORKGROUP_SIZE <= SIZE_X,
        SIZE_X - (SIZE_X / WORKGROUP_SIZE) * WORKGROUP_SIZE < WORKGROUP_SIZE,
        (SIZE_Y / WORKGROUP_SIZE) * WORKGROUP_SIZE <= SIZE_Y,
        SIZE_Y - (SIZE_Y / WORKGROUP_SIZE) * WORKGROUP_SIZE < WORKGROUP_SIZE,
{
}

/// From one update frame to the next, the simulation reads the texture it
/// wrote the frame before, and never reads and writes one texture at once.
pub proof fn lemma_update_reads_last_write(i: usize, init: PipelineStatus, update: PipelineStatus)
    requires
        i < 2,
    ensures
        dispatch_of(next_state(GameOfLifeState::Update(i), init, update)) matches Some(d) && roles_of(
            d.bind_group,
        ).0 == roles_of(i).1,
        roles_of(i).0 != roles_of(i).1,
{
}

/// The sprite alternates between the two textures: from the first it
/// switches to the second, and a second switch brings it back to the first.
pub proof fn lemma_textures_alternate()
    ensures
        switched(true) == TextureSlot::B,
        switched(switched(true) == TextureSlot::A) == TextureSlot::A,
{
}

/// The simulation starts as soon as its init pipeline is ready: from
/// `Loading`, a ready init pipeline leads to `Init` whatever the state of the
/// update pipeline, and a ready update pipeline leads from `Init` to
/// `Update(1)` whatever the state of the init pipeline.
pub proof fn lemma_starts_when_ready(init: PipelineStatus, update: PipelineStatus)
    ensures
        next_state(GameOfLifeState::Loading, PipelineStatus::Ready, update) == GameOfLifeState::Init,
        next_state(GameOfLifeState::Init, init, PipelineStatus::Ready) == GameOfLifeState::Update(1),
        next_state(GameOfLifeState::Update(0), init, update) == GameOfLifeState::Update(1),
        next_state(GameOfLifeState::Update(1), init, update) == GameOfLifeState::Update(0),
{
}

/// What each state dispatches: nothing while loading; the init entry point on
/// bind group 0 in `Init`; the update entry point on bind group `i` in
/// `Update(i)`, for both bind groups; always over 40 by 22 by 1 workgroups.
pub proof fn lemma_dispatch_table(i: usize)
    requires
        i < 2,
    ensures
        dispatch_of(GameOfLifeState::Loading).is_none(),
        dispatch_of(GameOfLifeState::Init) == Some(
            (ComputeDispatch {
                pipeline: PipelineKind::Init,
                bind_group: 0,
                workgroups: Workgroups { x: 40, y: 22, z: 1 },
            }),
        ),
        dispatch_of(GameOfLifeState::Update(i)) == Some(
            (ComputeDispatch {
                pipeline: PipelineKind::Update,
                bind_group: i,
                workgroups: Workgroups { x: 40, y: 22, z: 1 },
            }),
        ),
{
}

/// Bind group 0 reads the first texture and writes the second, bind group 1
/// the other way round; a sprite showing the first texture switches to the
/// second and any other switches to the first.
pub proof fn lemma_texture_table()
    ensures
        roles_of(0) == (TextureSlot::A, TextureSlot::B),
        roles_of(1) == (TextureSlot::B, TextureSlot::A),
        switched(true) == TextureSlot::B,
        switched(false) == TextureSlot::A,
{
}

} // verus!
