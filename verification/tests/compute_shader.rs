use shader_playground::compute_shader::{
    game_of_life, reset_render_state, switch_textures, texture_roles, update, workgroup_count,
    GameOfLifeState, TextureSlot, SIZE_X, SIZE_Y,
};
use shader_playground::pipeline::{ComputeDispatch, PipelineKind, PipelineStatus, Workgroups};

#[test]
fn texture_is_a_quarter_of_the_screen() {
    assert_eq!((SIZE_X, SIZE_Y), (320, 180));
    assert_eq!(workgroup_count(), Workgroups { x: 40, y: 22, z: 1 });
}

#[test]
fn loading_waits_for_the_init_pipeline() {
    for status in [PipelineStatus::Queued, PipelineStatus::Creating, PipelineStatus::ShaderNotLoaded] {
        let mut s = GameOfLifeState::Loading;
        update(&mut s, status, PipelineStatus::Ready);
        assert_eq!(s, GameOfLifeState::Loading);
    }
    let mut s = GameOfLifeState::default();
    update(&mut s, PipelineStatus::Ready, PipelineStatus::Queued);
    assert_eq!(s, GameOfLifeState::Init);
}

#[test]
fn init_waits_for_the_update_pipeline() {
    let mut s = GameOfLifeState::Init;
    update(&mut s, PipelineStatus::Ready, PipelineStatus::Creating);
    assert_eq!(s, GameOfLifeState::Init);
    update(&mut s, PipelineStatus::Ready, PipelineStatus::Ready);
    assert_eq!(s, GameOfLifeState::Update(1));
}

#[test]
fn update_alternates_bind_groups() {
    let mut s = GameOfLifeState::Update(1);
    update(&mut s, PipelineStatus::Failed, PipelineStatus::Failed);
    assert_eq!(s, GameOfLifeState::Update(0));
    update(&mut s, PipelineStatus::Ready, PipelineStatus::Ready);
    assert_eq!(s, GameOfLifeState::Update(1));
}

#[test]
fn reset_goes_back_to_loading() {
    let mut s = GameOfLifeState::Update(0);
    reset_render_state(0, &mut s);
    assert_eq!(s, GameOfLifeState::Update(0));
    reset_render_state(3, &mut s);
    assert_eq!(s, GameOfLifeState::Loading);
}

#[test]
fn dispatch_follows_the_state() {
    assert_eq!(game_of_life(&GameOfLifeState::Loading), None);
    let w = Workgroups { x: 40, y: 22, z: 1 };
    assert_eq!(
        game_of_life(&GameOfLifeState::Init),
        Some(ComputeDispatch { pipeline: PipelineKind::Init, bind_group: 0, workgroups: w })
    );
    assert_eq!(
        game_of_life(&GameOfLifeState::Update(1)),
        Some(ComputeDispatch { pipeline: PipelineKind::Update, bind_group: 1, workgroups: w })
    );
}

#[test]
fn textures_swap_roles() {
    assert_eq!(texture_roles(0), (TextureSlot::A, TextureSlot::B));
    assert_eq!(texture_roles(1), (TextureSlot::B, TextureSlot::A));
    // the next frame reads what this frame wrote
    assert_eq!(texture_roles(0).1, texture_roles(1).0);
}

#[test]
fn sprite_switches_textures() {
    assert_eq!(switch_textures(true), TextureSlot::B);
    assert_eq!(switch_textures(false), TextureSlot::A);
    assert_eq!(switch_textures(switch_textures(true) == TextureSlot::A), TextureSlot::A);
}
