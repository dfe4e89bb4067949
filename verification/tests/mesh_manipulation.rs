use shader_playground::mesh_manipulation::{
    debug_binding, mesh_manipulation, reset_render_state, update, vertex_binding,
    MeshManipulationUniforms, RenderState,
};
use shader_playground::pipeline::{BufferBinding, ComputeDispatch, PipelineKind, PipelineStatus, Workgroups};

#[test]
fn plane_starts_with_64_by_64_panes() {
    let u = MeshManipulationUniforms::initial();
    assert_eq!((u.pane_x_count, u.pane_y_count), (64, 64));
}

#[test]
fn state_machine_runs_init_then_update() {
    let mut s = RenderState::default();
    update(&mut s, PipelineStatus::ShaderNotLoaded, PipelineStatus::Ready);
    assert_eq!(s, RenderState::Loading);
    update(&mut s, PipelineStatus::Ready, PipelineStatus::Queued);
    assert_eq!(s, RenderState::Init);
    update(&mut s, PipelineStatus::Ready, PipelineStatus::Queued);
    assert_eq!(s, RenderState::Init);
    update(&mut s, PipelineStatus::Ready, PipelineStatus::Ready);
    assert_eq!(s, RenderState::Update);
    update(&mut s, PipelineStatus::Failed, PipelineStatus::Failed);
    assert_eq!(s, RenderState::Update);
    reset_render_state(1, &mut s);
    assert_eq!(s, RenderState::Loading);
}

#[test]
fn dispatches_one_workgroup() {
    let w = Workgroups { x: 1, y: 1, z: 1 };
    assert_eq!(mesh_manipulation(&RenderState::Loading), None);
    assert_eq!(
        mesh_manipulation(&RenderState::Init),
        Some(ComputeDispatch { pipeline: PipelineKind::Init, bind_group: 0, workgroups: w })
    );
    assert_eq!(
        mesh_manipulation(&RenderState::Update),
        Some(ComputeDispatch { pipeline: PipelineKind::Update, bind_group: 0, workgroups: w })
    );
}

#[test]
fn vertex_binding_spans_48_bytes_per_vertex() {
    assert_eq!(vertex_binding(10, 14), BufferBinding { offset: 10, size: Some(192) });
    assert_eq!(vertex_binding(0, 4), BufferBinding { offset: 0, size: Some(192) });
    assert_eq!(vertex_binding(7, 7), BufferBinding { offset: 7, size: None });
    assert_eq!(vertex_binding(9, 3), BufferBinding { offset: 9, size: None });
    assert_eq!(
        vertex_binding(0, u32::MAX),
        BufferBinding { offset: 0, size: Some(u32::MAX as u64 * 48) }
    );
}

#[test]
fn debug_binding_is_four_bytes() {
    assert_eq!(debug_binding(), BufferBinding { offset: 0, size: Some(4) });
}
