use shader_playground::mesh_creation::{
    execute_pipeline, handle_messages, poll_pipeline_loading, vertex_slice_binding,
    MeshCreationState, MeshCreationUniforms, RenderPluginActions,
};
use shader_playground::pipeline::{BufferBinding, PipelineStatus, Workgroups};

#[test]
fn uniforms_start_at_zero() {
    let u = MeshCreationUniforms::default();
    assert_eq!(
        (u.num_vertices, u.vertex_start, u.vertex_end, u.index_start, u.index_end),
        (0, 0, 0, 0, 0)
    );
}

#[test]
fn start_only_acts_while_waiting() {
    for s0 in [MeshCreationState::Loading, MeshCreationState::Execute, MeshCreationState::Finished] {
        let mut s = s0;
        handle_messages(&vec![RenderPluginActions::StartDeformation], &mut s);
        assert_eq!(s, s0);
    }
    let mut s = MeshCreationState::Waiting;
    handle_messages(&vec![RenderPluginActions::StartDeformation], &mut s);
    assert_eq!(s, MeshCreationState::Execute);
}

#[test]
fn messages_apply_in_order() {
    let mut s = MeshCreationState::Waiting;
    handle_messages(
        &vec![RenderPluginActions::StartDeformation, RenderPluginActions::Reset],
        &mut s,
    );
    assert_eq!(s, MeshCreationState::Loading);
    let mut s = MeshCreationState::Waiting;
    handle_messages(
        &vec![RenderPluginActions::Reset, RenderPluginActions::StartDeformation],
        &mut s,
    );
    assert_eq!(s, MeshCreationState::Loading);
    let mut s = MeshCreationState::Finished;
    handle_messages(&vec![], &mut s);
    assert_eq!(s, MeshCreationState::Finished);
}

#[test]
fn batches_compose() {
    let msgs = vec![
        RenderPluginActions::StartDeformation,
        RenderPluginActions::StartDeformation,
        RenderPluginActions::Reset,
    ];
    let mut one = MeshCreationState::Waiting;
    handle_messages(&msgs, &mut one);
    let mut two = MeshCreationState::Waiting;
    handle_messages(&msgs[..1].to_vec(), &mut two);
    handle_messages(&msgs[1..].to_vec(), &mut two);
    assert_eq!(one, two);
}

#[test]
fn pipeline_readiness_moves_loading_to_waiting() {
    let mut s = MeshCreationState::Loading;
    poll_pipeline_loading(&mut s, PipelineStatus::Creating);
    assert_eq!(s, MeshCreationState::Loading);
    poll_pipeline_loading(&mut s, PipelineStatus::ShaderNotLoaded);
    assert_eq!(s, MeshCreationState::Loading);
    poll_pipeline_loading(&mut s, PipelineStatus::Ready);
    assert_eq!(s, MeshCreationState::Waiting);
    let mut f = MeshCreationState::Finished;
    poll_pipeline_loading(&mut f, PipelineStatus::Ready);
    assert_eq!(f, MeshCreationState::Finished);
}

#[test]
fn deformation_runs_once() {
    let mut s = MeshCreationState::Execute;
    assert_eq!(execute_pipeline(&mut s), Some(Workgroups { x: 1, y: 1, z: 1 }));
    assert_eq!(s, MeshCreationState::Finished);
    assert_eq!(execute_pipeline(&mut s), None);
    assert_eq!(s, MeshCreationState::Finished);
    let mut w = MeshCreationState::Waiting;
    assert_eq!(execute_pipeline(&mut w), None);
    assert_eq!(w, MeshCreationState::Waiting);
}

#[test]
fn input_binding_covers_the_slice() {
    assert_eq!(
        vertex_slice_binding(24, 48, 32),
        BufferBinding { offset: 768, size: Some(768) }
    );
    assert_eq!(vertex_slice_binding(5, 5, 32), BufferBinding { offset: 160, size: None });
    let b = vertex_slice_binding(3, 10, 32);
    assert_eq!(b.offset + b.size.unwrap(), 10 * 32);
}
